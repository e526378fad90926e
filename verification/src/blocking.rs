//! The blocking graph: which issues block which, where blocking chains
//! start (leaf blockers, which nothing blocks), the chains themselves, and
//! whether a cycle can be reached from a leaf blocker.
//!
//! Edges are `(source, target)` pairs meaning "source blocks target", in
//! the order the application read them.
use vstd::prelude::*;
use crate::enums::IssueStatus;

verus! {

/// `(u, v)` is one of the edges.
pub open spec fn is_edge(e: Seq<(i64, i64)>, u: i64, v: i64) -> bool {
    exists|i: int| 0 <= i < e.len() && e[i] == (u, v)
}

/// Some edge leaves `u`: `u` blocks something.
pub open spec fn has_out(e: Seq<(i64, i64)>, u: i64) -> bool {
    exists|i: int| 0 <= i < e.len() && e[i].0 == u
}

/// Some edge enters `v`: something blocks `v`.
pub open spec fn is_target(e: Seq<(i64, i64)>, v: i64) -> bool {
    exists|i: int| 0 <= i < e.len() && e[i].1 == v
}

/// A leaf blocker blocks something and is blocked by nothing.
pub open spec fn is_leaf(e: Seq<(i64, i64)>, u: i64) -> bool {
    has_out(e, u) && !is_target(e, u)
}

/// A path along the edges: at least one node, each consecutive pair an edge.
pub open spec fn is_walk(e: Seq<(i64, i64)>, p: Seq<i64>) -> bool {
    p.len() >= 1 && forall|j: int| 0 <= j < p.len() - 1 ==> is_edge(e, #[trigger] p[j], p[j + 1])
}

/// A path from a leaf blocker that visits no node twice.
pub open spec fn is_leaf_path(e: Seq<(i64, i64)>, p: Seq<i64>) -> bool {
    is_walk(e, p) && is_leaf(e, p[0]) && p.no_duplicates()
}

/// A blocking chain: a path from a leaf blocker that visits no node twice
/// and ends at an issue that blocks nothing.
pub open spec fn is_chain(e: Seq<(i64, i64)>, p: Seq<i64>) -> bool {
    is_leaf_path(e, p) && !has_out(e, p.last())
}

/// No edge leaves the end of `p` back into `p`.
pub open spec fn closes_no_cycle(e: Seq<(i64, i64)>, p: Seq<i64>) -> bool {
    forall|n: i64| is_edge(e, p.last(), n) ==> !p.contains(n)
}

/// Following the edges from some leaf blocker one comes back to an issue
/// already on the way.
pub open spec fn cycle_reachable(e: Seq<(i64, i64)>) -> bool {
    exists|p: Seq<i64>| is_leaf_path(e, p) && !closes_no_cycle(e, p)
}

/// The contents of a list of id lists.
pub open spec fn seqs_of(v: Seq<Vec<i64>>) -> Seq<Seq<i64>> {
    Seq::new(v.len(), |i: int| v[i]@)
}

/// A strictly increasing list of ids.
pub open spec fn strictly_increasing(s: Seq<i64>) -> bool {
    forall|i: int, j: int| 0 <= i < j < s.len() ==> s[i] < s[j]
}

fn has_out_exec(e: &Vec<(i64, i64)>, u: i64) -> (r: bool)
    ensures
        r == has_out(e@, u),
{
    let mut i: usize = 0;
    while i < e.len()
        invariant
            i <= e.len(),
            forall|k: int| 0 <= k < i ==> e@[k].0 != u,
        decreases e.len() - i,
    {
        if e[i].0 == u {
            return true;
        }
        i = i + 1;
    }
    false
}

fn is_target_exec(e: &Vec<(i64, i64)>, v: i64) -> (r: bool)
    ensures
        r == is_target(e@, v),
{
    let mut i: usize = 0;
    while i < e.len()
        invariant
            i <= e.len(),
            forall|k: int| 0 <= k < i ==> e@[k].1 != v,
        decreases e.len() - i,
    {
        if e[i].1 == v {
            return true;
        }
        i = i + 1;
    }
    false
}

fn contains_id(p: &Vec<i64>, n: i64) -> (r: bool)
    ensures
        r == p@.contains(n),
{
    let mut i: usize = 0;
    while i < p.len()
        invariant
            i <= p.len(),
            forall|k: int| 0 <= k < i ==> p@[k] != n,
        decreases p.len() - i,
    {
        if p[i] == n {
            return true;
        }
        i = i + 1;
    }
    false
}

/// Puts `x` into the strictly increasing list `s` unless it is there already.
fn insert_sorted(s: &mut Vec<i64>, x: i64)
    requires
        strictly_increasing(old(s)@),
    ensures
        strictly_increasing(final(s)@),
        forall|y: i64| final(s)@.contains(y) <==> (old(s)@.contains(y) || y == x),
{
    let mut i: usize = 0;
    while i < s.len() && s[i] < x
        invariant
            i <= s.len(),
            s@ == old(s)@,
            strictly_increasing(s@),
            forall|k: int| 0 <= k < i ==> s@[k] < x,
        decreases s.len() - i,
    {
        i = i + 1;
    }
    if i < s.len() && s[i] == x {
        assert(s@[i as int] == x);
    } else {
        let ghost before = s@;
        s.insert(i, x);
        assert(s@ == before.insert(i as int, x));
        assert forall|y: i64| s@.contains(y) <==> (before.contains(y) || y == x) by {
            if s@.contains(y) {
                let k = choose|k: int| 0 <= k < s@.len() && s@[k] == y;
                if k < i {
                    assert(before[k] == y);
                } else if k > i {
                    assert(before[k - 1] == y);
                }
            }
            if before.contains(y) {
                let k = choose|k: int| 0 <= k < before.len() && before[k] == y;
                if k < i {
                    assert(s@[k] == y);
                } else {
                    assert(s@[k + 1] == y);
                }
            }
            if y == x {
                assert(s@[i as int] == x);
            }
        }
    }
}

/// The leaf blockers of the edges, in increasing order.
pub fn leaf_blockers(e: &Vec<(i64, i64)>) -> (r: Vec<i64>)
    ensures
        strictly_increasing(r@),
        forall|x: i64| r@.contains(x) <==> is_leaf(e@, x),
{
    let mut r: Vec<i64> = Vec::new();
    let mut i: usize = 0;
    while i < e.len()
        invariant
            i <= e.len(),
            strictly_increasing(r@),
            forall|x: i64| r@.contains(x) <==> (is_leaf(e@, x) && exists|k: int| 0 <= k < i && e@[k].0 == x),
        decreases e.len() - i,
    {
        let u = e[i].0;
        if !is_target_exec(e, u) {
            insert_sorted(&mut r, u);
        }
        proof {
            assert forall|x: i64| r@.contains(x) <==> (is_leaf(e@, x) && exists|k: int| 0 <= k < i + 1 && e@[k].0 == x) by {
                if x == u && !is_target(e@, u) {
                    assert(has_out(e@, u));
                    assert(e@[i as int].0 == x);
                }
                if is_leaf(e@, x) && (exists|k: int| 0 <= k < i + 1 && e@[k].0 == x) {
                    let k = choose|k: int| 0 <= k < i + 1 && e@[k].0 == x;
                    if k == i {
                        assert(x == u);
                    }
                }
            }
        }
        i = i + 1;
    }
    proof {
        assert forall|x: i64| is_leaf(e@, x) implies r@.contains(x) by {
            let k = choose|k: int| 0 <= k < e@.len() && e@[k].0 == x;
        }
    }
    r
}

/// The nodes that occur in the edges.
pub open spec fn node_set(e: Seq<(i64, i64)>) -> Set<i64> {
    e.map_values(|x: (i64, i64)| x.0).to_set().union(e.map_values(|x: (i64, i64)| x.1).to_set())
}

proof fn lemma_node_set_bounded(e: Seq<(i64, i64)>)
    ensures
        node_set(e).finite(),
        node_set(e).len() <= 2 * e.len(),
{
    let a = e.map_values(|x: (i64, i64)| x.0);
    let b = e.map_values(|x: (i64, i64)| x.1);
    a.lemma_cardinality_of_set();
    b.lemma_cardinality_of_set();
    vstd::set_lib::lemma_set_union_finite_iff(a.to_set(), b.to_set());
    vstd::set_lib::lemma_len_union(a.to_set(), b.to_set());
}

/// A path from a leaf blocker that repeats no node has at most as many nodes
/// as the edges name, so at most twice as many as there are edges.
proof fn lemma_distinct_within_set(p: Seq<i64>, s: Set<i64>)
    requires
        p.no_duplicates(),
        s.finite(),
        forall|i: int| 0 <= i < p.len() ==> s.contains(#[trigger] p[i]),
    ensures
        p.len() <= s.len(),
{
    p.unique_seq_to_set();
    assert forall|x: i64| p.to_set().contains(x) implies s.contains(x) by {
        let i = choose|i: int| 0 <= i < p.len() && p[i] == x;
    }
    vstd::set_lib::lemma_len_subset(p.to_set(), s);
}

proof fn lemma_leaf_path_bounded(e: Seq<(i64, i64)>, p: Seq<i64>)
    requires
        is_leaf_path(e, p),
    ensures
        p.len() <= 2 * e.len(),
{
    lemma_node_set_bounded(e);
    let a = e.map_values(|x: (i64, i64)| x.0);
    let b = e.map_values(|x: (i64, i64)| x.1);
    assert forall|x: i64| p.to_set().contains(x) implies node_set(e).contains(x) by {
        assert(p.contains(x));
        let j = choose|j: int| 0 <= j < p.len() && p[j] == x;
        if j == 0 {
            let i = choose|i: int| 0 <= i < e.len() && e[i].0 == p[0];
            assert(a[i] == x);
            assert(a.contains(x));
        } else {
            assert(is_edge(e, p[j - 1], p[j]));
            let i = choose|i: int| 0 <= i < e.len() && e[i] == (p[j - 1], p[j]);
            assert(b[i] == x);
            assert(b.contains(x));
        }
    }
    p.unique_seq_to_set();
    vstd::set_lib::lemma_len_subset(p.to_set(), node_set(e));
}

/// A prefix of a path from a leaf blocker is one too.
proof fn lemma_prefix_leaf_path(e: Seq<(i64, i64)>, p: Seq<i64>, m: int)
    requires
        is_leaf_path(e, p),
        1 <= m <= p.len(),
    ensures
        is_leaf_path(e, p.take(m)),
        p.take(m)[0] == p[0],
{
    let q = p.take(m);
    assert forall|j: int| 0 <= j < q.len() - 1 implies is_edge(e, #[trigger] q[j], q[j + 1]) by {
        assert(q[j] == p[j] && q[j + 1] == p[j + 1]);
        assert(is_edge(e, p[j], p[j + 1]));
    }
}

/// Extending a path from a leaf blocker by an edge to a new node gives one too.
proof fn lemma_extend_leaf_path(e: Seq<(i64, i64)>, p: Seq<i64>, n: i64)
    requires
        is_leaf_path(e, p),
        is_edge(e, p.last(), n),
        !p.contains(n),
    ensures
        is_leaf_path(e, p.push(n)),
        p.push(n)[0] == p[0],
        p.push(n).take(p.len() as int) == p,
{
    let q = p.push(n);
    assert forall|j: int| 0 <= j < q.len() - 1 implies is_edge(e, #[trigger] q[j], q[j + 1]) by {
        if j < p.len() - 1 {
            assert(q[j] == p[j] && q[j + 1] == p[j + 1]);
            assert(is_edge(e, p[j], p[j + 1]));
        } else {
            assert(q[j] == p.last() && q[j + 1] == n);
        }
    }
    assert forall|i: int, j: int| 0 <= i < q.len() && 0 <= j < q.len() && i != j implies q[i] != q[j] by {
        if i < p.len() && j < p.len() {
        } else if i == p.len() {
            assert(q[i] == n);
            if q[j] == n {
                assert(p[j] == n);
            }
        } else {
            assert(q[j] == n);
            if q[i] == n {
                assert(p[i] == n);
            }
        }
    }
    assert(q.take(p.len() as int) =~= p);
}

proof fn lemma_seqs_push(v: Seq<Vec<i64>>, x: Vec<i64>)
    ensures
        seqs_of(v.push(x)) == seqs_of(v).push(x@),
        seqs_of(v.push(x)).contains(x@),
        forall|q: Seq<i64>| seqs_of(v).contains(q) ==> seqs_of(v.push(x)).contains(q),
{
    assert(seqs_of(v.push(x)) =~= seqs_of(v).push(x@));
    assert(seqs_of(v.push(x))[v.len() as int] == x@);
    assert forall|q: Seq<i64>| seqs_of(v).contains(q) implies seqs_of(v.push(x)).contains(q) by {
        let j = choose|j: int| 0 <= j < seqs_of(v).len() && seqs_of(v)[j] == q;
        assert(seqs_of(v.push(x))[j] == q);
    }
}

proof fn lemma_seqs_take(v: Seq<Vec<i64>>, i: int)
    requires
        0 <= i < v.len(),
    ensures
        seqs_of(v).take(i + 1) == seqs_of(v).take(i).push(v[i]@),
{
    assert(seqs_of(v).take(i + 1) =~= seqs_of(v).take(i).push(v[i]@));
}

/// No id list occurs twice.
pub open spec fn distinct_seqs(v: Seq<Vec<i64>>) -> bool {
    forall|a: int, b: int| 0 <= a < b < v.len() ==> v[a]@ != v[b]@
}

proof fn lemma_distinct_push(v: Seq<Vec<i64>>, x: Vec<i64>)
    requires
        distinct_seqs(v),
        forall|j: int| 0 <= j < v.len() ==> (#[trigger] v[j])@ != x@,
    ensures
        distinct_seqs(v.push(x)),
{
    assert forall|a: int, b: int| 0 <= a < b < v.push(x).len() implies v.push(x)[a]@ != v.push(x)[b]@ by {
        if b < v.len() {
            assert(v.push(x)[a] == v[a] && v.push(x)[b] == v[b]);
        } else {
            assert(v.push(x)[a] == v[a]);
        }
    }
}

/// The lists start at non-decreasing ids: the chains come leaf by leaf.
pub open spec fn chains_by_leaf(v: Seq<Vec<i64>>) -> bool {
    forall|a: int, b: int| 0 <= a < b < v.len() ==> v[a]@[0] <= v[b]@[0]
}

/// The walk stopped at the `m`-th leaf, where a path from that leaf meets a
/// cycle: no path from an earlier leaf meets one, every chain from an
/// earlier leaf is among `chains`, and every one of `chains` starts at that
/// leaf or an earlier one.
pub open spec fn stops_at_leaf(e: Seq<(i64, i64)>, leaves: Seq<i64>, m: int, chains: Seq<Vec<i64>>) -> bool {
    &&& 0 <= m < leaves.len()
    &&& exists|p: Seq<i64>| is_leaf_path(e, p) && p[0] == leaves[m] && !closes_no_cycle(e, p)
    &&& forall|p: Seq<i64>| is_leaf_path(e, p) && leaves.take(m).contains(p[0]) ==> closes_no_cycle(e, p)
    &&& forall|p: Seq<i64>| is_chain(e, p) && leaves.take(m).contains(p[0]) ==> seqs_of(chains).contains(p)
    &&& forall|j: int| 0 <= j < chains.len() ==> leaves.take(m + 1).contains((#[trigger] chains[j])@[0])
}

/// An id list among the first `n` of `v` is the one at some index below `n`.
proof fn lemma_taken_index(v: Seq<Vec<i64>>, n: int, q: Seq<i64>)
    requires
        0 <= n <= v.len(),
        seqs_of(v).take(n).contains(q),
    ensures
        exists|f: int| 0 <= f < n && v[f]@ == q,
{
    let f = choose|f: int| 0 <= f < seqs_of(v).take(n).len() && seqs_of(v).take(n)[f] == q;
    assert(v[f]@ == q);
}

fn push_id(p: &Vec<i64>, n: i64) -> (q: Vec<i64>)
    ensures
        q@ == p@.push(n),
{
    let mut q = p.clone();
    q.push(n);
    q
}

/// Walks the paths from one leaf blocker breadth first, level by level,
/// collecting the chains met on the way; stops as soon as an edge leads back
/// into the path being extended, with the chains found until then.
#[verifier::spinoff_prover]
#[verifier::rlimit(100)]
fn scan_leaf(e: &Vec<(i64, i64)>, leaf: i64) -> (r: (Vec<Vec<i64>>, bool))
    requires
        is_leaf(e@, leaf),
    ensures
        forall|j: int| 0 <= j < r.0@.len() ==> is_chain(e@, #[trigger] r.0@[j]@) && r.0@[j]@[0] == leaf,
        !r.1 ==> forall|p: Seq<i64>| is_chain(e@, p) && p[0] == leaf ==> seqs_of(r.0@).contains(p),
        !r.1 ==> forall|p: Seq<i64>| is_leaf_path(e@, p) && p[0] == leaf ==> closes_no_cycle(e@, p),
        r.1 ==> exists|p: Seq<i64>| is_leaf_path(e@, p) && p[0] == leaf && !closes_no_cycle(e@, p),
        e@.no_duplicates() ==> distinct_seqs(r.0@),
{
    let ghost eg = e@;
    let mut chains: Vec<Vec<i64>> = Vec::new();
    let mut frontier: Vec<Vec<i64>> = Vec::new();
    frontier.push(vec![leaf]);
    proof {
        let p0 = seq![leaf];
        assert(frontier@[0]@ =~= p0);
        assert(is_leaf_path(eg, p0));
        assert forall|p: Seq<i64>| is_leaf_path(eg, p) && p[0] == leaf && p.len() == 1 implies seqs_of(frontier@).contains(p) by {
            assert(p =~= p0);
            assert(seqs_of(frontier@)[0] == p0);
        }
    }
    let mut k: usize = 0;
    while frontier.len() > 0
        invariant
            eg == e@,
            is_leaf(eg, leaf),
            k <= 2 * eg.len(),
            forall|j: int| 0 <= j < frontier@.len() ==> is_leaf_path(eg, #[trigger] frontier@[j]@)
                && frontier@[j]@[0] == leaf && frontier@[j]@.len() == k + 1,
            forall|p: Seq<i64>| is_leaf_path(eg, p) && p[0] == leaf && p.len() == k + 1 ==> seqs_of(frontier@).contains(p),
            forall|j: int| 0 <= j < chains@.len() ==> is_chain(eg, #[trigger] chains@[j]@),
            forall|p: Seq<i64>| is_chain(eg, p) && p[0] == leaf && p.len() <= k
                ==> seqs_of(chains@).contains(p),
            forall|p: Seq<i64>| is_leaf_path(eg, p) && p[0] == leaf && p.len() <= k
                ==> closes_no_cycle(eg, p),
            eg.no_duplicates() ==> distinct_seqs(chains@),
            eg.no_duplicates() ==> distinct_seqs(frontier@),
            forall|j: int| 0 <= j < chains@.len() ==> ((#[trigger] chains@[j])@[0] == leaf && chains@[j]@.len() <= k),
        decreases 2 * eg.len() + 1 - k,
    {
        proof {
            lemma_leaf_path_bounded(eg, frontier@[0]@);
        }
        let mut next: Vec<Vec<i64>> = Vec::new();
        let mut fi: usize = 0;
        while fi < frontier.len()
            invariant
                eg == e@,
                is_leaf(eg, leaf),
                k + 1 <= 2 * eg.len(),
                fi <= frontier@.len(),
                forall|j: int| 0 <= j < frontier@.len() ==> is_leaf_path(eg, #[trigger] frontier@[j]@)
                    && frontier@[j]@[0] == leaf && frontier@[j]@.len() == k + 1,
                forall|p: Seq<i64>| is_leaf_path(eg, p) && p[0] == leaf && p.len() == k + 1 ==> seqs_of(frontier@).contains(p),
                forall|j: int| 0 <= j < next@.len() ==> is_leaf_path(eg, #[trigger] next@[j]@)
                    && next@[j]@[0] == leaf && next@[j]@.len() == k + 2,
                forall|p: Seq<i64>| is_leaf_path(eg, p) && p[0] == leaf && p.len() == k + 2
                    && seqs_of(frontier@).take(fi as int).contains(p.take(k + 1)) ==> seqs_of(next@).contains(p),
                forall|j: int| 0 <= j < chains@.len() ==> is_chain(eg, #[trigger] chains@[j]@),
                forall|p: Seq<i64>| is_chain(eg, p) && ((p[0] == leaf && p.len() <= k)
                    || seqs_of(frontier@).take(fi as int).contains(p)) ==> seqs_of(chains@).contains(p),
                forall|p: Seq<i64>| is_leaf_path(eg, p) && ((p[0] == leaf && p.len() <= k)
                    || seqs_of(frontier@).take(fi as int).contains(p)) ==> closes_no_cycle(eg, p),
                eg.no_duplicates() ==> distinct_seqs(chains@),
                eg.no_duplicates() ==> distinct_seqs(frontier@),
                eg.no_duplicates() ==> distinct_seqs(next@),
                forall|j: int| 0 <= j < chains@.len() ==> ((#[trigger] chains@[j])@[0] == leaf && (chains@[j]@.len() <= k || seqs_of(frontier@).take(fi as int).contains(chains@[j]@))),
                forall|j: int| 0 <= j < next@.len() ==> seqs_of(frontier@).take(fi as int).contains((#[trigger] next@[j])@.take(k + 1)),
            decreases frontier.len() - fi,
        {
            let path = &frontier[fi];
            let ghost pv = path@;
            assert(is_leaf_path(eg, pv) && pv[0] == leaf && pv.len() == k + 1);
            let last = path[path.len() - 1];
            assert(last == pv.last());
            proof {
                lemma_seqs_take(frontier@, fi as int);
            }
            if has_out_exec(e, last) {
                let mut ei: usize = 0;
                while ei < e.len()
                    invariant
                        eg == e@,
                        is_leaf(eg, leaf),
                        ei <= eg.len(),
                        is_leaf_path(eg, pv) && pv[0] == leaf && pv.len() == k + 1,
                        last == pv.last(),
                        path@ == pv,
                        has_out(eg, last),
                        forall|j: int| 0 <= j < next@.len() ==> is_leaf_path(eg, #[trigger] next@[j]@)
                            && next@[j]@[0] == leaf && next@[j]@.len() == k + 2,
                        forall|p: Seq<i64>| is_leaf_path(eg, p) && p[0] == leaf && p.len() == k + 2
                            && seqs_of(frontier@).take(fi as int).contains(p.take(k + 1)) ==> seqs_of(next@).contains(p),
                        forall|i: int| 0 <= i < ei && eg[i].0 == last ==> !pv.contains(#[trigger] eg[i].1)
                            && seqs_of(next@).contains(pv.push(eg[i].1)),
                        forall|j: int| 0 <= j < chains@.len() ==> is_chain(eg, #[trigger] chains@[j]@),
                        forall|p: Seq<i64>| is_chain(eg, p) && ((p[0] == leaf && p.len() <= k)
                            || seqs_of(frontier@).take(fi as int).contains(p)) ==> seqs_of(chains@).contains(p),
                        forall|p: Seq<i64>| is_leaf_path(eg, p) && ((p[0] == leaf && p.len() <= k)
                            || seqs_of(frontier@).take(fi as int).contains(p)) ==> closes_no_cycle(eg, p),
                        fi < frontier@.len(),
                        pv == frontier@[fi as int]@,
                        eg.no_duplicates() ==> distinct_seqs(chains@),
                        eg.no_duplicates() ==> distinct_seqs(frontier@),
                        eg.no_duplicates() ==> distinct_seqs(next@),
                        forall|j: int| 0 <= j < chains@.len() ==> ((#[trigger] chains@[j])@[0] == leaf && (chains@[j]@.len() <= k || seqs_of(frontier@).take(fi as int).contains(chains@[j]@))),
                        forall|j: int| 0 <= j < next@.len() ==> seqs_of(frontier@).take(fi as int).contains((#[trigger] next@[j])@.take(k + 1))
                            || (next@[j]@.take(k + 1) == pv && exists|i: int| 0 <= i < ei && eg[i] == (last, next@[j]@[k + 1])),
                    decreases e.len() - ei,
                {
                    if e[ei].0 == last {
                        let n = e[ei].1;
                        assert(eg[ei as int] == (last, n));
                        if contains_id(path, n) {
                            proof {
                                assert(is_edge(eg, pv.last(), n));
                                assert(pv.contains(n));
                                assert(!closes_no_cycle(eg, pv));
                            }
                            return (chains, true);
                        }
                        let ext = push_id(path, n);
                        let ghost old_next = next@;
                        proof {
                            assert(is_edge(eg, pv.last(), n));
                            lemma_extend_leaf_path(eg, pv, n);
                            lemma_seqs_push(next@, ext);
                            if eg.no_duplicates() {
                                assert forall|j: int| 0 <= j < old_next.len() implies (#[trigger] old_next[j])@ != ext@ by {
                                    if old_next[j]@ == ext@ {
                                        assert(old_next[j]@.take(k + 1) =~= pv);
                                        assert(old_next[j]@[k + 1] == n);
                                        if seqs_of(frontier@).take(fi as int).contains(pv) {
                                            lemma_taken_index(frontier@, fi as int, pv);
                                            let f = choose|f: int| 0 <= f < fi && frontier@[f]@ == pv;
                                            assert(frontier@[f]@ == frontier@[fi as int]@);
                                        } else {
                                            let i = choose|i: int| 0 <= i < ei && eg[i] == (last, old_next[j]@[k + 1]);
                                            assert(eg[i] == eg[ei as int]);
                                        }
                                    }
                                }
                                lemma_distinct_push(old_next, ext);
                            }
                        }
                        next.push(ext);
                        proof {
                            assert(seqs_of(next@).last() == pv.push(n));
                            assert(ext@.take(k + 1) =~= pv);
                            assert(ext@[k + 1] == n);
                            assert forall|j: int| 0 <= j < next@.len() implies seqs_of(frontier@).take(fi as int).contains((#[trigger] next@[j])@.take(k + 1))
                                || (next@[j]@.take(k + 1) == pv && exists|i: int| 0 <= i < ei + 1 && eg[i] == (last, next@[j]@[k + 1])) by {
                                if j < old_next.len() {
                                    assert(next@[j] == old_next[j]);
                                } else {
                                    assert(next@[j] == ext);
                                    assert(eg[ei as int] == (last, n));
                                }
                            }
                        }
                    }
                    ei = ei + 1;
                }
                proof {
                    assert(seqs_of(frontier@).take(fi + 1) == seqs_of(frontier@).take(fi as int).push(pv));
                    assert forall|j: int| 0 <= j < next@.len() implies seqs_of(frontier@).take(fi + 1).contains((#[trigger] next@[j])@.take(k + 1)) by {
                        if seqs_of(frontier@).take(fi as int).contains(next@[j]@.take(k + 1)) {
                            let f = choose|f: int| 0 <= f < seqs_of(frontier@).take(fi as int).len() && seqs_of(frontier@).take(fi as int)[f] == next@[j]@.take(k + 1);
                            assert(seqs_of(frontier@).take(fi + 1)[f] == next@[j]@.take(k + 1));
                        } else {
                            assert(seqs_of(frontier@).take(fi + 1)[fi as int] == pv);
                        }
                    }
                    assert forall|j: int| 0 <= j < chains@.len() implies ((#[trigger] chains@[j])@[0] == leaf && (chains@[j]@.len() <= k || seqs_of(frontier@).take(fi + 1).contains(chains@[j]@))) by {
                        if seqs_of(frontier@).take(fi as int).contains(chains@[j]@) {
                            let f = choose|f: int| 0 <= f < seqs_of(frontier@).take(fi as int).len() && seqs_of(frontier@).take(fi as int)[f] == chains@[j]@;
                            assert(seqs_of(frontier@).take(fi + 1)[f] == chains@[j]@);
                        }
                    }
                    assert forall|n: i64| is_edge(eg, pv.last(), n) implies !pv.contains(n) by {
                        let i = choose|i: int| 0 <= i < eg.len() && eg[i] == (pv.last(), n);
                        assert(eg[i].0 == last);
                    }
                    assert forall|p: Seq<i64>| is_leaf_path(eg, p) && p[0] == leaf && p.len() == k + 2
                        && seqs_of(frontier@).take(fi + 1).contains(p.take(k + 1)) implies seqs_of(next@).contains(p) by {
                        if !seqs_of(frontier@).take(fi as int).contains(p.take(k + 1)) {
                            assert(p.take(k + 1) == pv);
                            assert(is_edge(eg, p[k as int], p[k + 1]));
                            let i = choose|i: int| 0 <= i < eg.len() && eg[i] == (p[k as int], p[k + 1]);
                            assert(p[k as int] == pv.last());
                            assert(p =~= pv.push(p[k + 1]));
                            assert(eg[i].0 == last);
                        }
                    }
                    assert forall|p: Seq<i64>| is_chain(eg, p) && ((p[0] == leaf && p.len() <= k)
                        || seqs_of(frontier@).take(fi + 1).contains(p)) implies seqs_of(chains@).contains(p) by {
                        if !((p[0] == leaf && p.len() <= k)
                            || seqs_of(frontier@).take(fi as int).contains(p)) {
                            assert(p == pv);
                        }
                    }
                    assert forall|p: Seq<i64>| is_leaf_path(eg, p) && ((p[0] == leaf && p.len() <= k)
                        || seqs_of(frontier@).take(fi + 1).contains(p)) implies closes_no_cycle(eg, p) by {
                        if !((p[0] == leaf && p.len() <= k)
                            || seqs_of(frontier@).take(fi as int).contains(p)) {
                            assert(p == pv);
                        }
                    }
                }
            } else {
                let ghost before = chains@;
                let cl = path.clone();
                proof {
                    if eg.no_duplicates() {
                        assert forall|j: int| 0 <= j < before.len() implies (#[trigger] before[j])@ != cl@ by {
                            if before[j]@ == cl@ {
                                assert(before[j]@[0] == leaf);
                                if seqs_of(frontier@).take(fi as int).contains(pv) {
                                    lemma_taken_index(frontier@, fi as int, pv);
                                    let f = choose|f: int| 0 <= f < fi && frontier@[f]@ == pv;
                                    assert(frontier@[f]@ == frontier@[fi as int]@);
                                }
                            }
                        }
                        lemma_distinct_push(before, cl);
                    }
                }
                chains.push(cl);
                proof {
                    assert(seqs_of(frontier@).take(fi + 1) == seqs_of(frontier@).take(fi as int).push(pv));
                    assert forall|j: int| 0 <= j < chains@.len() implies ((#[trigger] chains@[j])@[0] == leaf && (chains@[j]@.len() <= k || seqs_of(frontier@).take(fi + 1).contains(chains@[j]@))) by {
                        if j < before.len() {
                            assert(chains@[j] == before[j]);
                            if seqs_of(frontier@).take(fi as int).contains(chains@[j]@) {
                                let f = choose|f: int| 0 <= f < seqs_of(frontier@).take(fi as int).len() && seqs_of(frontier@).take(fi as int)[f] == chains@[j]@;
                                assert(seqs_of(frontier@).take(fi + 1)[f] == chains@[j]@);
                            }
                        } else {
                            assert(chains@[j]@ == pv);
                            assert(seqs_of(frontier@).take(fi + 1)[fi as int] == pv);
                        }
                    }
                    assert forall|j: int| 0 <= j < next@.len() implies seqs_of(frontier@).take(fi + 1).contains((#[trigger] next@[j])@.take(k + 1)) by {
                        let f = choose|f: int| 0 <= f < seqs_of(frontier@).take(fi as int).len() && seqs_of(frontier@).take(fi as int)[f] == next@[j]@.take(k + 1);
                        assert(seqs_of(frontier@).take(fi + 1)[f] == next@[j]@.take(k + 1));
                    }
                    lemma_seqs_push(before, chains@.last());
                    assert(is_chain(eg, pv));
                    assert(seqs_of(chains@).last() == pv);
                    assert forall|n: i64| is_edge(eg, pv.last(), n) implies !pv.contains(n) by {
                        let i = choose|i: int| 0 <= i < eg.len() && eg[i] == (pv.last(), n);
                        assert(eg[i].0 == pv.last());
                    }
                    assert forall|p: Seq<i64>| is_leaf_path(eg, p) && p[0] == leaf && p.len() == k + 2
                        && seqs_of(frontier@).take(fi + 1).contains(p.take(k + 1)) implies seqs_of(next@).contains(p) by {
                        if !seqs_of(frontier@).take(fi as int).contains(p.take(k + 1)) {
                            assert(p.take(k + 1) == pv);
                            assert(is_edge(eg, p[k as int], p[k + 1]));
                            let i = choose|i: int| 0 <= i < eg.len() && eg[i] == (p[k as int], p[k + 1]);
                            assert(p[k as int] == pv.last());
                            assert(has_out(eg, pv.last()));
                        }
                    }
                    assert forall|p: Seq<i64>| is_chain(eg, p) && ((p[0] == leaf && p.len() <= k)
                        || seqs_of(frontier@).take(fi + 1).contains(p)) implies seqs_of(chains@).contains(p) by {
                        if p == pv {
                            assert(seqs_of(chains@)[chains@.len() - 1] == pv);
                        } else {
                            assert(seqs_of(before).contains(p));
                            let j = choose|j: int| 0 <= j < seqs_of(before).len() && seqs_of(before)[j] == p;
                            assert(seqs_of(chains@)[j] == p);
                        }
                    }
                }
            }
            fi = fi + 1;
        }
        proof {
            assert(seqs_of(frontier@).take(frontier@.len() as int) =~= seqs_of(frontier@));
            assert forall|j: int| 0 <= j < chains@.len() implies ((#[trigger] chains@[j])@[0] == leaf && chains@[j]@.len() <= k + 1) by {
                if chains@[j]@.len() > k {
                    lemma_taken_index(frontier@, frontier@.len() as int, chains@[j]@);
                }
            }
            assert forall|p: Seq<i64>| is_leaf_path(eg, p) && p[0] == leaf && p.len() == k + 2 implies seqs_of(next@).contains(p) by {
                lemma_prefix_leaf_path(eg, p, k + 1);
                assert(seqs_of(frontier@).contains(p.take(k + 1)));
            }
            assert forall|p: Seq<i64>| is_chain(eg, p) && p[0] == leaf && p.len() <= k + 1
                implies seqs_of(chains@).contains(p) by {
                if p.len() == k + 1 {
                    assert(seqs_of(frontier@).contains(p));
                }
            }
            assert forall|p: Seq<i64>| is_leaf_path(eg, p) && p[0] == leaf && p.len() <= k + 1
                implies closes_no_cycle(eg, p) by {
                if p.len() == k + 1 {
                    assert(seqs_of(frontier@).contains(p));
                }
            }
        }
        frontier = next;
        k = k + 1;
    }
    proof {
        assert forall|p: Seq<i64>| is_leaf_path(eg, p) && p[0] == leaf implies p.len() <= k by {
            if p.len() > k {
                lemma_prefix_leaf_path(eg, p, k + 1);
                assert(seqs_of(frontier@).contains(p.take(k + 1)));
            }
        }
    }
    (chains, false)
}

proof fn lemma_seqs_append(a: Seq<Vec<i64>>, b: Seq<Vec<i64>>)
    ensures
        forall|q: Seq<i64>| seqs_of(a).contains(q) ==> seqs_of(a + b).contains(q),
        forall|q: Seq<i64>| seqs_of(b).contains(q) ==> seqs_of(a + b).contains(q),
{
    assert forall|q: Seq<i64>| seqs_of(a).contains(q) implies seqs_of(a + b).contains(q) by {
        let j = choose|j: int| 0 <= j < seqs_of(a).len() && seqs_of(a)[j] == q;
        assert(seqs_of(a + b)[j] == q);
    }
    assert forall|q: Seq<i64>| seqs_of(b).contains(q) implies seqs_of(a + b).contains(q) by {
        let j = choose|j: int| 0 <= j < seqs_of(b).len() && seqs_of(b)[j] == q;
        assert(seqs_of(a + b)[j + a.len()] == q);
    }
}

/// Appending the chains walked from the `i`-th leaf to those of the earlier
/// leaves keeps what the walk states of them.
#[verifier::spinoff_prover]
proof fn lemma_append_leaf(
    e: Seq<(i64, i64)>,
    leaves: Seq<i64>,
    i: int,
    before: Seq<Vec<i64>>,
    added: Seq<Vec<i64>>,
    cycle: bool,
)
    requires
        0 <= i < leaves.len(),
        forall|j: int| 0 <= j < before.len() ==> is_chain(e, #[trigger] before[j]@)
            && leaves.take(i).contains(before[j]@[0]),
        forall|p: Seq<i64>| is_chain(e, p) && leaves.take(i).contains(p[0]) ==> seqs_of(before).contains(p),
        forall|p: Seq<i64>| is_leaf_path(e, p) && leaves.take(i).contains(p[0]) ==> closes_no_cycle(e, p),
        leaves.no_duplicates() && e.no_duplicates() ==> distinct_seqs(before),
        strictly_increasing(leaves) ==> chains_by_leaf(before),
        forall|j: int| 0 <= j < added.len() ==> is_chain(e, #[trigger] added[j]@) && added[j]@[0] == leaves[i],
        !cycle ==> forall|p: Seq<i64>| is_chain(e, p) && p[0] == leaves[i] ==> seqs_of(added).contains(p),
        !cycle ==> forall|p: Seq<i64>| is_leaf_path(e, p) && p[0] == leaves[i] ==> closes_no_cycle(e, p),
        cycle ==> exists|p: Seq<i64>| is_leaf_path(e, p) && p[0] == leaves[i] && !closes_no_cycle(e, p),
        e.no_duplicates() ==> distinct_seqs(added),
    ensures
        forall|j: int| 0 <= j < (before + added).len() ==> is_chain(e, #[trigger] (before + added)[j]@)
            && leaves.take(i + 1).contains((before + added)[j]@[0]),
        !cycle ==> forall|p: Seq<i64>| is_chain(e, p) && leaves.take(i + 1).contains(p[0])
            ==> seqs_of(before + added).contains(p),
        !cycle ==> forall|p: Seq<i64>| is_leaf_path(e, p) && leaves.take(i + 1).contains(p[0])
            ==> closes_no_cycle(e, p),
        leaves.no_duplicates() && e.no_duplicates() ==> distinct_seqs(before + added),
        strictly_increasing(leaves) ==> chains_by_leaf(before + added),
        cycle ==> stops_at_leaf(e, leaves, i, before + added),
{
    let all = before + added;
    let bl = before.len() as int;
    let t = leaves.take(i);
    let t1 = leaves.take(i + 1);
    assert forall|x: i64| t.contains(x) implies t1.contains(x) by {
        let a = choose|a: int| 0 <= a < t.len() && t[a] == x;
        assert(t1[a] == x);
    }
    assert(t1[i] == leaves[i]);
    lemma_seqs_append(before, added);
    assert forall|j: int| 0 <= j < all.len() implies is_chain(e, #[trigger] all[j]@) && t1.contains(all[j]@[0]) by {
        if j < bl {
            assert(all[j] == before[j]);
        } else {
            assert(all[j] == added[j - bl]);
        }
    }
    if leaves.no_duplicates() && e.no_duplicates() {
        assert forall|a: int, b: int| 0 <= a < b < all.len() implies all[a]@ != all[b]@ by {
            if b < bl {
                assert(all[a] == before[a] && all[b] == before[b]);
            } else if a >= bl {
                assert(all[a] == added[a - bl] && all[b] == added[b - bl]);
            } else {
                assert(all[a] == before[a] && all[b] == added[b - bl]);
                if all[a]@ == all[b]@ {
                    let x = choose|x: int| 0 <= x < t.len() && t[x] == before[a]@[0];
                    assert(leaves[x] == leaves[i]);
                }
            }
        }
    }
    if strictly_increasing(leaves) {
        assert forall|a: int, b: int| 0 <= a < b < all.len() implies all[a]@[0] <= all[b]@[0] by {
            if b < bl {
                assert(all[a] == before[a] && all[b] == before[b]);
            } else if a >= bl {
                assert(all[a] == added[a - bl] && all[b] == added[b - bl]);
            } else {
                assert(all[a] == before[a] && all[b] == added[b - bl]);
                let x = choose|x: int| 0 <= x < t.len() && t[x] == before[a]@[0];
                assert(leaves[x] < leaves[i]);
            }
        }
    }
    if !cycle {
        assert forall|p: Seq<i64>| is_chain(e, p) && t1.contains(p[0]) implies seqs_of(all).contains(p) by {
            let a = choose|a: int| 0 <= a < t1.len() && t1[a] == p[0];
            if a < i {
                assert(t[a] == p[0]);
            }
        }
        assert forall|p: Seq<i64>| is_leaf_path(e, p) && t1.contains(p[0]) implies closes_no_cycle(e, p) by {
            let a = choose|a: int| 0 <= a < t1.len() && t1[a] == p[0];
            if a < i {
                assert(t[a] == p[0]);
            }
        }
    }
}

/// Walks the blocking chains from each leaf blocker in turn (see
/// `scan_leaf`); stops at the first leaf whose walk meets a cycle.
///
/// Every chain returned is a chain. When no cycle is reported, every chain
/// is returned. A cycle is reported exactly when one can be reached from a
/// leaf blocker, and then the walk stopped at some leaf: every chain from an
/// earlier leaf is returned, and none from a later one. The chains come leaf
/// by leaf, in the order of `leaves`. With distinct leaves and distinct
/// edges no chain is returned twice.
pub fn scan_chains(e: &Vec<(i64, i64)>, leaves: &Vec<i64>) -> (r: (Vec<Vec<i64>>, bool))
    requires
        forall|x: i64| leaves@.contains(x) <==> is_leaf(e@, x),
    ensures
        forall|j: int| 0 <= j < r.0@.len() ==> is_chain(e@, #[trigger] r.0@[j]@),
        !r.1 ==> forall|p: Seq<i64>| is_chain(e@, p) ==> seqs_of(r.0@).contains(p),
        r.1 <==> cycle_reachable(e@),
        leaves@.no_duplicates() && e@.no_duplicates() ==> distinct_seqs(r.0@),
        strictly_increasing(leaves@) ==> chains_by_leaf(r.0@),
        r.1 ==> exists|m: int| #[trigger] stops_at_leaf(e@, leaves@, m, r.0@),
{
    let mut chains: Vec<Vec<i64>> = Vec::new();
    let mut li: usize = 0;
    while li < leaves.len()
        invariant
            li <= leaves.len(),
            forall|x: i64| leaves@.contains(x) <==> is_leaf(e@, x),
            forall|j: int| 0 <= j < chains@.len() ==> is_chain(e@, #[trigger] chains@[j]@)
                && leaves@.take(li as int).contains(chains@[j]@[0]),
            forall|p: Seq<i64>| is_chain(e@, p) && leaves@.take(li as int).contains(p[0]) ==> seqs_of(chains@).contains(p),
            forall|p: Seq<i64>| is_leaf_path(e@, p) && leaves@.take(li as int).contains(p[0]) ==> closes_no_cycle(e@, p),
            leaves@.no_duplicates() && e@.no_duplicates() ==> distinct_seqs(chains@),
            strictly_increasing(leaves@) ==> chains_by_leaf(chains@),
        decreases leaves.len() - li,
    {
        let leaf = leaves[li];
        assert(leaves@.contains(leaf));
        let (mut found, cycle) = scan_leaf(e, leaf);
        let ghost before = chains@;
        let ghost added = found@;
        chains.append(&mut found);
        proof {
            lemma_append_leaf(e@, leaves@, li as int, before, added, cycle);
        }
        if cycle {
            let res = (chains, true);
            assert(exists|m: int| #[trigger] stops_at_leaf(e@, leaves@, m, res.0@)) by {
                assert(stops_at_leaf(e@, leaves@, li as int, res.0@));
            }
            return res;
        }
        li = li + 1;
    }
    proof {
        assert(leaves@.take(leaves.len() as int) =~= leaves@);
        assert forall|p: Seq<i64>| is_leaf_path(e@, p) implies closes_no_cycle(e@, p) by {
            assert(leaves@.contains(p[0]));
        }
        assert forall|p: Seq<i64>| is_chain(e@, p) implies seqs_of(chains@).contains(p) by {
            assert(leaves@.contains(p[0]));
        }
    }
    (chains, false)
}

/// The blocking graph as shown to users: chains, leaf blockers, whether a
/// cycle was met, and (around one issue) the statuses of the issues shown.
pub struct BlockingGraph {
    pub chains: Vec<Vec<i64>>,
    pub leaf_blockers: Vec<i64>,
    pub has_cycle: bool,
    pub node_statuses: Vec<(i64, IssueStatus)>,
}

/// What a blocking graph states about edges `e`: its leaf blockers are those
/// of `e` in increasing order, its chains are chains of `e` listed leaf
/// blocker by leaf blocker, all of them when no cycle is reported, none twice
/// when no edge is given twice, and a cycle is reported exactly when one is
/// reachable from a leaf blocker. When one is, the walk stopped at the first
/// leaf blocker from which it meets the cycle: every chain from an earlier
/// leaf blocker is listed, and none from a later one.
pub open spec fn describes(g: BlockingGraph, e: Seq<(i64, i64)>) -> bool {
    &&& strictly_increasing(g.leaf_blockers@)
    &&& forall|x: i64| g.leaf_blockers@.contains(x) <==> is_leaf(e, x)
    &&& forall|j: int| 0 <= j < g.chains@.len() ==> is_chain(e, #[trigger] g.chains@[j]@)
    &&& chains_by_leaf(g.chains@)
    &&& !g.has_cycle ==> forall|p: Seq<i64>| is_chain(e, p) ==> seqs_of(g.chains@).contains(p)
    &&& g.has_cycle <==> cycle_reachable(e)
    &&& g.has_cycle ==> exists|m: int| #[trigger] stops_at_leaf(e, g.leaf_blockers@, m, g.chains@)
    &&& e.no_duplicates() ==> distinct_seqs(g.chains@)
}

fn chain_graph(e: &Vec<(i64, i64)>) -> (g: BlockingGraph)
    ensures
        describes(g, e@),
        g.node_statuses@.len() == 0,
{
    let leaves = leaf_blockers(e);
    assert(leaves@.no_duplicates()) by {
        assert forall|a: int, b: int| 0 <= a < leaves@.len() && 0 <= b < leaves@.len() && a != b implies leaves@[a] != leaves@[b] by {
            if a < b {
                assert(leaves@[a] < leaves@[b]);
            } else {
                assert(leaves@[b] < leaves@[a]);
            }
        }
    }
    let (chains, has_cycle) = scan_chains(e, &leaves);
    BlockingGraph { chains, leaf_blockers: leaves, has_cycle, node_statuses: Vec::new() }
}

/// The blocking graph of a project, from its `blocks` edges between open
/// issues (the application selects those).
pub fn blocked_issues_graph(edges: &Vec<(i64, i64)>) -> (g: BlockingGraph)
    ensures
        describes(g, edges@),
        g.node_statuses@.len() == 0,
{
    chain_graph(edges)
}

/// A `blocks` link with the statuses of both ends.
#[derive(Clone, Copy, Debug)]
pub struct BlockLink {
    pub source: i64,
    pub target: i64,
    pub source_status: IssueStatus,
    pub target_status: IssueStatus,
}

/// The status recorded for `id`: that of the last link naming it (a link's
/// target counts after its source).
pub open spec fn recorded_status(links: Seq<BlockLink>, id: i64) -> Option<IssueStatus>
    decreases links.len(),
{
    if links.len() == 0 {
        None
    } else if links.last().target == id {
        Some(links.last().target_status)
    } else if links.last().source == id {
        Some(links.last().source_status)
    } else {
        recorded_status(links.drop_last(), id)
    }
}

/// An issue whose recorded status is finished or cancelled.
pub open spec fn resolved(links: Seq<BlockLink>, id: i64) -> bool {
    match recorded_status(links, id) {
        Some(s) => s is Finished || s is Cancelled,
        None => false,
    }
}

/// `u` and `v` are joined by a link, in either direction.
pub open spec fn linked(links: Seq<BlockLink>, u: i64, v: i64) -> bool {
    exists|i: int| 0 <= i < links.len() && ((links[i].source == u && links[i].target == v)
        || (links[i].target == u && links[i].source == v))
}

/// A way from `start` along links, in either direction, that passes through
/// no resolved issue (its ends may be resolved).
pub open spec fn is_link_walk(links: Seq<BlockLink>, start: i64, p: Seq<i64>) -> bool {
    &&& p.len() >= 1
    &&& p[0] == start
    &&& forall|j: int| 0 <= j < p.len() - 1 ==> linked(links, #[trigger] p[j], p[j + 1])
    &&& forall|j: int| 0 < j < p.len() - 1 ==> !resolved(links, #[trigger] p[j])
}

/// The issues around `start`: those reached from it along links without
/// passing through a resolved issue.
pub open spec fn in_component(links: Seq<BlockLink>, start: i64, v: i64) -> bool {
    exists|p: Seq<i64>| is_link_walk(links, start, p) && p.last() == v
}

/// An issue is resolved exactly when its recorded status is finished or
/// cancelled.
pub proof fn law_closed_issues_are_resolved(links: Seq<BlockLink>, id: i64)
    ensures
        resolved(links, id) <==> (recorded_status(links, id) == Some(IssueStatus::Finished)
            || recorded_status(links, id) == Some(IssueStatus::Cancelled)),
{
}

/// The graph around an issue is never walked through a finished or
/// cancelled issue: on every way from the start, no issue between the ends
/// has finished or cancelled as its recorded status.
pub proof fn law_walks_stop_at_closed_issues(links: Seq<BlockLink>, start: i64, p: Seq<i64>, j: int)
    requires
        is_link_walk(links, start, p),
        0 < j < p.len() - 1,
    ensures
        recorded_status(links, p[j]) != Some(IssueStatus::Finished),
        recorded_status(links, p[j]) != Some(IssueStatus::Cancelled),
{
    law_closed_issues_are_resolved(links, p[j]);
}

/// The pairs `(source, target)` of the links.
pub open spec fn link_pairs(links: Seq<BlockLink>) -> Seq<(i64, i64)> {
    links.map_values(|l: BlockLink| (l.source, l.target))
}

/// Whether the graph is expanded from `u`: the start, or any open issue.
pub open spec fn expands(links: Seq<BlockLink>, start: i64, u: i64) -> bool {
    u == start || !resolved(links, u)
}

fn recorded_status_exec(links: &Vec<BlockLink>, id: i64) -> (r: Option<IssueStatus>)
    ensures
        r == recorded_status(links@, id),
{
    let mut i: usize = links.len();
    assert(links@.take(i as int) =~= links@);
    while i > 0
        invariant
            i <= links@.len(),
            recorded_status(links@.take(i as int), id) == recorded_status(links@, id),
        decreases i,
    {
        let l = links[i - 1];
        assert(links@.take(i as int).last() == l);
        assert(links@.take(i as int).drop_last() =~= links@.take(i - 1));
        if l.target == id {
            return Some(l.target_status);
        }
        if l.source == id {
            return Some(l.source_status);
        }
        i = i - 1;
    }
    None
}

fn resolved_exec(links: &Vec<BlockLink>, id: i64) -> (r: bool)
    ensures
        r == resolved(links@, id),
{
    match recorded_status_exec(links, id) {
        Some(s) => matches!(s, IssueStatus::Finished) || matches!(s, IssueStatus::Cancelled),
        None => false,
    }
}

proof fn lemma_link_nodes_bounded(links: Seq<BlockLink>, start: i64, c: Seq<i64>)
    requires
        c.no_duplicates(),
        forall|i: int| 0 <= i < c.len() ==> #[trigger] c[i] == start || node_set(link_pairs(links)).contains(c[i]),
    ensures
        c.len() <= 2 * links.len() + 1,
{
    let e = link_pairs(links);
    lemma_node_set_bounded(e);
    let s = node_set(e).insert(start);
    assert forall|i: int| 0 <= i < c.len() implies s.contains(#[trigger] c[i]) by {}
    lemma_distinct_within_set(c, s);
}

proof fn lemma_linked_in_nodes(links: Seq<BlockLink>, u: i64, v: i64)
    requires
        linked(links, u, v),
    ensures
        node_set(link_pairs(links)).contains(v),
{
    let e = link_pairs(links);
    let a = e.map_values(|x: (i64, i64)| x.0);
    let b = e.map_values(|x: (i64, i64)| x.1);
    let i = choose|i: int| 0 <= i < links.len() && ((links[i].source == u && links[i].target == v)
        || (links[i].target == u && links[i].source == v));
    if links[i].target == v {
        assert(b[i] == v);
        assert(b.contains(v));
    } else {
        assert(a[i] == v);
        assert(a.contains(v));
    }
}

/// The issues around `start`, each once.
pub fn component(links: &Vec<BlockLink>, start: i64) -> (c: Vec<i64>)
    ensures
        c@.no_duplicates(),
        forall|v: i64| c@.contains(v) <==> in_component(links@, start, v),
{
    let ghost lg = links@;
    let mut connected: Vec<i64> = Vec::new();
    let mut queue: Vec<i64> = Vec::new();
    connected.push(start);
    queue.push(start);
    proof {
        assert(is_link_walk(lg, start, seq![start]));
        assert(connected@[0] == start);
        assert forall|v: i64| connected@.contains(v) implies in_component(lg, start, v) by {
            assert(connected@ =~= seq![start]);
            assert(v == start);
            assert(seq![start].last() == start);
        }
    }
    let mut head: usize = 0;
    while head < queue.len()
        invariant
            lg == links@,
            connected@.no_duplicates(),
            connected@.contains(start),
            head <= queue@.len(),
            queue@.len() <= connected@.len(),
            connected@.len() <= 2 * lg.len() + 1,
            forall|i: int| 0 <= i < connected@.len() ==> #[trigger] connected@[i] == start
                || node_set(link_pairs(lg)).contains(connected@[i]),
            forall|v: i64| connected@.contains(v) ==> in_component(lg, start, v),
            forall|v: i64| connected@.contains(v) && expands(lg, start, v) ==> queue@.contains(v),
            forall|i: int| 0 <= i < queue@.len() ==> connected@.contains(#[trigger] queue@[i]) && expands(lg, start, queue@[i]),
            forall|i: int, v: i64| 0 <= i < head && #[trigger] linked(lg, queue@[i], v) ==> connected@.contains(v),
        decreases 2 * lg.len() + 1 - head,
    {
        let cur = queue[head];
        let mut li: usize = 0;
        while li < links.len()
            invariant
                lg == links@,
                cur == queue@[head as int],
                head < queue@.len(),
                connected@.no_duplicates(),
                connected@.contains(start),
                connected@.contains(cur),
                expands(lg, start, cur),
                queue@.len() <= connected@.len(),
                forall|i: int| 0 <= i < connected@.len() ==> #[trigger] connected@[i] == start
                    || node_set(link_pairs(lg)).contains(connected@[i]),
                forall|v: i64| connected@.contains(v) ==> in_component(lg, start, v),
                forall|v: i64| connected@.contains(v) && expands(lg, start, v) ==> queue@.contains(v),
                forall|i: int| 0 <= i < queue@.len() ==> connected@.contains(#[trigger] queue@[i]) && expands(lg, start, queue@[i]),
                forall|i: int, v: i64| 0 <= i < head && #[trigger] linked(lg, queue@[i], v) ==> connected@.contains(v),
                forall|k: int| 0 <= k < li ==> (#[trigger] lg[k].source == cur ==> connected@.contains(lg[k].target))
                    && (lg[k].target == cur ==> connected@.contains(lg[k].source)),
            decreases links.len() - li,
        {
            let l = links[li];
            let mut round: usize = 0;
            while round < 2
                invariant
                    lg == links@,
                    li < lg.len(),
                    l == lg[li as int],
                    cur == queue@[head as int],
                    head < queue@.len(),
                    connected@.no_duplicates(),
                    connected@.contains(start),
                    connected@.contains(cur),
                    expands(lg, start, cur),
                    queue@.len() <= connected@.len(),
                    forall|i: int| 0 <= i < connected@.len() ==> #[trigger] connected@[i] == start
                        || node_set(link_pairs(lg)).contains(connected@[i]),
                    forall|v: i64| connected@.contains(v) ==> in_component(lg, start, v),
                    forall|v: i64| connected@.contains(v) && expands(lg, start, v) ==> queue@.contains(v),
                    forall|i: int| 0 <= i < queue@.len() ==> connected@.contains(#[trigger] queue@[i]) && expands(lg, start, queue@[i]),
                    forall|i: int, v: i64| 0 <= i < head && #[trigger] linked(lg, queue@[i], v) ==> connected@.contains(v),
                    forall|k: int| 0 <= k < li ==> (#[trigger] lg[k].source == cur ==> connected@.contains(lg[k].target))
                        && (lg[k].target == cur ==> connected@.contains(lg[k].source)),
                    round >= 1 ==> (l.source == cur ==> connected@.contains(l.target)),
                    round >= 2 ==> (l.target == cur ==> connected@.contains(l.source)),
                    round <= 2,
                decreases 2 - round,
            {
                let (from, to) = if round == 0 { (l.source, l.target) } else { (l.target, l.source) };
                if from == cur && !contains_id(&connected, to) {
                    proof {
                        assert(linked(lg, cur, to));
                        lemma_linked_in_nodes(lg, cur, to);
                        let w = choose|p: Seq<i64>| is_link_walk(lg, start, p) && p.last() == cur;
                        let nw = if cur == start { seq![start, to] } else { w.push(to) };
                        assert(is_link_walk(lg, start, nw)) by {
                            if cur == start {
                                assert(nw[0] == start && nw[1] == to);
                            } else {
                                assert forall|j: int| 0 <= j < nw.len() - 1 implies linked(lg, #[trigger] nw[j], nw[j + 1]) by {
                                    if j < w.len() - 1 {
                                        assert(nw[j] == w[j] && nw[j + 1] == w[j + 1]);
                                    } else {
                                        assert(nw[j] == cur && nw[j + 1] == to);
                                    }
                                }
                                assert forall|j: int| 0 < j < nw.len() - 1 implies !resolved(lg, #[trigger] nw[j]) by {
                                    if j < w.len() - 1 {
                                        assert(nw[j] == w[j]);
                                    } else {
                                        assert(nw[j] == cur);
                                    }
                                }
                            }
                        }
                        assert(nw.last() == to);
                        let c0 = connected@;
                        assert forall|i: int| 0 <= i < c0.push(to).len() implies #[trigger] c0.push(to)[i] == start
                            || node_set(link_pairs(lg)).contains(c0.push(to)[i]) by {
                            if i < c0.len() {
                                assert(c0.push(to)[i] == c0[i]);
                            }
                        }
                        assert(c0.push(to).no_duplicates()) by {
                            assert forall|i: int, j: int| 0 <= i < c0.push(to).len() && 0 <= j < c0.push(to).len() && i != j
                                implies c0.push(to)[i] != c0.push(to)[j] by {
                                if i == c0.len() && j < c0.len() {
                                    assert(c0[j] != to);
                                } else if j == c0.len() && i < c0.len() {
                                    assert(c0[i] != to);
                                }
                            }
                        }
                        lemma_link_nodes_bounded(lg, start, c0.push(to));
                    }
                    let is_res = resolved_exec(links, to);
                    let ghost c_before = connected@;
                    let ghost q_before = queue@;
                    connected.push(to);
                    if !is_res {
                        queue.push(to);
                    }
                    proof {
                        assert forall|v: i64| c_before.contains(v) implies connected@.contains(v) by {
                            let i = choose|i: int| 0 <= i < c_before.len() && c_before[i] == v;
                            assert(connected@[i] == v);
                        }
                        assert forall|v: i64| connected@.contains(v) implies in_component(lg, start, v) by {
                            if v != to {
                                assert(c_before.contains(v));
                            }
                        }
                        assert forall|v: i64| connected@.contains(v) && expands(lg, start, v) implies queue@.contains(v) by {
                            if v == to {
                                assert(queue@[queue@.len() - 1] == to);
                            } else {
                                assert(c_before.contains(v));
                                assert(q_before.contains(v));
                                let i = choose|i: int| 0 <= i < q_before.len() && q_before[i] == v;
                                assert(queue@[i] == v);
                            }
                        }
                        assert forall|i: int| 0 <= i < queue@.len() implies connected@.contains(#[trigger] queue@[i]) && expands(lg, start, queue@[i]) by {
                            if i < q_before.len() {
                                assert(queue@[i] == q_before[i]);
                                assert(c_before.contains(q_before[i]));
                                assert(expands(lg, start, q_before[i]));
                            } else {
                                assert(!is_res);
                                assert(queue@[i] == to);
                                assert(connected@[connected@.len() - 1] == to);
                            }
                        }
                        assert(connected@[connected@.len() - 1] == to);
                        assert forall|i: int, v: i64| 0 <= i < head && #[trigger] linked(lg, queue@[i], v)
                            implies connected@.contains(v) by {
                            assert(queue@[i] == q_before[i]);
                            assert(c_before.contains(v));
                        }
                    }
                }
                round = round + 1;
            }
            li = li + 1;
        }
        proof {
            assert forall|v: i64| linked(lg, cur, v) implies connected@.contains(v) by {
                let k = choose|k: int| 0 <= k < lg.len() && ((lg[k].source == cur && lg[k].target == v)
                    || (lg[k].target == cur && lg[k].source == v));
                assert(lg[k].source == cur || lg[k].target == cur);
            }
            lemma_link_nodes_bounded(lg, start, connected@);
        }
        head = head + 1;
    }
    proof {
        assert forall|v: i64| in_component(lg, start, v) implies connected@.contains(v) by {
            let p = choose|p: Seq<i64>| is_link_walk(lg, start, p) && p.last() == v;
            lemma_walk_in_closed(lg, start, p, connected@, queue@);
        }
    }
    connected
}

proof fn lemma_walk_in_closed(links: Seq<BlockLink>, start: i64, p: Seq<i64>, c: Seq<i64>, q: Seq<i64>)
    requires
        is_link_walk(links, start, p),
        c.contains(start),
        forall|v: i64| c.contains(v) && expands(links, start, v) ==> q.contains(v),
        forall|i: int, v: i64| 0 <= i < q.len() && #[trigger] linked(links, q[i], v) ==> c.contains(v),
    ensures
        c.contains(p.last()),
    decreases p.len(),
{
    if p.len() > 1 {
        let w = p.drop_last();
        assert(is_link_walk(links, start, w)) by {
            assert forall|j: int| 0 <= j < w.len() - 1 implies linked(links, #[trigger] w[j], w[j + 1]) by {
                assert(w[j] == p[j] && w[j + 1] == p[j + 1]);
            }
            assert forall|j: int| 0 < j < w.len() - 1 implies !resolved(links, #[trigger] w[j]) by {
                assert(w[j] == p[j]);
            }
        }
        lemma_walk_in_closed(links, start, w, c, q);
        let u = w.last();
        assert(u == p[p.len() - 2]);
        assert(linked(links, p[p.len() - 2], p[p.len() - 1]));
        if p.len() - 2 > 0 {
            assert(!resolved(links, p[p.len() - 2]));
        } else {
            assert(u == start);
        }
        assert(expands(links, start, u));
        assert(q.contains(u));
        let i = choose|i: int| 0 <= i < q.len() && q[i] == u;
    }
}

/// The ids of a list of `(id, status)` pairs.
pub open spec fn status_ids(v: Seq<(i64, IssueStatus)>) -> Seq<i64> {
    Seq::new(v.len(), |k: int| v[k].0)
}

/// The links among the issues around `start`, as `(source, target)` pairs
/// in link order.
pub open spec fn restricted_edges(links: Seq<BlockLink>, start: i64, all: Seq<BlockLink>) -> Seq<(i64, i64)>
    decreases links.len(),
{
    if links.len() == 0 {
        Seq::empty()
    } else {
        let l = links.last();
        restricted_edges(links.drop_last(), start, all) + if in_component(all, start, l.source)
            && in_component(all, start, l.target) {
            seq![(l.source, l.target)]
        } else {
            Seq::empty()
        }
    }
}

/// The blocking graph around one issue, across projects: the links among
/// the issues reached from it without passing through a finished or
/// cancelled issue, their chains, and the recorded status of each issue
/// shown. With no link among them the graph is empty.
pub fn blocking_graph_for_issue(issue_id: i64, links: &Vec<BlockLink>) -> (g: BlockingGraph)
    ensures
        describes(g, restricted_edges(links@, issue_id, links@)),
        restricted_edges(links@, issue_id, links@).len() == 0 ==> g.node_statuses@.len() == 0,
        restricted_edges(links@, issue_id, links@).len() > 0 ==> (forall|id: i64, st: IssueStatus|
            g.node_statuses@.contains((id, st)) <==> in_component(links@, issue_id, id)
                && recorded_status(links@, id) == Some(st)),
        status_ids(g.node_statuses@).no_duplicates(),
{
    let comp = component(links, issue_id);
    let mut edges: Vec<(i64, i64)> = Vec::new();
    let mut i: usize = 0;
    while i < links.len()
        invariant
            i <= links@.len(),
            forall|v: i64| comp@.contains(v) <==> in_component(links@, issue_id, v),
            edges@ == restricted_edges(links@.take(i as int), issue_id, links@),
        decreases links.len() - i,
    {
        let l = links[i];
        assert(links@.take(i + 1).drop_last() =~= links@.take(i as int));
        assert(links@.take(i + 1).last() == l);
        if contains_id(&comp, l.source) && contains_id(&comp, l.target) {
            edges.push((l.source, l.target));
        }
        assert(edges@ =~= restricted_edges(links@.take(i + 1), issue_id, links@));
        i = i + 1;
    }
    assert(links@.take(links@.len() as int) =~= links@);
    if edges.len() == 0 {
        let g = chain_graph(&edges);
        return g;
    }
    let mut g = chain_graph(&edges);
    let mut statuses: Vec<(i64, IssueStatus)> = Vec::new();
    let mut j: usize = 0;
    while j < comp.len()
        invariant
            j <= comp@.len(),
            comp@.no_duplicates(),
            forall|v: i64| comp@.contains(v) <==> in_component(links@, issue_id, v),
            forall|id: i64, st: IssueStatus| statuses@.contains((id, st)) <==> comp@.take(j as int).contains(id)
                && recorded_status(links@, id) == Some(st),
            status_ids(statuses@).no_duplicates(),
            forall|k: int| 0 <= k < statuses@.len() ==> comp@.take(j as int).contains(#[trigger] statuses@[k].0),
        decreases comp.len() - j,
    {
        let v = comp[j];
        let ghost before = statuses@;
        assert(comp@.take(j + 1) =~= comp@.take(j as int).push(v));
        assert(!comp@.take(j as int).contains(v)) by {
            if comp@.take(j as int).contains(v) {
                let k = choose|k: int| 0 <= k < j && comp@[k] == v;
                assert(comp@[k] == comp@[j as int]);
            }
        }
        match recorded_status_exec(links, v) {
            Some(st) => {
                statuses.push((v, st));
                assert forall|id: i64, s2: IssueStatus| statuses@.contains((id, s2)) <==> comp@.take(j + 1).contains(id)
                    && recorded_status(links@, id) == Some(s2) by {
                    if statuses@.contains((id, s2)) {
                        if (id, s2) != (v, st) {
                            let k = choose|k: int| 0 <= k < statuses@.len() && statuses@[k] == (id, s2);
                            assert(k < before.len());
                            assert(before[k] == (id, s2));
                            assert(before.contains((id, s2)));
                            assert(comp@.take(j as int).contains(id));
                            let m = choose|m: int| 0 <= m < j && comp@.take(j as int)[m] == id;
                            assert(comp@.take(j + 1)[m] == id);
                        } else {
                            assert(comp@.take(j + 1)[j as int] == v);
                        }
                    }
                    if comp@.take(j + 1).contains(id) && recorded_status(links@, id) == Some(s2) {
                        if id == v {
                            assert(statuses@[statuses@.len() - 1] == (v, st));
                        } else {
                            assert(comp@.take(j as int).contains(id));
                            assert(before.contains((id, s2)));
                            let k = choose|k: int| 0 <= k < before.len() && before[k] == (id, s2);
                            assert(statuses@[k] == (id, s2));
                        }
                    }
                }
                assert(status_ids(statuses@) =~= status_ids(before).push(v));
                assert forall|k: int| 0 <= k < statuses@.len() implies comp@.take(j + 1).contains(#[trigger] statuses@[k].0) by {
                    if k < before.len() {
                        assert(statuses@[k] == before[k]);
                        let m = choose|m: int| 0 <= m < j && comp@.take(j as int)[m] == before[k].0;
                        assert(comp@.take(j + 1)[m] == before[k].0);
                    } else {
                        assert(comp@.take(j + 1)[j as int] == v);
                    }
                }
                assert forall|k: int| 0 <= k < before.len() implies #[trigger] before[k].0 != v by {
                    assert(comp@.take(j as int).contains(before[k].0));
                }
                assert(status_ids(statuses@).no_duplicates()) by {
                    let ids = status_ids(statuses@);
                    assert forall|a: int, b: int| 0 <= a < ids.len() && 0 <= b < ids.len() && a != b implies ids[a] != ids[b] by {
                        if a == before.len() {
                            assert(ids[b] == before[b].0);
                        } else if b == before.len() {
                            assert(ids[a] == before[a].0);
                        } else {
                            assert(ids[a] == status_ids(before)[a]);
                            assert(ids[b] == status_ids(before)[b]);
                        }
                    }
                }
            },
            None => {
                assert forall|id: i64, s2: IssueStatus| statuses@.contains((id, s2)) <==> comp@.take(j + 1).contains(id)
                    && recorded_status(links@, id) == Some(s2) by {
                    if comp@.take(j + 1).contains(id) && id != v {
                        let m = choose|m: int| 0 <= m < j + 1 && #[trigger] comp@.take(j + 1)[m] == id;
                        assert(comp@.take(j as int)[m] == id);
                    }
                    if statuses@.contains((id, s2)) {
                        let m = choose|m: int| 0 <= m < j && comp@.take(j as int)[m] == id;
                        assert(comp@.take(j + 1)[m] == id);
                    }
                }
                assert forall|k: int| 0 <= k < statuses@.len() implies comp@.take(j + 1).contains(#[trigger] statuses@[k].0) by {
                    let m = choose|m: int| 0 <= m < j && comp@.take(j as int)[m] == statuses@[k].0;
                    assert(comp@.take(j + 1)[m] == statuses@[k].0);
                }
            },
        }
        j = j + 1;
    }
    assert(comp@.take(comp@.len() as int) =~= comp@);
    let ghost g0 = g;
    g.node_statuses = statuses;
    proof {
        if g.has_cycle {
            let m = choose|m: int| stops_at_leaf(edges@, g0.leaf_blockers@, m, g0.chains@);
            assert(stops_at_leaf(edges@, g.leaf_blockers@, m, g.chains@));
        }
    }
    g
}

} // verus!
