//! What a session restore and a session end compute from the stored records:
//! the current sprint's issues grouped by epic, each epic's progress, the
//! drafts waiting for approval, the warnings, and the end-of-session
//! checklist.
use vstd::prelude::*;
use crate::enums::{IssueStatus, TaskStatus};
use crate::models::Issue;
use crate::text::{push_i64, push_str, push_u64, int_decimal, nat_decimal};

verus! {

/// The elements of `s` that satisfy `p`, in order.
pub open spec fn keep<T>(s: Seq<T>, p: spec_fn(T) -> bool) -> Seq<T>
    decreases s.len(),
{
    if s.len() == 0 {
        Seq::empty()
    } else if p(s.last()) {
        keep(s.drop_last(), p).push(s.last())
    } else {
        keep(s.drop_last(), p)
    }
}

/// The distinct epic ids of `s`, in order of first appearance.
pub open spec fn epic_keys(s: Seq<Issue>) -> Seq<i64>
    decreases s.len(),
{
    if s.len() == 0 {
        Seq::empty()
    } else if epic_keys(s.drop_last()).contains(s.last().epic_id) {
        epic_keys(s.drop_last())
    } else {
        epic_keys(s.drop_last()).push(s.last().epic_id)
    }
}

/// The issues of `s` that belong to epic `e`, in order.
pub open spec fn issues_of_epic(s: Seq<Issue>, e: i64) -> Seq<Issue> {
    keep(s, |x: Issue| x.epic_id == e)
}

/// The sprint's issues grouped by epic: one group per epic, in order of the
/// epic's first issue, each holding that epic's issues in their order.
pub open spec fn epic_groups(s: Seq<Issue>) -> Seq<(i64, Seq<Issue>)> {
    Seq::new(epic_keys(s).len(), |j: int| (epic_keys(s)[j], issues_of_epic(s, epic_keys(s)[j])))
}

/// The view of a list of groups.
pub open spec fn group_views(g: Seq<(i64, Vec<Issue>)>) -> Seq<(i64, Seq<Issue>)> {
    Seq::new(g.len(), |j: int| (g[j].0, g[j].1@))
}

proof fn lemma_keep_push<T>(s: Seq<T>, x: T, p: spec_fn(T) -> bool)
    ensures
        keep(s.push(x), p) == (if p(x) { keep(s, p).push(x) } else { keep(s, p) }),
{
    assert(s.push(x).drop_last() =~= s);
}

proof fn lemma_no_key_no_issues(s: Seq<Issue>, e: i64)
    requires
        !epic_keys(s).contains(e),
    ensures
        issues_of_epic(s, e) == Seq::<Issue>::empty(),
    decreases s.len(),
{
    if s.len() > 0 {
        let k = epic_keys(s.drop_last());
        if !k.contains(e) {
            lemma_no_key_no_issues(s.drop_last(), e);
        } else {
            let j = choose|j: int| 0 <= j < k.len() && k[j] == e;
            if k.contains(s.last().epic_id) {
                assert(epic_keys(s)[j] == e);
            } else {
                assert(epic_keys(s)[j] == e);
            }
        }
        if s.last().epic_id == e {
            if k.contains(s.last().epic_id) {
                assert(epic_keys(s).contains(e));
            } else {
                assert(epic_keys(s)[k.len() as int] == e);
            }
        }
    }
}

proof fn lemma_epic_keys_distinct(s: Seq<Issue>)
    ensures
        forall|a: int, b: int| 0 <= a < b < epic_keys(s).len() ==> epic_keys(s)[a] != epic_keys(s)[b],
    decreases s.len(),
{
    if s.len() > 0 {
        let t = s.drop_last();
        lemma_epic_keys_distinct(t);
        let k = epic_keys(t);
        if !k.contains(s.last().epic_id) {
            assert forall|a: int, b: int| 0 <= a < b < epic_keys(s).len() implies epic_keys(s)[a] != epic_keys(s)[b] by {
                if b == k.len() {
                    assert(epic_keys(s)[a] == k[a]);
                    assert(!k.contains(s.last().epic_id));
                }
            }
        }
    }
}

proof fn lemma_epic_keys_present(s: Seq<Issue>)
    ensures
        forall|i: int| 0 <= i < s.len() ==> epic_keys(s).contains(#[trigger] s[i].epic_id),
        forall|j: int| 0 <= j < epic_keys(s).len() ==> exists|i: int| 0 <= i < s.len() && s[i].epic_id == #[trigger] epic_keys(s)[j],
    decreases s.len(),
{
    if s.len() > 0 {
        let t = s.drop_last();
        lemma_epic_keys_present(t);
        let k = epic_keys(t);
        assert forall|i: int| 0 <= i < s.len() implies epic_keys(s).contains(#[trigger] s[i].epic_id) by {
            if i < t.len() {
                assert(t[i] == s[i]);
                assert(k.contains(t[i].epic_id));
                let j = choose|j: int| 0 <= j < k.len() && k[j] == t[i].epic_id;
                assert(epic_keys(s)[j] == k[j]);
            } else if k.contains(s.last().epic_id) {
            } else {
                assert(epic_keys(s)[k.len() as int] == s.last().epic_id);
            }
        }
        assert forall|j: int| 0 <= j < epic_keys(s).len() implies exists|i: int| 0 <= i < s.len() && s[i].epic_id == #[trigger] epic_keys(s)[j] by {
            if j < k.len() {
                assert(epic_keys(s)[j] == k[j]);
                let i = choose|i: int| 0 <= i < t.len() && t[i].epic_id == k[j];
                assert(s[i] == t[i]);
            } else {
                assert(s[s.len() - 1].epic_id == epic_keys(s)[j]);
            }
        }
    }
}

/// Groups the sprint's issues by epic; see [`epic_groups`].
pub fn group_by_epic(issues: Vec<Issue>) -> (r: Vec<(i64, Vec<Issue>)>)
    ensures
        group_views(r@) == epic_groups(issues@),
{
    let ghost s = issues@;
    let n = issues.len();
    let mut rest = issues;
    let mut keys: Vec<i64> = Vec::new();
    let mut buckets: Vec<Vec<Issue>> = Vec::new();
    let mut i: usize = 0;
    while rest.len() > 0
        invariant
            s.len() == n,
            i <= s.len(),
            rest@ == s.skip(i as int),
            keys@ == epic_keys(s.take(i as int)),
            buckets@.len() == keys@.len(),
            forall|j: int| 0 <= j < keys@.len() ==> (#[trigger] buckets@[j])@ == issues_of_epic(s.take(i as int), keys@[j]),
        decreases rest.len(),
    {
        let ghost pre = s.take(i as int);
        let x = rest.remove(0);
        assert(x == s[i as int]);
        assert(s.take(i + 1) =~= pre.push(x));
        assert(s.take(i + 1).drop_last() =~= pre);
        proof {
            lemma_epic_keys_distinct(pre);
        }
        let mut k: usize = 0;
        while k < keys.len() && keys[k] != x.epic_id
            invariant
                k <= keys@.len(),
                forall|j: int| 0 <= j < k ==> keys@[j] != x.epic_id,
            decreases keys@.len() - k,
        {
            k = k + 1;
        }
        let ghost old_buckets = buckets@;
        if k < keys.len() {
            let mut b = buckets.remove(k);
            b.push(x);
            buckets.insert(k, b);
            proof {
                assert(keys@.contains(x.epic_id));
                assert forall|j: int| 0 <= j < keys@.len() implies (#[trigger] buckets@[j])@ == issues_of_epic(s.take(i + 1), keys@[j]) by {
                    lemma_keep_push(pre, x, |y: Issue| y.epic_id == keys@[j]);
                    if j != k {
                        assert(buckets@[j] == old_buckets[j]);
                    }
                }
            }
        } else {
            let e = x.epic_id;
            let mut b: Vec<Issue> = Vec::new();
            b.push(x);
            keys.push(e);
            buckets.push(b);
            proof {
                assert(!epic_keys(pre).contains(x.epic_id));
                lemma_no_key_no_issues(pre, x.epic_id);
                assert forall|j: int| 0 <= j < keys@.len() implies (#[trigger] buckets@[j])@ == issues_of_epic(s.take(i + 1), keys@[j]) by {
                    lemma_keep_push(pre, x, |y: Issue| y.epic_id == keys@[j]);
                    if j < old_buckets.len() {
                        assert(buckets@[j] == old_buckets[j]);
                    }
                }
            }
        }
        i = i + 1;
        assert(rest@ =~= s.skip(i as int));
    }
    assert(s.take(i as int) =~= s);
    let mut out: Vec<(i64, Vec<Issue>)> = Vec::new();
    let nk = keys.len();
    let ghost all_keys = keys@;
    let ghost all_buckets = buckets@;
    let mut j: usize = 0;
    while buckets.len() > 0
        invariant
            j <= all_keys.len(),
            all_keys.len() == nk,
            all_buckets.len() == all_keys.len(),
            keys@ == all_keys,
            buckets@ == all_buckets.skip(j as int),
            out@.len() == j,
            epic_groups(s).len() == all_keys.len(),
            group_views(out@) == epic_groups(s).take(j as int),
            all_keys == epic_keys(s),
            forall|t: int| 0 <= t < all_keys.len() ==> (#[trigger] all_buckets[t])@ == issues_of_epic(s, all_keys[t]),
        decreases buckets.len(),
    {
        assert(j < all_keys.len());
        let b = buckets.remove(0);
        assert(b == all_buckets[j as int]);
        let ghost before = out@;
        out.push((keys[j], b));
        assert(group_views(out@) =~= epic_groups(s).take(j + 1)) by {
            assert forall|t: int| 0 <= t < out@.len() implies group_views(out@)[t] == epic_groups(s).take(j + 1)[t] by {
                if t < before.len() {
                    assert(group_views(before)[t] == epic_groups(s).take(j as int)[t]);
                }
            }
        }
        j = j + 1;
        assert(buckets@ =~= all_buckets.skip(j as int));
    }
    assert(epic_groups(s).take(j as int) =~= epic_groups(s));
    out
}

/// How far an epic's issues in the sprint have got.
#[derive(Clone, Copy, Debug, PartialEq, Eq, Structural)]
pub struct EpicProgress {
    /// Finished issues.
    pub done: u32,
    /// Working or demo issues.
    pub in_progress: u32,
    /// Ready issues.
    pub todo: u32,
    /// All the epic's issues in the sprint.
    pub total: u32,
}

/// A draft issue waiting for the user's approval.
#[derive(Clone, Debug)]
pub struct IssueBrief {
    pub id: i64,
    pub title: String,
    pub epic_id: i64,
    pub created_at: String,
}

/// An epic's issues sorted for a session restore: its progress, its drafts
/// and the issues still being worked on.
pub struct EpicTally {
    pub progress: EpicProgress,
    pub drafts: Vec<IssueBrief>,
    pub active: Vec<Issue>,
}

/// Whether an issue has status `st`.
pub open spec fn with_status(st: IssueStatus) -> spec_fn(Issue) -> bool {
    |x: Issue| x.status == st
}

/// The number of issues of `s` with status `st`.
pub open spec fn count_status(s: Seq<Issue>, st: IssueStatus) -> nat {
    keep(s, with_status(st)).len()
}

/// An issue still being worked on: ready, working or demo.
pub open spec fn is_active(x: Issue) -> bool {
    x.status == IssueStatus::Ready || x.status == IssueStatus::Working || x.status == IssueStatus::Demo
}

/// The draft entries of the required issues of `s`, in order.
pub open spec fn draft_briefs(epic_id: i64, s: Seq<Issue>) -> Seq<IssueBrief>
    decreases s.len(),
{
    if s.len() == 0 {
        Seq::empty()
    } else if s.last().status == IssueStatus::Required {
        draft_briefs(epic_id, s.drop_last()).push(
            IssueBrief { id: s.last().id, title: s.last().title, epic_id, created_at: s.last().created_at },
        )
    } else {
        draft_briefs(epic_id, s.drop_last())
    }
}

/// Sorts one epic's sprint issues: finished ones count as done, working and
/// demo ones as in progress, ready ones as to do; required ones become
/// drafts; the ready, working and demo ones stay active, in order, while
/// finished and cancelled ones are left out of the active list.
pub fn tally_epic(epic_id: i64, issues: Vec<Issue>) -> (r: EpicTally)
    requires
        issues.len() <= u32::MAX,
    ensures
        r.progress.done == count_status(issues@, IssueStatus::Finished),
        r.progress.in_progress == count_status(issues@, IssueStatus::Working) + count_status(issues@, IssueStatus::Demo),
        r.progress.todo == count_status(issues@, IssueStatus::Ready),
        r.progress.total == issues@.len(),
        r.drafts@ == draft_briefs(epic_id, issues@),
        r.active@ == keep(issues@, |x: Issue| is_active(x)),
{
    let ghost s = issues@;
    let n = issues.len();
    let mut rest = issues;
    let mut done: u32 = 0;
    let mut in_progress: u32 = 0;
    let mut todo: u32 = 0;
    let mut drafts: Vec<IssueBrief> = Vec::new();
    let mut active: Vec<Issue> = Vec::new();
    let mut i: usize = 0;
    while rest.len() > 0
        invariant
            s.len() == n,
            n <= u32::MAX,
            i <= n,
            rest@ == s.skip(i as int),
            done == count_status(s.take(i as int), IssueStatus::Finished),
            in_progress == count_status(s.take(i as int), IssueStatus::Working) + count_status(s.take(i as int), IssueStatus::Demo),
            todo == count_status(s.take(i as int), IssueStatus::Ready),
            done + in_progress + todo <= i,
            drafts@ == draft_briefs(epic_id, s.take(i as int)),
            active@ == keep(s.take(i as int), |x: Issue| is_active(x)),
        decreases rest.len(),
    {
        let ghost pre = s.take(i as int);
        let x = rest.remove(0);
        assert(x == s[i as int]);
        assert(s.take(i + 1) =~= pre.push(x));
        proof {
            lemma_keep_push(pre, x, with_status(IssueStatus::Finished));
            lemma_keep_push(pre, x, with_status(IssueStatus::Working));
            lemma_keep_push(pre, x, with_status(IssueStatus::Demo));
            lemma_keep_push(pre, x, with_status(IssueStatus::Ready));
            lemma_keep_push(pre, x, |y: Issue| is_active(y));
            assert(pre.push(x).drop_last() =~= pre);
        }
        match x.status {
            IssueStatus::Finished => {
                done = done + 1;
            },
            IssueStatus::Working | IssueStatus::Demo => {
                in_progress = in_progress + 1;
                active.push(x);
            },
            IssueStatus::Ready => {
                todo = todo + 1;
                active.push(x);
            },
            IssueStatus::Required => {
                drafts.push(IssueBrief { id: x.id, title: x.title, epic_id, created_at: x.created_at });
            },
            IssueStatus::Cancelled => {},
        }
        i = i + 1;
        assert(rest@ =~= s.skip(i as int));
    }
    assert(s.take(i as int) =~= s);
    EpicTally {
        progress: EpicProgress { done, in_progress, todo, total: n as u32 },
        drafts,
        active,
    }
}

/// Every issue has exactly one of the six statuses.
proof fn lemma_status_counts(s: Seq<Issue>)
    ensures
        count_status(s, IssueStatus::Required) + count_status(s, IssueStatus::Ready)
            + count_status(s, IssueStatus::Working) + count_status(s, IssueStatus::Demo)
            + count_status(s, IssueStatus::Finished) + count_status(s, IssueStatus::Cancelled) == s.len(),
    decreases s.len(),
{
    if s.len() > 0 {
        lemma_status_counts(s.drop_last());
    }
}

proof fn lemma_draft_count(epic_id: i64, s: Seq<Issue>)
    ensures
        draft_briefs(epic_id, s).len() == count_status(s, IssueStatus::Required),
    decreases s.len(),
{
    if s.len() > 0 {
        lemma_draft_count(epic_id, s.drop_last());
    }
}

/// An epic's progress accounts for every one of its sprint issues: done, in
/// progress, to do, drafts and cancelled ones add up to the total.
pub proof fn law_epic_progress_adds_up(epic_id: i64, issues: Seq<Issue>)
    ensures
        count_status(issues, IssueStatus::Finished)
            + (count_status(issues, IssueStatus::Working) + count_status(issues, IssueStatus::Demo))
            + count_status(issues, IssueStatus::Ready)
            + draft_briefs(epic_id, issues).len()
            + count_status(issues, IssueStatus::Cancelled) == issues.len(),
{
    lemma_status_counts(issues);
    lemma_draft_count(epic_id, issues);
}

/// Every issue of the sprint lands in the group of its own epic: the groups
/// have distinct epics, cover every epic present, and their sizes add up to
/// the number of issues.
pub proof fn law_epic_groups_partition(s: Seq<Issue>)
    ensures
        forall|a: int, b: int| 0 <= a < b < epic_groups(s).len() ==> epic_groups(s)[a].0 != epic_groups(s)[b].0,
        forall|i: int| 0 <= i < s.len() ==> exists|j: int| 0 <= j < epic_groups(s).len() && epic_groups(s)[j].0 == #[trigger] s[i].epic_id,
        forall|j: int| 0 <= j < epic_groups(s).len() ==> forall|t: int| 0 <= t < (#[trigger] epic_groups(s)[j]).1.len() ==> epic_groups(s)[j].1[t].epic_id == epic_groups(s)[j].0,
        group_sizes(epic_groups(s)) == s.len(),
{
    lemma_epic_keys_distinct(s);
    lemma_epic_keys_present(s);
    assert forall|i: int| 0 <= i < s.len() implies exists|j: int| 0 <= j < epic_groups(s).len() && epic_groups(s)[j].0 == #[trigger] s[i].epic_id by {
        assert(epic_keys(s).contains(s[i].epic_id));
        let j = choose|j: int| 0 <= j < epic_keys(s).len() && epic_keys(s)[j] == s[i].epic_id;
        assert(epic_groups(s)[j].0 == s[i].epic_id);
    }
    assert forall|j: int| 0 <= j < epic_groups(s).len() implies forall|t: int| 0 <= t < (#[trigger] epic_groups(s)[j]).1.len() ==> epic_groups(s)[j].1[t].epic_id == epic_groups(s)[j].0 by {
        lemma_keep_all(s, |x: Issue| x.epic_id == epic_keys(s)[j]);
    }
    lemma_group_sizes(s);
}

/// The ready, working and demo issues of `s`, in order.
pub open spec fn active_issues(s: Seq<Issue>) -> Seq<Issue> {
    keep(s, |x: Issue| is_active(x))
}

/// One epic of a session restore: its progress and its active issues.
#[derive(Clone, Debug)]
pub struct RestoredEpic {
    pub epic_id: i64,
    pub progress: EpicProgress,
    pub active: Vec<Issue>,
}

/// `r` is epic `e`'s entry for its sprint issues `s`: progress counted by
/// status, and the ready, working and demo issues in order.
pub open spec fn restored(r: RestoredEpic, e: i64, s: Seq<Issue>) -> bool {
    &&& r.epic_id == e
    &&& r.progress.done == count_status(s, IssueStatus::Finished)
    &&& r.progress.in_progress == count_status(s, IssueStatus::Working) + count_status(s, IssueStatus::Demo)
    &&& r.progress.todo == count_status(s, IssueStatus::Ready)
    &&& r.progress.total == s.len()
    &&& r.active@ == active_issues(s)
}

/// The drafts of the epics `keys` over the issues `s`, epic by epic.
pub open spec fn drafts_for(s: Seq<Issue>, keys: Seq<i64>) -> Seq<IssueBrief>
    decreases keys.len(),
{
    if keys.len() == 0 {
        Seq::empty()
    } else {
        drafts_for(s, keys.drop_last()) + draft_briefs(keys.last(), issues_of_epic(s, keys.last()))
    }
}

/// Sorts the sprint's issues for a session restore: one entry per epic, in
/// order of the epic's first issue (see [`epic_groups`] and [`restored`]),
/// and the drafts of all epics, epic by epic.
pub fn restore_epics(issues: Vec<Issue>) -> (r: (Vec<RestoredEpic>, Vec<IssueBrief>))
    requires
        issues@.len() <= u32::MAX,
    ensures
        r.0@.len() == epic_keys(issues@).len(),
        forall|j: int| 0 <= j < r.0@.len() ==> restored(#[trigger] r.0@[j], epic_keys(issues@)[j], issues_of_epic(issues@, epic_keys(issues@)[j])),
        r.1@ == drafts_for(issues@, epic_keys(issues@)),
{
    let ghost s = issues@;
    let ghost keys = epic_keys(s);
    let groups = group_by_epic(issues);
    let ng = groups.len();
    let ghost gs = groups@;
    assert(group_views(gs) == epic_groups(s));
    assert(gs.len() == keys.len()) by {
        assert(group_views(gs).len() == gs.len());
    }
    let mut rest = groups;
    let mut out: Vec<RestoredEpic> = Vec::new();
    let mut drafts: Vec<IssueBrief> = Vec::new();
    let mut j: usize = 0;
    assert(keys.take(0) =~= Seq::<i64>::empty());
    while rest.len() > 0
        invariant
            s.len() <= u32::MAX,
            keys == epic_keys(s),
            group_views(gs) == epic_groups(s),
            gs.len() == keys.len(),
            gs.len() == ng,
            j <= gs.len(),
            rest@ == gs.skip(j as int),
            out@.len() == j,
            forall|t: int| 0 <= t < j ==> restored(#[trigger] out@[t], keys[t], issues_of_epic(s, keys[t])),
            drafts@ == drafts_for(s, keys.take(j as int)),
        decreases rest.len(),
    {
        let (e, g) = rest.remove(0);
        assert((e, g) == gs[j as int]);
        assert(group_views(gs)[j as int] == epic_groups(s)[j as int]);
        assert(e == keys[j as int] && g@ == issues_of_epic(s, keys[j as int]));
        proof {
            lemma_keep_all(s, |x: Issue| x.epic_id == keys[j as int]);
        }
        let t = tally_epic(e, g);
        let EpicTally { progress, drafts: mut d, active } = t;
        drafts.append(&mut d);
        proof {
            assert(keys.take(j + 1).drop_last() =~= keys.take(j as int));
            assert(keys.take(j + 1).last() == keys[j as int]);
        }
        out.push(RestoredEpic { epic_id: e, progress, active });
        j = j + 1;
        assert(rest@ =~= gs.skip(j as int));
    }
    assert(keys.take(j as int) =~= keys);
    (out, drafts)
}

#[verifier::spinoff_prover]
#[verifier::rlimit(40)]
proof fn lemma_keep_members<T>(s: Seq<T>, p: spec_fn(T) -> bool)
    ensures
        forall|t: int| 0 <= t < keep(s, p).len() ==> exists|m: int| 0 <= m < s.len() && s[m] == #[trigger] keep(s, p)[t] && p(s[m]),
        forall|m: int| 0 <= m < s.len() && p(#[trigger] s[m]) ==> keep(s, p).contains(s[m]),
    decreases s.len(),
{
    if s.len() > 0 {
        let d = s.drop_last();
        lemma_keep_members(d, p);
        let k = keep(d, p);
        if p(s.last()) {
            assert(keep(s, p) == k.push(s.last()));
        } else {
            assert(keep(s, p) == k);
        }
        assert forall|t: int| 0 <= t < keep(s, p).len() implies exists|m: int| 0 <= m < s.len() && s[m] == #[trigger] keep(s, p)[t] && p(s[m]) by {
            if t < k.len() {
                assert(keep(s, p)[t] == k[t]);
                let m = choose|m: int| 0 <= m < d.len() && d[m] == k[t] && p(d[m]);
                assert(s[m] == d[m]);
            } else {
                assert(keep(s, p)[t] == s.last());
                assert(s[s.len() - 1] == s.last());
            }
        }
        assert forall|m: int| 0 <= m < s.len() && p(#[trigger] s[m]) implies keep(s, p).contains(s[m]) by {
            if m < d.len() {
                assert(d[m] == s[m]);
                assert(k.contains(s[m]));
                let t = choose|t: int| 0 <= t < k.len() && k[t] == s[m];
                assert(keep(s, p)[t] == k[t]);
            } else {
                assert(keep(s, p)[k.len() as int] == s[m]);
            }
        }
    }
}

#[verifier::spinoff_prover]
#[verifier::rlimit(40)]
proof fn lemma_draft_members(e: i64, g: Seq<Issue>)
    ensures
        forall|t: int| 0 <= t < draft_briefs(e, g).len() ==> exists|i: int| 0 <= i < g.len() && g[i].status == IssueStatus::Required
            && g[i].id == (#[trigger] draft_briefs(e, g)[t]).id && draft_briefs(e, g)[t].epic_id == e,
        forall|i: int| 0 <= i < g.len() && (#[trigger] g[i]).status == IssueStatus::Required ==> exists|t: int| 0 <= t < draft_briefs(e, g).len()
            && draft_briefs(e, g)[t].id == g[i].id,
    decreases g.len(),
{
    if g.len() > 0 {
        let d = g.drop_last();
        lemma_draft_members(e, d);
        let b = draft_briefs(e, d);
        assert forall|t: int| 0 <= t < draft_briefs(e, g).len() implies exists|i: int| 0 <= i < g.len() && g[i].status == IssueStatus::Required
            && g[i].id == (#[trigger] draft_briefs(e, g)[t]).id && draft_briefs(e, g)[t].epic_id == e by {
            if t < b.len() {
                assert(draft_briefs(e, g)[t] == b[t]);
                let i = choose|i: int| 0 <= i < d.len() && d[i].status == IssueStatus::Required && d[i].id == b[t].id && b[t].epic_id == e;
                assert(g[i] == d[i]);
            } else {
                assert(g[g.len() - 1] == g.last());
            }
        }
        assert forall|i: int| 0 <= i < g.len() && (#[trigger] g[i]).status == IssueStatus::Required implies exists|t: int| 0 <= t < draft_briefs(e, g).len()
            && draft_briefs(e, g)[t].id == g[i].id by {
            if i < d.len() {
                assert(d[i] == g[i]);
                let t = choose|t: int| 0 <= t < b.len() && b[t].id == d[i].id;
                assert(draft_briefs(e, g)[t] == b[t]);
            } else {
                assert(draft_briefs(e, g)[b.len() as int].id == g[i].id);
            }
        }
    }
}

#[verifier::spinoff_prover]
#[verifier::rlimit(40)]
proof fn lemma_drafts_for_sources(s: Seq<Issue>, keys: Seq<i64>)
    ensures
        forall|t: int| 0 <= t < drafts_for(s, keys).len() ==> exists|i: int| 0 <= i < s.len() && s[i].status == IssueStatus::Required
            && s[i].id == (#[trigger] drafts_for(s, keys)[t]).id && s[i].epic_id == drafts_for(s, keys)[t].epic_id,
    decreases keys.len(),
{
    if keys.len() > 0 {
        let kd = keys.drop_last();
        let e = keys.last();
        lemma_drafts_for_sources(s, kd);
        let a = drafts_for(s, kd);
        let g = issues_of_epic(s, e);
        let b = draft_briefs(e, g);
        assert(drafts_for(s, keys) == a + b);
        assert forall|t: int| 0 <= t < drafts_for(s, keys).len() implies exists|i: int| 0 <= i < s.len() && s[i].status == IssueStatus::Required
            && s[i].id == (#[trigger] drafts_for(s, keys)[t]).id && s[i].epic_id == drafts_for(s, keys)[t].epic_id by {
            if t < a.len() {
                assert(drafts_for(s, keys)[t] == a[t]);
            } else {
                let u = t - a.len();
                assert(drafts_for(s, keys)[t] == b[u]);
                lemma_draft_members(e, g);
                let i = choose|i: int| 0 <= i < g.len() && g[i].status == IssueStatus::Required && g[i].id == b[u].id && b[u].epic_id == e;
                lemma_keep_members(s, |x: Issue| x.epic_id == e);
                let m = choose|m: int| 0 <= m < s.len() && s[m] == g[i] && (|x: Issue| x.epic_id == e)(s[m]);
                assert(s[m].epic_id == e);
            }
        }
    }
}

#[verifier::spinoff_prover]
#[verifier::rlimit(40)]
proof fn lemma_drafts_for_cover(s: Seq<Issue>, keys: Seq<i64>, i: int)
    requires
        0 <= i < s.len(),
        s[i].status == IssueStatus::Required,
        keys.contains(s[i].epic_id),
    ensures
        exists|t: int| 0 <= t < drafts_for(s, keys).len() && drafts_for(s, keys)[t].id == s[i].id,
    decreases keys.len(),
{
    let kd = keys.drop_last();
    let e = keys.last();
    let a = drafts_for(s, kd);
    let g = issues_of_epic(s, e);
    let b = draft_briefs(e, g);
    assert(drafts_for(s, keys) == a + b);
    if kd.contains(s[i].epic_id) {
        lemma_drafts_for_cover(s, kd, i);
        let t = choose|t: int| 0 <= t < a.len() && a[t].id == s[i].id;
        assert(drafts_for(s, keys)[t] == a[t]);
    } else {
        let w = choose|w: int| 0 <= w < keys.len() && keys[w] == s[i].epic_id;
        if w < kd.len() {
            assert(kd[w] == keys[w]);
        }
        assert(s[i].epic_id == e);
        lemma_keep_members(s, |x: Issue| x.epic_id == e);
        assert((|x: Issue| x.epic_id == e)(s[i]));
        assert(g.contains(s[i]));
        let q = choose|q: int| 0 <= q < g.len() && g[q] == s[i];
        assert(g[q].status == IssueStatus::Required);
        lemma_draft_members(e, g);
        let u = choose|u: int| 0 <= u < b.len() && b[u].id == g[q].id;
        assert(drafts_for(s, keys)[a.len() + u] == b[u]);
    }
}

#[verifier::spinoff_prover]
#[verifier::rlimit(40)]
proof fn lemma_expansion_texts_start(cs: Seq<ScopeCheck>)
    ensures
        forall|k: int| 0 <= k < expansion_warnings(cs).len() ==> (#[trigger] expansion_warnings(cs)[k]).len() > 0
            && expansion_warnings(cs)[k][0] == '스',
    decreases cs.len(),
{
    if cs.len() > 0 {
        let d = cs.drop_last();
        lemma_expansion_texts_start(d);
        if expands(cs.last()) {
            reveal_strlit("스코프 팽창 감지: 이슈 #");
            let w = expansion_warning(cs.last());
            assert(w[0] == '스');
            assert forall|k: int| 0 <= k < expansion_warnings(cs).len() implies (#[trigger] expansion_warnings(cs)[k]).len() > 0
                && expansion_warnings(cs)[k][0] == '스' by {
                if k < expansion_warnings(d).len() {
                    assert(expansion_warnings(cs)[k] == expansion_warnings(d)[k]);
                }
            }
        }
    }
}

/// A session restore accounts for every sprint issue: each epic with issues
/// in the sprint has exactly one entry, and no other epic has one; each
/// entry counts its epic's finished, working or demo, and ready issues and
/// all of them, the first three within the last; its active issues are its
/// ready, working and demo ones. The drafts are exactly the required issues
/// (each under its own epic), which never show as active, and the session
/// warns of pending drafts exactly when there are any.
pub proof fn law_restore_accounts_for_every_issue(s: Seq<Issue>, cs: Seq<ScopeCheck>)
    ensures
        forall|a: int, b: int| 0 <= a < b < epic_keys(s).len() ==> epic_keys(s)[a] != epic_keys(s)[b],
        forall|i: int| 0 <= i < s.len() ==> epic_keys(s).contains(#[trigger] s[i].epic_id),
        forall|j: int| 0 <= j < epic_keys(s).len() ==> issues_of_epic(s, #[trigger] epic_keys(s)[j]).len() > 0,
        forall|e: i64| #![trigger issues_of_epic(s, e)] count_status(issues_of_epic(s, e), IssueStatus::Finished)
            + count_status(issues_of_epic(s, e), IssueStatus::Working) + count_status(issues_of_epic(s, e), IssueStatus::Demo)
            + count_status(issues_of_epic(s, e), IssueStatus::Ready) <= issues_of_epic(s, e).len(),
        forall|e: i64, t: int| 0 <= t < active_issues(issues_of_epic(s, e)).len()
            ==> (#[trigger] active_issues(issues_of_epic(s, e))[t]).status != IssueStatus::Required,
        forall|t: int| 0 <= t < drafts_for(s, epic_keys(s)).len() ==> exists|i: int| 0 <= i < s.len()
            && s[i].status == IssueStatus::Required && s[i].id == (#[trigger] drafts_for(s, epic_keys(s))[t]).id
            && s[i].epic_id == drafts_for(s, epic_keys(s))[t].epic_id,
        forall|i: int| 0 <= i < s.len() && (#[trigger] s[i]).status == IssueStatus::Required ==> exists|t: int|
            0 <= t < drafts_for(s, epic_keys(s)).len() && drafts_for(s, epic_keys(s))[t].id == s[i].id,
        (exists|k: int| 0 <= k < session_warning_texts(drafts_for(s, epic_keys(s)).len(), cs).len()
            && #[trigger] session_warning_texts(drafts_for(s, epic_keys(s)).len(), cs)[k] == draft_warning(drafts_for(s, epic_keys(s)).len()))
            <==> (exists|i: int| 0 <= i < s.len() && (#[trigger] s[i]).status == IssueStatus::Required),
{
    lemma_restore_keys(s);
    lemma_restore_counts(s);
    lemma_restore_drafts(s);
    lemma_restore_warning(s, cs);
}

#[verifier::spinoff_prover]
#[verifier::rlimit(40)]
proof fn lemma_restore_keys(s: Seq<Issue>)
    ensures
        forall|a: int, b: int| 0 <= a < b < epic_keys(s).len() ==> epic_keys(s)[a] != epic_keys(s)[b],
        forall|i: int| 0 <= i < s.len() ==> epic_keys(s).contains(#[trigger] s[i].epic_id),
        forall|j: int| 0 <= j < epic_keys(s).len() ==> issues_of_epic(s, #[trigger] epic_keys(s)[j]).len() > 0,
{
    lemma_epic_keys_distinct(s);
    lemma_epic_keys_present(s);
    let keys = epic_keys(s);
    assert forall|j: int| 0 <= j < keys.len() implies issues_of_epic(s, #[trigger] keys[j]).len() > 0 by {
        let i = choose|i: int| 0 <= i < s.len() && s[i].epic_id == keys[j];
        lemma_keep_members(s, |x: Issue| x.epic_id == keys[j]);
        assert((|x: Issue| x.epic_id == keys[j])(s[i]));
        assert(issues_of_epic(s, keys[j]).contains(s[i]));
    }
}

#[verifier::spinoff_prover]
#[verifier::rlimit(40)]
proof fn lemma_restore_counts(s: Seq<Issue>)
    ensures
        forall|e: i64| #![trigger issues_of_epic(s, e)] count_status(issues_of_epic(s, e), IssueStatus::Finished)
            + count_status(issues_of_epic(s, e), IssueStatus::Working) + count_status(issues_of_epic(s, e), IssueStatus::Demo)
            + count_status(issues_of_epic(s, e), IssueStatus::Ready) <= issues_of_epic(s, e).len(),
        forall|e: i64, t: int| 0 <= t < active_issues(issues_of_epic(s, e)).len()
            ==> (#[trigger] active_issues(issues_of_epic(s, e))[t]).status != IssueStatus::Required,
{
    assert forall|e: i64| #![trigger issues_of_epic(s, e)] count_status(issues_of_epic(s, e), IssueStatus::Finished)
        + count_status(issues_of_epic(s, e), IssueStatus::Working) + count_status(issues_of_epic(s, e), IssueStatus::Demo)
        + count_status(issues_of_epic(s, e), IssueStatus::Ready) <= issues_of_epic(s, e).len() by {
        lemma_status_counts(issues_of_epic(s, e));
    }
    assert forall|e: i64, t: int| 0 <= t < active_issues(issues_of_epic(s, e)).len()
        implies (#[trigger] active_issues(issues_of_epic(s, e))[t]).status != IssueStatus::Required by {
        lemma_keep_all(issues_of_epic(s, e), |x: Issue| is_active(x));
    }
}

#[verifier::spinoff_prover]
#[verifier::rlimit(40)]
proof fn lemma_restore_drafts(s: Seq<Issue>)
    ensures
        forall|t: int| 0 <= t < drafts_for(s, epic_keys(s)).len() ==> exists|i: int| 0 <= i < s.len()
            && s[i].status == IssueStatus::Required && s[i].id == (#[trigger] drafts_for(s, epic_keys(s))[t]).id
            && s[i].epic_id == drafts_for(s, epic_keys(s))[t].epic_id,
        forall|i: int| 0 <= i < s.len() && (#[trigger] s[i]).status == IssueStatus::Required ==> exists|t: int|
            0 <= t < drafts_for(s, epic_keys(s)).len() && drafts_for(s, epic_keys(s))[t].id == s[i].id,
        (drafts_for(s, epic_keys(s)).len() > 0) <==> (exists|i: int| 0 <= i < s.len() && (#[trigger] s[i]).status == IssueStatus::Required),
{
    let keys = epic_keys(s);
    let d = drafts_for(s, keys);
    assert(forall|t: int| 0 <= t < d.len() ==> exists|i: int| 0 <= i < s.len()
        && s[i].status == IssueStatus::Required && s[i].id == (#[trigger] d[t]).id && s[i].epic_id == d[t].epic_id) by {
        lemma_drafts_for_sources(s, keys);
    }
    assert(forall|i: int| 0 <= i < s.len() && (#[trigger] s[i]).status == IssueStatus::Required ==> exists|t: int|
        0 <= t < d.len() && d[t].id == s[i].id) by {
        lemma_epic_keys_present(s);
        assert forall|i: int| 0 <= i < s.len() && (#[trigger] s[i]).status == IssueStatus::Required implies exists|t: int|
            0 <= t < d.len() && d[t].id == s[i].id by {
            lemma_drafts_for_cover(s, keys, i);
        }
    }
    if d.len() > 0 {
        let t0: int = 0;
        assert(0 <= t0 < d.len());
        let _x = d[t0];
    }
}

#[verifier::spinoff_prover]
#[verifier::rlimit(40)]
proof fn lemma_restore_warning(s: Seq<Issue>, cs: Seq<ScopeCheck>)
    ensures
        (exists|k: int| 0 <= k < session_warning_texts(drafts_for(s, epic_keys(s)).len(), cs).len()
            && #[trigger] session_warning_texts(drafts_for(s, epic_keys(s)).len(), cs)[k] == draft_warning(drafts_for(s, epic_keys(s)).len()))
            <==> (exists|i: int| 0 <= i < s.len() && (#[trigger] s[i]).status == IssueStatus::Required),
{
    let d = drafts_for(s, epic_keys(s));
    lemma_restore_drafts(s);
    let texts = session_warning_texts(d.len(), cs);
    lemma_expansion_texts_start(cs);
    reveal_strlit("미승인 draft 이슈 ");
    assert(draft_warning(d.len())[0] == '미');
    if d.len() > 0 {
        assert(texts[0] == draft_warning(d.len()));
    } else {
        assert(texts =~= expansion_warnings(cs));
        if exists|k: int| 0 <= k < texts.len() && #[trigger] texts[k] == draft_warning(d.len()) {
            let k = choose|k: int| 0 <= k < texts.len() && #[trigger] texts[k] == draft_warning(d.len());
            assert(texts[k][0] == '스');
        }
    }
}

/// The total size of a list of groups.
pub open spec fn group_sizes(g: Seq<(i64, Seq<Issue>)>) -> nat
    decreases g.len(),
{
    if g.len() == 0 {
        0
    } else {
        group_sizes(g.drop_last()) + g.last().1.len()
    }
}

proof fn lemma_keep_all<T>(s: Seq<T>, p: spec_fn(T) -> bool)
    ensures
        forall|t: int| 0 <= t < keep(s, p).len() ==> p(#[trigger] keep(s, p)[t]),
        keep(s, p).len() <= s.len(),
    decreases s.len(),
{
    if s.len() > 0 {
        lemma_keep_all(s.drop_last(), p);
    }
}

/// The sizes of the groups of `keys` over `s` add up to the issues whose
/// epic is among `keys`, when the keys are distinct.
spec fn sizes_for(s: Seq<Issue>, keys: Seq<i64>) -> nat
    decreases keys.len(),
{
    if keys.len() == 0 {
        0
    } else {
        sizes_for(s, keys.drop_last()) + issues_of_epic(s, keys.last()).len()
    }
}

proof fn lemma_sizes_for_push(s: Seq<Issue>, keys: Seq<i64>, x: Issue)
    requires
        keys.no_duplicates(),
    ensures
        sizes_for(s.push(x), keys) == sizes_for(s, keys) + (if keys.contains(x.epic_id) { 1nat } else { 0nat }),
    decreases keys.len(),
{
    if keys.len() > 0 {
        let k = keys.drop_last();
        assert(k.no_duplicates()) by {
            assert forall|a: int, b: int| 0 <= a < k.len() && 0 <= b < k.len() && a != b implies k[a] != k[b] by {
                assert(k[a] == keys[a] && k[b] == keys[b]);
            }
        }
        lemma_sizes_for_push(s, k, x);
        lemma_keep_push(s, x, |y: Issue| y.epic_id == keys.last());
        if keys.last() == x.epic_id {
            assert(!k.contains(x.epic_id)) by {
                if k.contains(x.epic_id) {
                    let a = choose|a: int| 0 <= a < k.len() && k[a] == x.epic_id;
                    assert(keys[a] == keys[keys.len() - 1]);
                }
            }
        } else {
            assert(keys.contains(x.epic_id) == k.contains(x.epic_id)) by {
                if keys.contains(x.epic_id) {
                    let a = choose|a: int| 0 <= a < keys.len() && keys[a] == x.epic_id;
                    assert(k[a] == keys[a]);
                }
                if k.contains(x.epic_id) {
                    let a = choose|a: int| 0 <= a < k.len() && k[a] == x.epic_id;
                    assert(keys[a] == k[a]);
                }
            }
        }
    }
}

proof fn lemma_sizes_cover(s: Seq<Issue>)
    ensures
        sizes_for(s, epic_keys(s)) == s.len(),
    decreases s.len(),
{
    if s.len() > 0 {
        let t = s.drop_last();
        let x = s.last();
        lemma_sizes_cover(t);
        lemma_epic_keys_distinct(t);
        lemma_epic_keys_distinct(s);
        assert(s =~= t.push(x));
        let k = epic_keys(t);
        if k.contains(x.epic_id) {
            assert(k.no_duplicates());
            lemma_sizes_for_push(t, k, x);
        } else {
            assert(k.no_duplicates());
            lemma_sizes_for_push(t, k, x);
            lemma_keep_push(t, x, |y: Issue| y.epic_id == x.epic_id);
            lemma_no_key_no_issues(t, x.epic_id);
            assert(k.push(x.epic_id).drop_last() =~= k);
        }
    }
}

proof fn lemma_group_sizes_match(s: Seq<Issue>, n: int)
    requires
        0 <= n <= epic_keys(s).len(),
    ensures
        group_sizes(epic_groups(s).take(n)) == sizes_for(s, epic_keys(s).take(n)),
    decreases n,
{
    if n > 0 {
        lemma_group_sizes_match(s, n - 1);
        assert(epic_groups(s).take(n).drop_last() =~= epic_groups(s).take(n - 1));
        assert(epic_keys(s).take(n).drop_last() =~= epic_keys(s).take(n - 1));
    }
}

proof fn lemma_group_sizes(s: Seq<Issue>)
    ensures
        group_sizes(epic_groups(s)) == s.len(),
{
    lemma_group_sizes_match(s, epic_keys(s).len() as int);
    assert(epic_groups(s).take(epic_keys(s).len() as int) =~= epic_groups(s));
    assert(epic_keys(s).take(epic_keys(s).len() as int) =~= epic_keys(s));
    lemma_sizes_cover(s);
}

/// The position of an issue's current task among its tasks in order: the
/// first ready one, if any.
pub fn current_task_index(statuses: &Vec<TaskStatus>) -> (r: Option<usize>)
    ensures
        match r {
            Some(k) => k < statuses@.len() && statuses@[k as int] == TaskStatus::Ready
                && forall|j: int| 0 <= j < k ==> statuses@[j] != TaskStatus::Ready,
            None => forall|j: int| 0 <= j < statuses@.len() ==> statuses@[j] != TaskStatus::Ready,
        },
{
    let mut k: usize = 0;
    while k < statuses.len()
        invariant
            k <= statuses@.len(),
            forall|j: int| 0 <= j < k ==> statuses@[j] != TaskStatus::Ready,
        decreases statuses@.len() - k,
    {
        if statuses[k] == TaskStatus::Ready {
            return Some(k);
        }
        k = k + 1;
    }
    None
}

/// An active issue in compact form: counts in place of its notes and tasks.
#[derive(Clone, Debug)]
pub struct IssueSnapshotCompact {
    pub issue: Issue,
    pub task_count: i64,
    pub note_count: i64,
    pub blocked_by_ids: Vec<i64>,
}

/// The count recorded for `id` among `(id, count)` rows: that of the last
/// row with this id, or 0 when there is none.
pub open spec fn count_for(rows: Seq<(i64, i64)>, id: i64) -> i64
    decreases rows.len(),
{
    if rows.len() == 0 {
        0
    } else if rows.last().0 == id {
        rows.last().1
    } else {
        count_for(rows.drop_last(), id)
    }
}

/// The sources of the `(target, source)` blocking links aimed at `id`, in
/// order.
pub open spec fn blockers_of(links: Seq<(i64, i64)>, id: i64) -> Seq<i64>
    decreases links.len(),
{
    if links.len() == 0 {
        Seq::empty()
    } else if links.last().0 == id {
        blockers_of(links.drop_last(), id).push(links.last().1)
    } else {
        blockers_of(links.drop_last(), id)
    }
}

/// Whether an issue with id `id` comes before position `p` of `s`.
pub open spec fn seen_before(s: Seq<Issue>, p: int, id: i64) -> bool {
    exists|q: int| 0 <= q < p && s[q].id == id
}

fn count_lookup(rows: &Vec<(i64, i64)>, id: i64) -> (r: i64)
    ensures
        r == count_for(rows@, id),
{
    let mut k = rows.len();
    assert(rows@.take(k as int) =~= rows@);
    while k > 0
        invariant
            k <= rows@.len(),
            count_for(rows@, id) == count_for(rows@.take(k as int), id),
        decreases k,
    {
        assert(rows@.take(k as int).drop_last() =~= rows@.take(k - 1));
        if rows[k - 1].0 == id {
            return rows[k - 1].1;
        }
        k = k - 1;
    }
    0
}

fn blockers_lookup(links: &Vec<(i64, i64)>, id: i64) -> (r: Vec<i64>)
    ensures
        r@ == blockers_of(links@, id),
{
    let mut out: Vec<i64> = Vec::new();
    let mut k: usize = 0;
    while k < links.len()
        invariant
            k <= links@.len(),
            out@ == blockers_of(links@.take(k as int), id),
        decreases links@.len() - k,
    {
        assert(links@.take(k + 1).drop_last() =~= links@.take(k as int));
        if links[k].0 == id {
            out.push(links[k].1);
        }
        k = k + 1;
    }
    assert(links@.take(k as int) =~= links@);
    out
}

/// Builds the compact form of each active issue from the per-issue task
/// counts, unresolved note counts and `(target, source)` blocking links. An
/// issue that appears a second time gets no blockers the second time.
pub fn compact_snapshots(
    active: Vec<Issue>,
    task_counts: &Vec<(i64, i64)>,
    note_counts: &Vec<(i64, i64)>,
    links: &Vec<(i64, i64)>,
) -> (r: Vec<IssueSnapshotCompact>)
    ensures
        r@.len() == active@.len(),
        forall|p: int| 0 <= p < active@.len() ==> {
            &&& (#[trigger] r@[p]).issue == active@[p]
            &&& r@[p].task_count == count_for(task_counts@, active@[p].id)
            &&& r@[p].note_count == count_for(note_counts@, active@[p].id)
            &&& r@[p].blocked_by_ids@ == (if seen_before(active@, p, active@[p].id) {
                Seq::<i64>::empty()
            } else {
                blockers_of(links@, active@[p].id)
            })
        },
{
    let ghost s = active@;
    let n = active.len();
    let mut rest = active;
    let mut ids: Vec<i64> = Vec::new();
    let mut out: Vec<IssueSnapshotCompact> = Vec::new();
    let mut i: usize = 0;
    while rest.len() > 0
        invariant
            s.len() == n,
            i <= n,
            rest@ == s.skip(i as int),
            ids@.len() == i,
            forall|q: int| 0 <= q < i ==> ids@[q] == s[q].id,
            out@.len() == i,
            forall|p: int| 0 <= p < i ==> {
                &&& (#[trigger] out@[p]).issue == s[p]
                &&& out@[p].task_count == count_for(task_counts@, s[p].id)
                &&& out@[p].note_count == count_for(note_counts@, s[p].id)
                &&& out@[p].blocked_by_ids@ == (if seen_before(s, p, s[p].id) {
                    Seq::<i64>::empty()
                } else {
                    blockers_of(links@, s[p].id)
                })
            },
        decreases rest.len(),
    {
        let x = rest.remove(0);
        assert(x == s[i as int]);
        let id = x.id;
        let mut q: usize = 0;
        while q < ids.len() && ids[q] != id
            invariant
                q <= ids@.len(),
                forall|t: int| 0 <= t < q ==> ids@[t] != id,
            decreases ids@.len() - q,
        {
            q = q + 1;
        }
        let blocked = if q < ids.len() {
            assert(s[q as int].id == id);
            Vec::new()
        } else {
            assert(!seen_before(s, i as int, id)) by {
                if seen_before(s, i as int, id) {
                    let t = choose|t: int| 0 <= t < i && s[t].id == id;
                    assert(ids@[t] == id);
                }
            }
            blockers_lookup(links, id)
        };
        let snap = IssueSnapshotCompact {
            issue: x,
            task_count: count_lookup(task_counts, id),
            note_count: count_lookup(note_counts, id),
            blocked_by_ids: blocked,
        };
        out.push(snap);
        ids.push(id);
        i = i + 1;
        assert(rest@ =~= s.skip(i as int));
    }
    out
}

/// The per-issue task figures that decide scope expansion.
#[derive(Clone, Debug)]
pub struct ScopeCheck {
    pub issue_id: i64,
    pub issue_title: String,
    /// Tasks of the issue found by agents while working.
    pub discovered: i64,
    /// All tasks of the issue.
    pub total: i64,
}

/// The share (in whole percent, rounded down) of discovered tasks.
pub open spec fn discovered_rate(c: ScopeCheck) -> int {
    (c.discovered * 100) / (c.total as int)
}

/// An issue whose tasks are more than half discovered ones.
pub open spec fn expands(c: ScopeCheck) -> bool {
    c.total > 0 && discovered_rate(c) > 50
}

/// The warning about pending drafts.
pub open spec fn draft_warning(n: nat) -> Seq<char> {
    "미승인 draft 이슈 "@ + nat_decimal(n) + "건이 있습니다. 승인 또는 취소가 필요합니다."@
}

/// The warning about an issue whose scope expanded.
pub open spec fn expansion_warning(c: ScopeCheck) -> Seq<char> {
    "스코프 팽창 감지: 이슈 #"@ + int_decimal(c.issue_id as int) + " '"@ + c.issue_title@ + "' 태스크의 "@
        + int_decimal(discovered_rate(c)) + "%가 agent_discovered ("@ + int_decimal(c.discovered as int)
        + "/"@ + int_decimal(c.total as int) + "건)"@
}

/// The expansion warnings of `cs`, in order.
pub open spec fn expansion_warnings(cs: Seq<ScopeCheck>) -> Seq<Seq<char>>
    decreases cs.len(),
{
    if cs.len() == 0 {
        Seq::empty()
    } else if expands(cs.last()) {
        expansion_warnings(cs.drop_last()).push(expansion_warning(cs.last()))
    } else {
        expansion_warnings(cs.drop_last())
    }
}

/// The issues named by the expansion warnings of `cs` (a negative id is not
/// read back from a warning), in order.
pub open spec fn expansion_ids(cs: Seq<ScopeCheck>) -> Seq<i64>
    decreases cs.len(),
{
    if cs.len() == 0 {
        Seq::empty()
    } else if expands(cs.last()) && cs.last().issue_id >= 0 {
        expansion_ids(cs.drop_last()).push(cs.last().issue_id)
    } else {
        expansion_ids(cs.drop_last())
    }
}

/// The views of a list of texts.
pub open spec fn text_views(v: Seq<String>) -> Seq<Seq<char>> {
    Seq::new(v.len(), |i: int| v[i]@)
}

/// A session's warnings: pending drafts first (when there are any), then one
/// per issue whose tasks are more than half discovered ones.
pub open spec fn session_warning_texts(draft_count: nat, cs: Seq<ScopeCheck>) -> Seq<Seq<char>> {
    (if draft_count > 0 { seq![draft_warning(draft_count)] } else { Seq::empty() }) + expansion_warnings(cs)
}

fn push_text(v: &mut Vec<String>, t: String)
    ensures
        text_views(final(v)@) == text_views(old(v)@).push(t@),
{
    let ghost before = v@;
    v.push(t);
    assert(text_views(v@) =~= text_views(before).push(t@));
}

fn expansion_text(c: &ScopeCheck, rate: i64) -> (r: String)
    requires
        rate == discovered_rate(*c),
    ensures
        r@ == expansion_warning(*c),
{
    let mut w = String::from_str("스코프 팽창 감지: 이슈 #");
    push_i64(&mut w, c.issue_id);
    push_str(&mut w, " '");
    push_str(&mut w, c.issue_title.as_str());
    push_str(&mut w, "' 태스크의 ");
    push_i64(&mut w, rate);
    push_str(&mut w, "%가 agent_discovered (");
    push_i64(&mut w, c.discovered);
    push_str(&mut w, "/");
    push_i64(&mut w, c.total);
    push_str(&mut w, "건)");
    w
}

/// The warnings of a session restore and the ids of the issues whose scope
/// expanded; see [`session_warning_texts`] and [`expansion_ids`].
pub fn session_warnings(draft_count: usize, checks: &Vec<ScopeCheck>) -> (r: (Vec<String>, Vec<i64>))
    requires
        forall|i: int| 0 <= i < checks@.len() ==> 0 <= (#[trigger] checks@[i]).discovered <= i64::MAX / 100
            && checks@[i].total >= 0,
    ensures
        text_views(r.0@) == session_warning_texts(draft_count as nat, checks@),
        r.1@ == expansion_ids(checks@),
{
    let mut warnings: Vec<String> = Vec::new();
    if draft_count > 0 {
        let mut w = String::from_str("미승인 draft 이슈 ");
        push_u64(&mut w, draft_count as u64);
        push_str(&mut w, "건이 있습니다. 승인 또는 취소가 필요합니다.");
        push_text(&mut warnings, w);
    }
    let ghost head = text_views(warnings@);
    assert(head == (if draft_count > 0 { seq![draft_warning(draft_count as nat)] } else { Seq::<Seq<char>>::empty() }));
    let mut ids: Vec<i64> = Vec::new();
    let mut k: usize = 0;
    while k < checks.len()
        invariant
            k <= checks@.len(),
            forall|i: int| 0 <= i < checks@.len() ==> 0 <= (#[trigger] checks@[i]).discovered <= i64::MAX / 100
                && checks@[i].total >= 0,
            text_views(warnings@) == head + expansion_warnings(checks@.take(k as int)),
            ids@ == expansion_ids(checks@.take(k as int)),
        decreases checks@.len() - k,
    {
        let c = &checks[k];
        assert(checks@.take(k + 1).drop_last() =~= checks@.take(k as int));
        assert(checks@.take(k + 1).last() == *c);
        if c.total > 0 {
            let rate = c.discovered * 100 / c.total;
            if rate > 50 {
                let w = expansion_text(c, rate);
                push_text(&mut warnings, w);
                assert(head + expansion_warnings(checks@.take(k as int)).push(w@)
                    =~= (head + expansion_warnings(checks@.take(k as int))).push(w@));
                if c.issue_id >= 0 {
                    ids.push(c.issue_id);
                }
            }
        }
        k = k + 1;
    }
    assert(checks@.take(k as int) =~= checks@);
    (warnings, ids)
}

/// One more scope check adds a warning, and (for a non-negative id) the
/// issue's id, exactly when the issue has tasks and more than half of them
/// (in whole percent, rounded down) were found by agents; otherwise it adds
/// nothing.
pub proof fn law_scope_expansion_reported(cs: Seq<ScopeCheck>, c: ScopeCheck)
    ensures
        c.total > 0 && (c.discovered * 100) / (c.total as int) > 50
            ==> expansion_warnings(cs.push(c)) == expansion_warnings(cs).push(expansion_warning(c)),
        !(c.total > 0 && (c.discovered * 100) / (c.total as int) > 50)
            ==> expansion_warnings(cs.push(c)) == expansion_warnings(cs),
        c.total > 0 && (c.discovered * 100) / (c.total as int) > 50 && c.issue_id >= 0
            ==> expansion_ids(cs.push(c)) == expansion_ids(cs).push(c.issue_id),
        !(c.total > 0 && (c.discovered * 100) / (c.total as int) > 50 && c.issue_id >= 0)
            ==> expansion_ids(cs.push(c)) == expansion_ids(cs),
{
    assert(cs.push(c).drop_last() =~= cs);
    assert(cs.push(c).last() == c);
}

/// The draft warning comes first, and only when drafts are pending; the
/// scope warnings follow whatever the draft count.
pub proof fn law_draft_warning_comes_first(n: nat, cs: Seq<ScopeCheck>)
    ensures
        session_warning_texts(0, cs) == expansion_warnings(cs),
        n > 0 ==> session_warning_texts(n, cs) == seq![draft_warning(n)] + session_warning_texts(0, cs),
{
    assert(Seq::<Seq<char>>::empty() + expansion_warnings(cs) =~= expansion_warnings(cs));
}

/// The scope-expansion ids match the scope-expansion warnings: one id per
/// warning, except for issues with a negative id.
pub proof fn law_expansion_ids_follow_warnings(cs: Seq<ScopeCheck>)
    requires
        forall|i: int| 0 <= i < cs.len() ==> (#[trigger] cs[i]).issue_id >= 0,
    ensures
        expansion_ids(cs).len() == expansion_warnings(cs).len(),
        forall|t: int| 0 <= t < expansion_ids(cs).len() ==> exists|i: int| 0 <= i < cs.len()
            && cs[i].issue_id == #[trigger] expansion_ids(cs)[t] && expands(cs[i]),
    decreases cs.len(),
{
    if cs.len() > 0 {
        let d = cs.drop_last();
        assert forall|i: int| 0 <= i < d.len() implies (#[trigger] d[i]).issue_id >= 0 by {
            assert(d[i] == cs[i]);
        }
        law_expansion_ids_follow_warnings(d);
        assert forall|t: int| 0 <= t < expansion_ids(cs).len() implies exists|i: int| 0 <= i < cs.len()
            && cs[i].issue_id == #[trigger] expansion_ids(cs)[t] && expands(cs[i]) by {
            if t < expansion_ids(d).len() {
                let i = choose|i: int| 0 <= i < d.len() && d[i].issue_id == expansion_ids(d)[t] && expands(d[i]);
                assert(cs[i] == d[i]);
            } else {
                assert(cs[cs.len() - 1].issue_id == expansion_ids(cs)[t]);
            }
        }
    }
}

/// A task that is being worked on, with its issue.
#[derive(Clone, Debug)]
pub struct TaskBrief {
    pub id: i64,
    pub title: String,
    pub issue_id: i64,
    pub issue_title: String,
}

/// The end-of-session checklist.
#[derive(Clone, Debug)]
pub struct SessionEndResult {
    pub warnings: Vec<String>,
    pub in_progress_tasks: Vec<TaskBrief>,
    /// No warning was raised.
    pub ok: bool,
}

/// The warning about a working task whose issue has no open context note.
pub open spec fn missing_context_warning(issue_title: Seq<char>) -> Seq<char> {
    "이슈 '"@ + issue_title + "': context note가 없습니다. 다음 세션 인수인계를 위해 기록을 남겨주세요."@
}

/// One warning per working task whose issue has no open context note, in
/// order.
pub open spec fn missing_context_warnings(tasks: Seq<TaskBrief>, has_context: Seq<bool>) -> Seq<Seq<char>>
    decreases tasks.len(),
{
    if tasks.len() == 0 {
        Seq::empty()
    } else if has_context[tasks.len() - 1] {
        missing_context_warnings(tasks.drop_last(), has_context)
    } else {
        missing_context_warnings(tasks.drop_last(), has_context).push(missing_context_warning(tasks.last().issue_title@))
    }
}

/// The end-of-session checklist of the working tasks, given for each whether
/// its issue has an open context note.
pub fn session_end_result(tasks: Vec<TaskBrief>, has_context: &Vec<bool>) -> (r: SessionEndResult)
    requires
        tasks@.len() == has_context@.len(),
    ensures
        r.in_progress_tasks@ == tasks@,
        text_views(r.warnings@) == missing_context_warnings(tasks@, has_context@),
        r.ok == (r.warnings@.len() == 0),
{
    let mut warnings: Vec<String> = Vec::new();
    let mut k: usize = 0;
    while k < tasks.len()
        invariant
            k <= tasks@.len(),
            tasks@.len() == has_context@.len(),
            text_views(warnings@) == missing_context_warnings(tasks@.take(k as int), has_context@),
        decreases tasks@.len() - k,
    {
        assert(tasks@.take(k + 1).drop_last() =~= tasks@.take(k as int));
        if !has_context[k] {
            let mut w = String::from_str("이슈 '");
            push_str(&mut w, tasks[k].issue_title.as_str());
            push_str(&mut w, "': context note가 없습니다. 다음 세션 인수인계를 위해 기록을 남겨주세요.");
            push_text(&mut warnings, w);
        }
        k = k + 1;
    }
    assert(tasks@.take(k as int) =~= tasks@);
    let ok = warnings.len() == 0;
    SessionEndResult { warnings, in_progress_tasks: tasks, ok }
}

proof fn lemma_no_missing_context(tasks: Seq<TaskBrief>, has_context: Seq<bool>)
    requires
        tasks.len() <= has_context.len(),
    ensures
        (missing_context_warnings(tasks, has_context).len() == 0)
            == (forall|i: int| 0 <= i < tasks.len() ==> #[trigger] has_context[i]),
    decreases tasks.len(),
{
    if tasks.len() > 0 {
        lemma_no_missing_context(tasks.drop_last(), has_context);
    }
}

/// A session ends cleanly exactly when every working task's issue has an
/// open context note.
pub proof fn law_session_end_ok_iff_context_everywhere(tasks: Seq<TaskBrief>, has_context: Seq<bool>)
    requires
        tasks.len() == has_context.len(),
    ensures
        (missing_context_warnings(tasks, has_context).len() == 0)
            == (forall|i: int| 0 <= i < tasks.len() ==> #[trigger] has_context[i]),
{
    lemma_no_missing_context(tasks, has_context);
}

/// An agent holding a working issue of the sprint.
#[derive(Clone, Debug)]
pub struct ActiveWorker {
    pub issue_id: i64,
    pub issue_title: String,
    pub agent_id: String,
    pub project_key: String,
    /// When the issue entered working.
    pub since: String,
}

/// The sprint name reported when no sprint is active.
pub const NO_ACTIVE_SPRINT_NAME: &'static str = "활성 스프린트 없음";

/// The warning of a session restore when no sprint is active.
pub const NO_ACTIVE_SPRINT_WARNING: &'static str = "활성 스프린트가 없습니다. sprint_create로 시작하세요.";

/// The default size limit of a session restore, in characters of its JSON
/// form.
pub const SESSION_SIZE_LIMIT: usize = 25000;

/// The size of the first `k` epics of a restore in its JSON form: their own
/// sizes and the commas between them.
pub open spec fn epics_size(sizes: Seq<usize>, k: nat) -> nat
    decreases k,
{
    if k == 0 {
        0
    } else {
        epics_size(sizes, (k - 1) as nat) + (sizes[k - 1] as nat) + (if k > 1 { 1nat } else { 0nat })
    }
}

/// The restore with only its first `k` epics fits the limit.
pub open spec fn epics_fit(base: nat, sizes: Seq<usize>, k: nat, limit: nat) -> bool {
    base + epics_size(sizes, k) <= limit
}

/// The items left out when only the epics before `k` are kept: each later
/// epic and the issues shown under it.
pub open spec fn items_after(items: Seq<usize>, k: int) -> nat
    decreases items.len() - k,
{
    if k < 0 || k >= items.len() {
        0
    } else {
        1nat + (items[k] as nat) + items_after(items, k + 1)
    }
}

/// How much of a session restore is kept under its size limit.
#[derive(Clone, Copy, Debug)]
pub struct SizeGuard {
    /// The number of leading epics kept.
    pub kept: usize,
    pub truncated: bool,
    /// The epics and issues left out, when any epic is.
    pub truncated_count: Option<u64>,
}

proof fn lemma_items_after_bounded(items: Seq<usize>, k: int)
    requires
        0 <= k,
    ensures
        items_after(items, k) <= items_after(items, 0),
    decreases k,
{
    if k > 0 {
        lemma_items_after_bounded(items, k - 1);
        if k - 1 < items.len() {
            assert(items_after(items, k - 1) == 1 + items[k - 1] + items_after(items, k));
        }
    }
}

/// Keeps the longest run of leading epics whose restore, measured as
/// `base` characters for everything else plus the epics' own sizes
/// (`sizes`) and the commas between them, fits `limit`; the epics after it
/// are left out and counted with the issues shown under them (`items`).
pub fn size_guard(base: usize, sizes: &Vec<usize>, items: &Vec<usize>, limit: usize) -> (r: SizeGuard)
    requires
        sizes@.len() == items@.len(),
        items_after(items@, 0) <= u64::MAX,
    ensures
        r.kept <= sizes@.len(),
        forall|j: nat| 1 <= j <= r.kept ==> #[trigger] epics_fit(base as nat, sizes@, j, limit as nat),
        r.kept < sizes@.len() ==> !epics_fit(base as nat, sizes@, (r.kept + 1) as nat, limit as nat),
        r.truncated == (r.kept < sizes@.len()),
        r.truncated_count == (if r.truncated { Some(items_after(items@, r.kept as int) as u64) } else { None::<u64> }),
{
    let n = sizes.len();
    let mut k: usize = 0;
    let mut used: usize = base;
    loop
        invariant_except_break
            k <= n,
            n == sizes@.len(),
            used == base + epics_size(sizes@, k as nat),
            used <= limit || k == 0,
            forall|j: nat| 1 <= j <= k ==> #[trigger] epics_fit(base as nat, sizes@, j, limit as nat),
        ensures
            k <= n,
            forall|j: nat| 1 <= j <= k ==> #[trigger] epics_fit(base as nat, sizes@, j, limit as nat),
            k < n ==> !epics_fit(base as nat, sizes@, (k + 1) as nat, limit as nat),
        decreases n - k,
    {
        if k >= n {
            break;
        }
        let sep: usize = if k > 0 { 1 } else { 0 };
        assert(epics_size(sizes@, (k + 1) as nat) == epics_size(sizes@, k as nat) + sizes@[k as int] + sep);
        if used > limit || sizes[k] > limit - used || sep > limit - used - sizes[k] {
            break;
        }
        used = used + sizes[k] + sep;
        k = k + 1;
    }
    if k < n {
        let mut acc: u64 = 0;
        let mut j: usize = n;
        proof {
            lemma_items_after_bounded(items@, k as int);
        }
        while j > k
            invariant
                k <= j <= n,
                n == items@.len(),
                acc == items_after(items@, j as int),
                items_after(items@, k as int) <= u64::MAX,
            decreases j - k,
        {
            proof {
                lemma_items_after_bounded(items@.subrange(0, n as int), 0);
                assert(items_after(items@, j - 1) == 1 + items@[j - 1] + items_after(items@, j as int));
                lemma_items_after_mono(items@, k as int, j - 1);
            }
            acc = acc + 1 + items[j - 1] as u64;
            j = j - 1;
        }
        SizeGuard { kept: k, truncated: true, truncated_count: Some(acc) }
    } else {
        SizeGuard { kept: k, truncated: false, truncated_count: None }
    }
}

proof fn lemma_items_after_mono(items: Seq<usize>, a: int, b: int)
    requires
        0 <= a <= b,
    ensures
        items_after(items, b) <= items_after(items, a),
    decreases b - a,
{
    if a < b {
        lemma_items_after_mono(items, a + 1, b);
        if a < items.len() {
            assert(items_after(items, a) == 1 + items[a] + items_after(items, a + 1));
        } else {
            assert(items_after(items, a + 1) == 0);
        }
    }
}

/// The warning of a restore cut down to its size limit.
pub open spec fn size_warning(limit: nat, left_out: nat) -> Seq<char> {
    "세션 스냅샷이 크기 제한("@ + nat_decimal(limit) + "자)을 넘어 "@ + nat_decimal(left_out) + "개 항목을 생략했습니다."@
}

/// The warning of a restore cut down to its size limit; see
/// [`size_warning`].
pub fn size_warning_text(limit: usize, left_out: u64) -> (r: String)
    ensures
        r@ == size_warning(limit as nat, left_out as nat),
{
    let mut w = String::from_str("세션 스냅샷이 크기 제한(");
    push_u64(&mut w, limit as u64);
    push_str(&mut w, "자)을 넘어 ");
    push_u64(&mut w, left_out);
    push_str(&mut w, "개 항목을 생략했습니다.");
    w
}

/// A project's column of the kanban board: its sprint issues by status.
#[derive(Clone, Debug)]
pub struct IssueProjectBoard {
    pub project_key: String,
    pub required: Vec<Issue>,
    pub ready: Vec<Issue>,
    pub working: Vec<Issue>,
    pub demo: Vec<Issue>,
    pub finished: Vec<Issue>,
    pub cancelled: Vec<Issue>,
}

/// The kanban board of the current sprint, one entry per project.
#[derive(Clone, Debug)]
pub struct IssueBoardStatus {
    pub sprint_id: i64,
    pub sprint_name: String,
    pub project_key: Option<String>,
    pub boards: Vec<IssueProjectBoard>,
}

/// The issues of a board with status `st`.
pub open spec fn board_bucket(b: IssueProjectBoard, st: IssueStatus) -> Seq<Issue> {
    match st {
        IssueStatus::Required => b.required@,
        IssueStatus::Ready => b.ready@,
        IssueStatus::Working => b.working@,
        IssueStatus::Demo => b.demo@,
        IssueStatus::Finished => b.finished@,
        IssueStatus::Cancelled => b.cancelled@,
    }
}

/// The distinct projects of `(project, issue)` rows, in order of first
/// appearance.
pub open spec fn project_keys(rows: Seq<(String, Issue)>) -> Seq<Seq<char>>
    decreases rows.len(),
{
    if rows.len() == 0 {
        Seq::empty()
    } else if project_keys(rows.drop_last()).contains(rows.last().0@) {
        project_keys(rows.drop_last())
    } else {
        project_keys(rows.drop_last()).push(rows.last().0@)
    }
}

/// The issues of project `p` with status `st`, in row order.
pub open spec fn rows_bucket(rows: Seq<(String, Issue)>, p: Seq<char>, st: IssueStatus) -> Seq<Issue>
    decreases rows.len(),
{
    if rows.len() == 0 {
        Seq::empty()
    } else if rows.last().0@ == p && rows.last().1.status == st {
        rows_bucket(rows.drop_last(), p, st).push(rows.last().1)
    } else {
        rows_bucket(rows.drop_last(), p, st)
    }
}

proof fn lemma_no_project_no_rows(rows: Seq<(String, Issue)>, p: Seq<char>, st: IssueStatus)
    requires
        !project_keys(rows).contains(p),
    ensures
        rows_bucket(rows, p, st) == Seq::<Issue>::empty(),
    decreases rows.len(),
{
    if rows.len() > 0 {
        let k = project_keys(rows.drop_last());
        if k.contains(p) {
            let j = choose|j: int| 0 <= j < k.len() && k[j] == p;
            assert(project_keys(rows)[j] == p);
        }
        lemma_no_project_no_rows(rows.drop_last(), p, st);
        if rows.last().0@ == p {
            if k.contains(p) {
            } else {
                assert(project_keys(rows)[k.len() as int] == p);
            }
        }
    }
}

proof fn lemma_project_keys_distinct(rows: Seq<(String, Issue)>)
    ensures
        forall|a: int, b: int| 0 <= a < b < project_keys(rows).len() ==> project_keys(rows)[a] != project_keys(rows)[b],
    decreases rows.len(),
{
    if rows.len() > 0 {
        let t = rows.drop_last();
        lemma_project_keys_distinct(t);
        let k = project_keys(t);
        if !k.contains(rows.last().0@) {
            assert forall|a: int, b: int| 0 <= a < b < project_keys(rows).len() implies project_keys(rows)[a] != project_keys(rows)[b] by {
                if b == k.len() {
                    assert(project_keys(rows)[a] == k[a]);
                }
            }
        }
    }
}

fn empty_board(project_key: String) -> (b: IssueProjectBoard)
    ensures
        b.project_key == project_key,
        forall|st: IssueStatus| board_bucket(b, st) == Seq::<Issue>::empty(),
{
    IssueProjectBoard {
        project_key,
        required: Vec::new(),
        ready: Vec::new(),
        working: Vec::new(),
        demo: Vec::new(),
        finished: Vec::new(),
        cancelled: Vec::new(),
    }
}

fn board_add(b: &mut IssueProjectBoard, x: Issue)
    ensures
        final(b).project_key == old(b).project_key,
        forall|st: IssueStatus| board_bucket(*final(b), st) == (if st == x.status {
            board_bucket(*old(b), st).push(x)
        } else {
            board_bucket(*old(b), st)
        }),
{
    match x.status {
        IssueStatus::Required => b.required.push(x),
        IssueStatus::Ready => b.ready.push(x),
        IssueStatus::Working => b.working.push(x),
        IssueStatus::Demo => b.demo.push(x),
        IssueStatus::Finished => b.finished.push(x),
        IssueStatus::Cancelled => b.cancelled.push(x),
    }
}

/// Lays the sprint's `(project, issue)` rows out as a kanban board: one
/// entry per project in order of first appearance, each issue in the column
/// of its status, in row order.
pub fn board_from_rows(rows: Vec<(String, Issue)>) -> (r: Vec<IssueProjectBoard>)
    ensures
        r@.len() == project_keys(rows@).len(),
        forall|j: int| 0 <= j < r@.len() ==> (#[trigger] r@[j]).project_key@ == project_keys(rows@)[j],
        forall|j: int, st: IssueStatus| 0 <= j < r@.len() ==> #[trigger] board_bucket(r@[j], st) == rows_bucket(rows@, project_keys(rows@)[j], st),
        forall|x: Issue| #[trigger] boards_count(r@, x) == row_count(rows@, x),
{
    let ghost s = rows@;
    let n = rows.len();
    let mut rest = rows;
    let mut boards: Vec<IssueProjectBoard> = Vec::new();
    let mut i: usize = 0;
    while rest.len() > 0
        invariant
            s.len() == n,
            i <= n,
            rest@ == s.skip(i as int),
            boards@.len() == project_keys(s.take(i as int)).len(),
            forall|j: int| 0 <= j < boards@.len() ==> (#[trigger] boards@[j]).project_key@ == project_keys(s.take(i as int))[j],
            forall|j: int, st: IssueStatus| 0 <= j < boards@.len() ==> #[trigger] board_bucket(boards@[j], st) == rows_bucket(s.take(i as int), project_keys(s.take(i as int))[j], st),
        decreases rest.len(),
    {
        let ghost pre = s.take(i as int);
        let row = rest.remove(0);
        assert(row == s[i as int]);
        assert(s.take(i + 1) =~= pre.push(row));
        assert(s.take(i + 1).drop_last() =~= pre);
        proof {
            lemma_project_keys_distinct(pre);
        }
        let (proj, x) = row;
        let mut k: usize = 0;
        while k < boards.len() && !crate::text::str_eq(boards[k].project_key.as_str(), proj.as_str())
            invariant
                k <= boards@.len(),
                forall|j: int| 0 <= j < k ==> boards@[j].project_key@ != proj@,
            decreases boards@.len() - k,
        {
            k = k + 1;
        }
        let ghost old_boards = boards@;
        if k < boards.len() {
            let mut b = boards.remove(k);
            board_add(&mut b, x);
            boards.insert(k, b);
            proof {
                assert(project_keys(pre).contains(proj@)) by {
                    assert(project_keys(pre)[k as int] == proj@);
                }
                assert forall|j: int, st: IssueStatus| 0 <= j < boards@.len() implies #[trigger] board_bucket(boards@[j], st) == rows_bucket(s.take(i + 1), project_keys(s.take(i + 1))[j], st) by {
                    if j != k {
                        assert(boards@[j] == old_boards[j]);
                    }
                }
                assert forall|j: int| 0 <= j < boards@.len() implies (#[trigger] boards@[j]).project_key@ == project_keys(s.take(i + 1))[j] by {
                    if j != k {
                        assert(boards@[j] == old_boards[j]);
                    }
                }
            }
        } else {
            let mut b = empty_board(proj);
            board_add(&mut b, x);
            boards.push(b);
            proof {
                assert(!project_keys(pre).contains(proj@)) by {
                    if project_keys(pre).contains(proj@) {
                        let j = choose|j: int| 0 <= j < project_keys(pre).len() && project_keys(pre)[j] == proj@;
                        assert(old_boards[j].project_key@ == proj@);
                    }
                }
                assert(row.0@ == proj@);
                assert forall|j: int, st: IssueStatus| 0 <= j < boards@.len() implies #[trigger] board_bucket(boards@[j], st) == rows_bucket(s.take(i + 1), project_keys(s.take(i + 1))[j], st) by {
                    if j < old_boards.len() {
                        assert(boards@[j] == old_boards[j]);
                    } else {
                        lemma_no_project_no_rows(pre, row.0@, st);
                    }
                }
                assert forall|j: int| 0 <= j < boards@.len() implies (#[trigger] boards@[j]).project_key@ == project_keys(s.take(i + 1))[j] by {
                    if j < old_boards.len() {
                        assert(boards@[j] == old_boards[j]);
                    }
                }
            }
        }
        i = i + 1;
        assert(rest@ =~= s.skip(i as int));
    }
    assert(s.take(i as int) =~= s);
    proof {
        assert forall|x: Issue| #[trigger] boards_count(boards@, x) == row_count(s, x) by {
            law_board_shows_each_issue_once(s, boards@, x);
        }
    }
    boards
}

proof fn lemma_rows_bucket_has(rows: Seq<(String, Issue)>, i: int)
    requires
        0 <= i < rows.len(),
    ensures
        rows_bucket(rows, rows[i].0@, rows[i].1.status).contains(rows[i].1),
        project_keys(rows).contains(rows[i].0@),
    decreases rows.len(),
{
    let t = rows.drop_last();
    if i < t.len() {
        assert(t[i] == rows[i]);
        lemma_rows_bucket_has(t, i);
        let b = rows_bucket(t, rows[i].0@, rows[i].1.status);
        let q = choose|q: int| 0 <= q < b.len() && b[q] == rows[i].1;
        if rows.last().0@ == rows[i].0@ && rows.last().1.status == rows[i].1.status {
            assert(rows_bucket(rows, rows[i].0@, rows[i].1.status)[q] == rows[i].1);
        } else {
            assert(rows_bucket(rows, rows[i].0@, rows[i].1.status)[q] == rows[i].1);
        }
        let k = project_keys(t);
        let j = choose|j: int| 0 <= j < k.len() && k[j] == rows[i].0@;
        assert(project_keys(rows)[j] == rows[i].0@);
    } else {
        let b = rows_bucket(rows, rows[i].0@, rows[i].1.status);
        assert(b[b.len() - 1] == rows[i].1);
        let k = project_keys(t);
        if k.contains(rows.last().0@) {
        } else {
            assert(project_keys(rows)[k.len() as int] == rows[i].0@);
        }
    }
}

/// Every issue of the sprint shows on the board: in the entry of its
/// project, in the column of its status; and no project has two entries.
pub proof fn law_board_shows_every_issue(rows: Seq<(String, Issue)>)
    ensures
        forall|a: int, b: int| 0 <= a < b < project_keys(rows).len() ==> project_keys(rows)[a] != project_keys(rows)[b],
        forall|i: int| 0 <= i < rows.len() ==> exists|j: int| 0 <= j < project_keys(rows).len()
            && project_keys(rows)[j] == (#[trigger] rows[i]).0@
            && rows_bucket(rows, project_keys(rows)[j], rows[i].1.status).contains(rows[i].1),
{
    lemma_project_keys_distinct(rows);
    assert forall|i: int| 0 <= i < rows.len() implies exists|j: int| 0 <= j < project_keys(rows).len()
        && project_keys(rows)[j] == (#[trigger] rows[i]).0@
        && rows_bucket(rows, project_keys(rows)[j], rows[i].1.status).contains(rows[i].1) by {
        lemma_rows_bucket_has(rows, i);
        let j = choose|j: int| 0 <= j < project_keys(rows).len() && project_keys(rows)[j] == rows[i].0@;
    }
}

/// How often `x` occurs in `s`.
pub open spec fn issue_count(s: Seq<Issue>, x: Issue) -> nat
    decreases s.len(),
{
    if s.len() == 0 {
        0
    } else {
        issue_count(s.drop_last(), x) + (if s.last() == x { 1nat } else { 0nat })
    }
}

/// How many rows carry the issue `x`.
pub open spec fn row_count(rows: Seq<(String, Issue)>, x: Issue) -> nat
    decreases rows.len(),
{
    if rows.len() == 0 {
        0
    } else {
        row_count(rows.drop_last(), x) + (if rows.last().1 == x { 1nat } else { 0nat })
    }
}

/// How often `x` occurs in the six columns of a board.
pub open spec fn board_count(b: IssueProjectBoard, x: Issue) -> nat {
    issue_count(b.required@, x) + issue_count(b.ready@, x) + issue_count(b.working@, x)
        + issue_count(b.demo@, x) + issue_count(b.finished@, x) + issue_count(b.cancelled@, x)
}

/// How often `x` occurs over all the boards.
pub open spec fn boards_count(bs: Seq<IssueProjectBoard>, x: Issue) -> nat
    decreases bs.len(),
{
    if bs.len() == 0 {
        0
    } else {
        boards_count(bs.drop_last(), x) + board_count(bs.last(), x)
    }
}

/// How often `x` occurs in the columns of project `p` built from `rows`.
pub open spec fn project_count(rows: Seq<(String, Issue)>, p: Seq<char>, x: Issue) -> nat {
    issue_count(rows_bucket(rows, p, IssueStatus::Required), x) + issue_count(rows_bucket(rows, p, IssueStatus::Ready), x)
        + issue_count(rows_bucket(rows, p, IssueStatus::Working), x) + issue_count(rows_bucket(rows, p, IssueStatus::Demo), x)
        + issue_count(rows_bucket(rows, p, IssueStatus::Finished), x) + issue_count(rows_bucket(rows, p, IssueStatus::Cancelled), x)
}

/// How often `x` occurs in the columns of the projects `keys`.
pub open spec fn projects_count(rows: Seq<(String, Issue)>, keys: Seq<Seq<char>>, x: Issue) -> nat
    decreases keys.len(),
{
    if keys.len() == 0 {
        0
    } else {
        projects_count(rows, keys.drop_last(), x) + project_count(rows, keys.last(), x)
    }
}

proof fn lemma_issue_count_push(s: Seq<Issue>, y: Issue, x: Issue)
    ensures
        issue_count(s.push(y), x) == issue_count(s, x) + (if y == x { 1nat } else { 0nat }),
{
    assert(s.push(y).drop_last() =~= s);
}

proof fn lemma_project_count_push(rows: Seq<(String, Issue)>, r: (String, Issue), p: Seq<char>, x: Issue)
    ensures
        project_count(rows.push(r), p, x) == project_count(rows, p, x) + (if r.0@ == p && r.1 == x { 1nat } else { 0nat }),
{
    let t = rows.push(r);
    assert(t.drop_last() =~= rows);
    assert(t.last() == r);
    lemma_issue_count_push(rows_bucket(rows, p, IssueStatus::Required), r.1, x);
    lemma_issue_count_push(rows_bucket(rows, p, IssueStatus::Ready), r.1, x);
    lemma_issue_count_push(rows_bucket(rows, p, IssueStatus::Working), r.1, x);
    lemma_issue_count_push(rows_bucket(rows, p, IssueStatus::Demo), r.1, x);
    lemma_issue_count_push(rows_bucket(rows, p, IssueStatus::Finished), r.1, x);
    lemma_issue_count_push(rows_bucket(rows, p, IssueStatus::Cancelled), r.1, x);
}

proof fn lemma_projects_count_push(rows: Seq<(String, Issue)>, keys: Seq<Seq<char>>, r: (String, Issue), x: Issue)
    requires
        keys.no_duplicates(),
    ensures
        projects_count(rows.push(r), keys, x) == projects_count(rows, keys, x)
            + (if keys.contains(r.0@) && r.1 == x { 1nat } else { 0nat }),
    decreases keys.len(),
{
    if keys.len() > 0 {
        let k = keys.drop_last();
        assert(k.no_duplicates()) by {
            assert forall|a: int, b: int| 0 <= a < k.len() && 0 <= b < k.len() && a != b implies k[a] != k[b] by {
                assert(k[a] == keys[a] && k[b] == keys[b]);
            }
        }
        lemma_projects_count_push(rows, k, r, x);
        lemma_project_count_push(rows, r, keys.last(), x);
        if keys.last() == r.0@ {
            assert(!k.contains(r.0@)) by {
                if k.contains(r.0@) {
                    let a = choose|a: int| 0 <= a < k.len() && k[a] == r.0@;
                    assert(keys[a] == keys[keys.len() - 1]);
                }
            }
        } else {
            assert(keys.contains(r.0@) == k.contains(r.0@)) by {
                if keys.contains(r.0@) {
                    let a = choose|a: int| 0 <= a < keys.len() && keys[a] == r.0@;
                    assert(k[a] == keys[a]);
                }
                if k.contains(r.0@) {
                    let a = choose|a: int| 0 <= a < k.len() && k[a] == r.0@;
                    assert(keys[a] == k[a]);
                }
            }
        }
    }
}

proof fn lemma_projects_count_cover(rows: Seq<(String, Issue)>, x: Issue)
    ensures
        projects_count(rows, project_keys(rows), x) == row_count(rows, x),
    decreases rows.len(),
{
    if rows.len() > 0 {
        let t = rows.drop_last();
        let r = rows.last();
        lemma_projects_count_cover(t, x);
        lemma_project_keys_distinct(t);
        assert(rows =~= t.push(r));
        let k = project_keys(t);
        assert(k.no_duplicates());
        lemma_projects_count_push(t, k, r, x);
        if !k.contains(r.0@) {
            lemma_project_count_push(t, r, r.0@, x);
            lemma_no_project_no_rows(t, r.0@, IssueStatus::Required);
            lemma_no_project_no_rows(t, r.0@, IssueStatus::Ready);
            lemma_no_project_no_rows(t, r.0@, IssueStatus::Working);
            lemma_no_project_no_rows(t, r.0@, IssueStatus::Demo);
            lemma_no_project_no_rows(t, r.0@, IssueStatus::Finished);
            lemma_no_project_no_rows(t, r.0@, IssueStatus::Cancelled);
            assert(project_count(t, r.0@, x) == 0);
            assert(k.push(r.0@).drop_last() =~= k);
        }
    }
}

proof fn lemma_boards_count_match(rows: Seq<(String, Issue)>, bs: Seq<IssueProjectBoard>, n: int, x: Issue)
    requires
        bs.len() == project_keys(rows).len(),
        0 <= n <= bs.len(),
        forall|j: int, st: IssueStatus| 0 <= j < bs.len() ==> #[trigger] board_bucket(bs[j], st) == rows_bucket(rows, project_keys(rows)[j], st),
    ensures
        boards_count(bs.take(n), x) == projects_count(rows, project_keys(rows).take(n), x),
    decreases n,
{
    if n > 0 {
        lemma_boards_count_match(rows, bs, n - 1, x);
        assert(bs.take(n).drop_last() =~= bs.take(n - 1));
        assert(project_keys(rows).take(n).drop_last() =~= project_keys(rows).take(n - 1));
        let b = bs[n - 1];
        let p = project_keys(rows)[n - 1];
        assert(board_bucket(b, IssueStatus::Required) == rows_bucket(rows, p, IssueStatus::Required));
        assert(board_bucket(b, IssueStatus::Ready) == rows_bucket(rows, p, IssueStatus::Ready));
        assert(board_bucket(b, IssueStatus::Working) == rows_bucket(rows, p, IssueStatus::Working));
        assert(board_bucket(b, IssueStatus::Demo) == rows_bucket(rows, p, IssueStatus::Demo));
        assert(board_bucket(b, IssueStatus::Finished) == rows_bucket(rows, p, IssueStatus::Finished));
        assert(board_bucket(b, IssueStatus::Cancelled) == rows_bucket(rows, p, IssueStatus::Cancelled));
    }
}

/// Every issue shows on the board exactly as often as rows carry it (once,
/// for the store's distinct issues): the boards built as
/// [`board_from_rows`] states hold each issue once per row.
pub proof fn law_board_shows_each_issue_once(rows: Seq<(String, Issue)>, bs: Seq<IssueProjectBoard>, x: Issue)
    requires
        bs.len() == project_keys(rows).len(),
        forall|j: int, st: IssueStatus| 0 <= j < bs.len() ==> #[trigger] board_bucket(bs[j], st) == rows_bucket(rows, project_keys(rows)[j], st),
    ensures
        boards_count(bs, x) == row_count(rows, x),
{
    lemma_boards_count_match(rows, bs, bs.len() as int, x);
    assert(bs.take(bs.len() as int) =~= bs);
    assert(project_keys(rows).take(bs.len() as int) =~= project_keys(rows));
    lemma_projects_count_cover(rows, x);
}

/// A project's line of the board summary: its sprint issues counted by
/// status.
#[derive(Clone, Debug)]
pub struct ProjectBoard {
    pub project_key: String,
    pub required: u32,
    pub ready: u32,
    pub working: u32,
    pub demo: u32,
    pub finished: u32,
    pub cancelled: u32,
    pub total: u32,
}

/// The stored per-project counts of the board summary.
#[derive(Clone, Debug)]
pub struct BoardCounts {
    pub project_key: String,
    pub required: i64,
    pub ready: i64,
    pub working: i64,
    pub demo: i64,
    pub finished: i64,
    pub cancelled: i64,
    pub total: i64,
}

/// An open blocker and the issue it blocks.
#[derive(Clone, Debug)]
pub struct BlockedChain {
    pub blocker_id: i64,
    pub blocker_title: String,
    pub blocked_id: i64,
    pub blocked_title: String,
}

/// The board summary of the current sprint.
#[derive(Clone, Debug)]
pub struct BoardStatus {
    pub sprint_id: i64,
    pub sprint_name: String,
    pub project_key: Option<String>,
    pub projects: Vec<ProjectBoard>,
    pub blocked_chains: Vec<BlockedChain>,
}

/// A project's board line from its stored counts (each taken as `u32`, as
/// the low 32 bits of the count).
pub fn project_board(c: BoardCounts) -> (r: ProjectBoard)
    ensures
        r.project_key == c.project_key,
        r.required == c.required as u32,
        r.ready == c.ready as u32,
        r.working == c.working as u32,
        r.demo == c.demo as u32,
        r.finished == c.finished as u32,
        r.cancelled == c.cancelled as u32,
        r.total == c.total as u32,
{
    ProjectBoard {
        project_key: c.project_key,
        required: c.required as u32,
        ready: c.ready as u32,
        working: c.working as u32,
        demo: c.demo as u32,
        finished: c.finished as u32,
        cancelled: c.cancelled as u32,
        total: c.total as u32,
    }
}

} // verus!
