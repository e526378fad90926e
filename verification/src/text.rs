//! Character-level string helpers shared by the rest of the library:
//! equality, decimal rendering, prefix truncation and escape handling.
use vstd::prelude::*;

verus! {

/// `String::push`: appends one character at the end of the string.
#[verifier::external_body]
pub(crate) fn push_char(s: &mut String, c: char)
    ensures
        final(s)@ == old(s)@.push(c),
{
    s.push(c);
}

/// Builds a `String` whose characters are exactly `v`.
pub fn string_from_chars(v: &Vec<char>) -> (s: String)
    ensures
        s@ == v@,
{
    let mut s = String::new();
    let mut i: usize = 0;
    while i < v.len()
        invariant
            i <= v.len(),
            s@ == v@.take(i as int),
        decreases v.len() - i,
    {
        push_char(&mut s, v[i]);
        assert(v@.take(i as int).push(v@[i as int]) =~= v@.take(i + 1));
        i = i + 1;
    }
    assert(v@.take(v.len() as int) =~= v@);
    s
}

/// The characters of `s`, in order.
pub fn chars_of(s: &str) -> (v: Vec<char>)
    ensures
        v@ == s@,
{
    let n = s.unicode_len();
    let mut v: Vec<char> = Vec::new();
    let mut i: usize = 0;
    while i < n
        invariant
            n == s@.len(),
            i <= n,
            v@ == s@.take(i as int),
        decreases n - i,
    {
        v.push(s.get_char(i));
        assert(s@.take(i as int).push(s@[i as int]) =~= s@.take(i + 1));
        i = i + 1;
    }
    assert(s@.take(n as int) =~= s@);
    v
}

/// Character-wise equality of two string slices.
pub fn str_eq(a: &str, b: &str) -> (r: bool)
    ensures
        r == (a@ == b@),
{
    let n = a.unicode_len();
    let m = b.unicode_len();
    if n != m {
        return false;
    }
    let mut i: usize = 0;
    while i < n
        invariant
            n == a@.len(),
            m == b@.len(),
            n == m,
            i <= n,
            forall|k: int| 0 <= k < i ==> a@[k] == b@[k],
        decreases n - i,
    {
        if a.get_char(i) != b.get_char(i) {
            return false;
        }
        i = i + 1;
    }
    assert(a@ =~= b@);
    true
}

/// Appends all characters of `t` to `s`.
pub fn push_str(s: &mut String, t: &str)
    ensures
        final(s)@ == old(s)@ + t@,
{
    let n = t.unicode_len();
    let mut i: usize = 0;
    while i < n
        invariant
            n == t@.len(),
            i <= n,
            s@ == old(s)@ + t@.take(i as int),
        decreases n - i,
    {
        push_char(s, t.get_char(i));
        assert(t@.take(i as int).push(t@[i as int]) =~= t@.take(i + 1));
        assert(old(s)@ + t@.take(i as int).push(t@[i as int]) =~= (old(s)@ + t@.take(
            i as int,
        )).push(t@[i as int]));
        i = i + 1;
    }
    assert(t@.take(n as int) =~= t@);
}

/// The decimal digit character for `d < 10`.
pub open spec fn digit_char(d: nat) -> char {
    if d == 0 { '0' }
    else if d == 1 { '1' }
    else if d == 2 { '2' }
    else if d == 3 { '3' }
    else if d == 4 { '4' }
    else if d == 5 { '5' }
    else if d == 6 { '6' }
    else if d == 7 { '7' }
    else if d == 8 { '8' }
    else { '9' }
}

/// Decimal rendering of a natural number, most significant digit first,
/// without leading zeros (zero is `"0"`).
pub open spec fn nat_decimal(n: nat) -> Seq<char>
    decreases n,
{
    if n < 10 {
        seq![digit_char(n)]
    } else {
        nat_decimal(n / 10).push(digit_char(n % 10))
    }
}

/// Decimal rendering of an integer: a leading `-` for negatives.
pub open spec fn int_decimal(n: int) -> Seq<char> {
    if n < 0 {
        seq!['-'] + nat_decimal((-n) as nat)
    } else {
        nat_decimal(n as nat)
    }
}

fn digit_of(d: u64) -> (c: char)
    requires
        d < 10,
    ensures
        c == digit_char(d as nat),
{
    if d == 0 { '0' }
    else if d == 1 { '1' }
    else if d == 2 { '2' }
    else if d == 3 { '3' }
    else if d == 4 { '4' }
    else if d == 5 { '5' }
    else if d == 6 { '6' }
    else if d == 7 { '7' }
    else if d == 8 { '8' }
    else { '9' }
}

/// Appends the decimal rendering of `n`.
pub fn push_u64(s: &mut String, n: u64)
    ensures
        final(s)@ == old(s)@ + nat_decimal(n as nat),
    decreases n,
{
    if n < 10 {
        push_char(s, digit_of(n));
        assert(old(s)@.push(digit_char(n as nat)) =~= old(s)@ + nat_decimal(n as nat));
    } else {
        push_u64(s, n / 10);
        push_char(s, digit_of(n % 10));
        assert((old(s)@ + nat_decimal((n / 10) as nat)).push(digit_char((n % 10) as nat))
            =~= old(s)@ + nat_decimal(n as nat));
    }
}

/// Appends the decimal rendering of `n`.
pub fn push_i64(s: &mut String, n: i64)
    ensures
        final(s)@ == old(s)@ + int_decimal(n as int),
{
    if n < 0 {
        push_char(s, '-');
        let m: u64 = if n == i64::MIN {
            9223372036854775808u64
        } else {
            (-n) as u64
        };
        push_u64(s, m);
        assert(old(s)@.push('-') + nat_decimal(m as nat) =~= old(s)@ + (seq!['-'] + nat_decimal(
            m as nat,
        )));
    } else {
        push_u64(s, n as u64);
    }
}

/// Decimal rendering of `n` as a fresh string.
pub fn i64_to_string(n: i64) -> (s: String)
    ensures
        s@ == int_decimal(n as int),
{
    let mut s = String::new();
    push_i64(&mut s, n);
    assert(Seq::<char>::empty() + int_decimal(n as int) =~= int_decimal(n as int));
    s
}

/// The first `n` characters of `s` followed by `"..."` when `s` is longer than
/// `n` characters; `s` itself otherwise.
pub open spec fn truncate_with_ellipsis(s: Seq<char>, n: nat) -> Seq<char> {
    if s.len() > n {
        s.take(n as int) + seq!['.', '.', '.']
    } else {
        s
    }
}

/// Cuts `s` after `n` characters and marks the cut with `"..."`.
pub fn truncate_chars(s: &str, n: usize) -> (r: String)
    ensures
        r@ == truncate_with_ellipsis(s@, n as nat),
{
    let len = s.unicode_len();
    if len > n {
        let head = s.substring_char(0, n);
        let mut r = String::from_str(head);
        push_char(&mut r, '.');
        push_char(&mut r, '.');
        push_char(&mut r, '.');
        assert(r@ =~= s@.take(n as int) + seq!['.', '.', '.']);
        r
    } else {
        String::from_str(s)
    }
}

/// Replaces every literal two-character sequence backslash-`n` by a newline,
/// scanning from the left without overlaps.
pub open spec fn unescape_newlines_spec(s: Seq<char>) -> Seq<char>
    decreases s.len(),
{
    if s.len() < 2 {
        s
    } else if s[0] == '\\' && s[1] == 'n' {
        seq!['\n'] + unescape_newlines_spec(s.skip(2))
    } else {
        seq![s[0]] + unescape_newlines_spec(s.skip(1))
    }
}

proof fn lemma_unescape_step(s: Seq<char>, i: int)
    requires
        0 <= i < s.len(),
    ensures
        s.len() - i < 2 ==> unescape_newlines_spec(s.skip(i)) == s.skip(i),
        s.len() - i >= 2 && s[i] == '\\' && s[i + 1] == 'n' ==> unescape_newlines_spec(s.skip(i))
            == seq!['\n'] + unescape_newlines_spec(s.skip(i + 2)),
        !(s.len() - i >= 2 && s[i] == '\\' && s[i + 1] == 'n') && s.len() - i >= 2
            ==> unescape_newlines_spec(s.skip(i)) == seq![s[i]] + unescape_newlines_spec(
            s.skip(i + 1),
        ),
{
    let t = s.skip(i);
    if t.len() >= 2 {
        assert(t.skip(2) =~= s.skip(i + 2));
        assert(t.skip(1) =~= s.skip(i + 1));
    }
}

/// Whether `s` holds an escaped line break: a backslash followed by `n`.
pub open spec fn has_escaped_newline(s: Seq<char>) -> bool {
    exists|i: int| 0 <= i < s.len() - 1 && s[i] == '\\' && #[trigger] s[i + 1] == 'n'
}

/// The number of escaped line breaks of `s`, read from left to right.
pub open spec fn escaped_newlines(s: Seq<char>) -> nat
    decreases s.len(),
{
    if s.len() < 2 {
        0
    } else if s[0] == '\\' && s[1] == 'n' {
        1 + escaped_newlines(s.skip(2))
    } else {
        escaped_newlines(s.skip(1))
    }
}

proof fn lemma_unescape_facts(s: Seq<char>)
    ensures
        !has_escaped_newline(unescape_newlines_spec(s)),
        unescape_newlines_spec(s).len() == s.len() - escaped_newlines(s),
        s.len() > 0 ==> unescape_newlines_spec(s).len() > 0
            && (unescape_newlines_spec(s)[0] == s[0] || unescape_newlines_spec(s)[0] == '\n'),
        !has_escaped_newline(s) ==> unescape_newlines_spec(s) == s,
    decreases s.len(),
{
    let u = unescape_newlines_spec(s);
    if s.len() < 2 {
        if has_escaped_newline(u) {
            let i = choose|i: int| 0 <= i < u.len() - 1 && u[i] == '\\' && #[trigger] u[i + 1] == 'n';
        }
    } else if s[0] == '\\' && s[1] == 'n' {
        let t = s.skip(2);
        lemma_unescape_facts(t);
        let ut = unescape_newlines_spec(t);
        assert(u == seq!['\n'] + ut);
        if has_escaped_newline(u) {
            let i = choose|i: int| 0 <= i < u.len() - 1 && u[i] == '\\' && #[trigger] u[i + 1] == 'n';
            if i == 0 {
                assert(u[0] == '\n');
            } else {
                let j = i - 1;
                assert(ut[j] == u[i] && ut[j + 1] == u[i + 1]);
                assert(ut[j] == '\\' && ut[j + 1] == 'n');
                assert(has_escaped_newline(ut));
            }
        }
        assert(has_escaped_newline(s)) by {
            assert(s[0] == '\\' && s[0int + 1] == 'n');
        }
    } else {
        let t = s.skip(1);
        lemma_unescape_facts(t);
        let ut = unescape_newlines_spec(t);
        assert(u == seq![s[0]] + ut);
        if has_escaped_newline(u) {
            let i = choose|i: int| 0 <= i < u.len() - 1 && u[i] == '\\' && #[trigger] u[i + 1] == 'n';
            if i == 0 {
                assert(s[0] == '\\');
                assert(ut[0] == 'n');
                assert(t[0] == s[1]);
            } else {
                let j = i - 1;
                assert(ut[j] == u[i] && ut[j + 1] == u[i + 1]);
                assert(ut[j] == '\\' && ut[j + 1] == 'n');
                assert(has_escaped_newline(ut));
            }
        }
        if !has_escaped_newline(s) {
            assert(!has_escaped_newline(t)) by {
                if has_escaped_newline(t) {
                    let i = choose|i: int| 0 <= i < t.len() - 1 && t[i] == '\\' && #[trigger] t[i + 1] == 'n';
                    assert(s[i + 1] == '\\' && s[(i + 1) + 1] == 'n');
                }
            }
            assert(u =~= s);
        }
    }
}

/// Unescaping leaves no escaped line break behind, so doing it twice is
/// doing it once; each escaped line break shortens the text by one
/// character, and a text without one is left as it is.
pub proof fn law_unescape_leaves_no_escape(s: Seq<char>)
    ensures
        !has_escaped_newline(unescape_newlines_spec(s)),
        unescape_newlines_spec(unescape_newlines_spec(s)) == unescape_newlines_spec(s),
        unescape_newlines_spec(s).len() == s.len() - escaped_newlines(s),
        !has_escaped_newline(s) ==> unescape_newlines_spec(s) == s,
{
    lemma_unescape_facts(s);
    lemma_unescape_facts(unescape_newlines_spec(s));
}

/// `s` with each escaped `\n` turned into a real line break.
pub fn unescape_chars(s: &str) -> (r: String)
    ensures
        r@ == unescape_newlines_spec(s@),
{
    let v = chars_of(s);
    let n = v.len();
    let mut r = String::new();
    let mut i: usize = 0;
    assert(s@.skip(0) =~= s@);
    while i < n
        invariant
            n == v@.len(),
            v@ == s@,
            i <= n,
            r@ + unescape_newlines_spec(s@.skip(i as int)) == unescape_newlines_spec(s@),
        decreases n - i,
    {
        proof {
            lemma_unescape_step(s@, i as int);
        }
        let ghost r0 = r@;
        if i + 1 < n && v[i] == '\\' && v[i + 1] == 'n' {
            push_char(&mut r, '\n');
            assert(r@ + unescape_newlines_spec(s@.skip(i + 2)) =~= r0 + (seq!['\n']
                + unescape_newlines_spec(s@.skip(i + 2))));
            i = i + 2;
        } else if i + 1 < n {
            let c = v[i];
            push_char(&mut r, c);
            assert(r@ + unescape_newlines_spec(s@.skip(i + 1)) =~= r0 + (seq![c]
                + unescape_newlines_spec(s@.skip(i + 1))));
            i = i + 1;
        } else {
            let c = v[i];
            push_char(&mut r, c);
            assert(s@.skip(i as int) =~= seq![c]);
            assert(s@.skip(i + 1) =~= Seq::<char>::empty());
            assert(r@ + unescape_newlines_spec(s@.skip(i + 1)) =~= r0 + seq![c]);
            i = i + 1;
        }
    }
    assert(s@.skip(n as int) =~= Seq::<char>::empty());
    assert(r@ + Seq::<char>::empty() =~= r@);
    r
}

} // verus!
