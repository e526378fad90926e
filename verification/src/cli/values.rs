//! Typed values of matched arguments: decimal numbers, required and optional
//! texts, defaults and switches.
//!
//! A number is an optional sign (`+` or `-`) followed by at least one ASCII
//! digit, and must fit the target type; an unsigned number takes no `-`.
use vstd::prelude::*;
use crate::cli::args::{CliError, CliErrorKind, CliErrorView, MatchView, Matched};
use crate::models::opt_view;
use crate::text::{chars_of, digit_char, int_decimal, nat_decimal};

verus! {

/// The view of a result whose two sides have views.
pub open spec fn rview<A: View, B: View>(r: Result<A, B>) -> Result<A::V, B::V> {
    match r {
        Ok(a) => Ok(a@),
        Err(b) => Err(b@),
    }
}

/// An ASCII decimal digit.
pub open spec fn is_digit(c: char) -> bool {
    '0' <= c && c <= '9'
}

/// Every character of `s` is a digit.
pub open spec fn all_digits(s: Seq<char>) -> bool {
    forall|i: int| 0 <= i < s.len() ==> is_digit(#[trigger] s[i])
}

/// The number that a string of digits denotes (most significant first).
pub open spec fn digits_value(s: Seq<char>) -> int
    decreases s.len(),
{
    if s.len() == 0 {
        0
    } else {
        10 * digits_value(s.drop_last()) + ((s.last() as int) - ('0' as int))
    }
}

/// The integer that a decimal text denotes: an optional sign, then one or
/// more digits.
pub open spec fn decimal_value(s: Seq<char>) -> Option<int> {
    if s.len() > 0 && (s[0] == '+' || s[0] == '-') {
        let d = s.skip(1);
        if d.len() > 0 && all_digits(d) {
            Some(if s[0] == '-' { -digits_value(d) } else { digits_value(d) })
        } else {
            None
        }
    } else if s.len() > 0 && all_digits(s) {
        Some(digits_value(s))
    } else {
        None
    }
}

/// The `i64` that a text denotes, if it is a decimal number in range.
pub open spec fn i64_value(s: Seq<char>) -> Option<i64> {
    match decimal_value(s) {
        Some(v) => if i64::MIN <= v && v <= i64::MAX { Some(v as i64) } else { None },
        None => None,
    }
}

/// The `u32` that a text denotes, if it is an unsigned decimal number in range.
pub open spec fn u32_value(s: Seq<char>) -> Option<u32> {
    if s.len() > 0 && s[0] == '-' {
        None
    } else {
        match decimal_value(s) {
            Some(v) => if 0 <= v && v <= u32::MAX { Some(v as u32) } else { None },
            None => None,
        }
    }
}

proof fn lemma_digits_value_nonneg(s: Seq<char>)
    requires
        all_digits(s),
    ensures
        digits_value(s) >= 0,
    decreases s.len(),
{
    if s.len() > 0 {
        assert(all_digits(s.drop_last())) by {
            assert forall|i: int| 0 <= i < s.drop_last().len() implies is_digit(#[trigger] s.drop_last()[i]) by {
                assert(s.drop_last()[i] == s[i]);
            }
        }
        lemma_digits_value_nonneg(s.drop_last());
        assert(is_digit(s[s.len() - 1]));
    }
}

/// Scans the digits `d[from..]` and gives their value, or `None` when it
/// exceeds `limit`, or when a character is not a digit or there is none.
fn digits_up_to(d: &Vec<char>, from: usize, limit: u128) -> (r: Option<u128>)
    requires
        from <= d.len(),
        limit <= 0x8000_0000_0000_0000u128,
    ensures
        match r {
            Some(v) => {
                &&& d@.len() > from
                &&& all_digits(d@.skip(from as int))
                &&& v == digits_value(d@.skip(from as int))
                &&& v <= limit
            },
            None => !(d@.len() > from && all_digits(d@.skip(from as int))
                && digits_value(d@.skip(from as int)) <= limit),
        },
{
    let ghost s = d@.skip(from as int);
    if from == d.len() {
        return None;
    }
    let mut acc: u128 = 0;
    let mut big = false;
    let mut j: usize = from;
    while j < d.len()
        invariant
            from <= j <= d.len(),
            s == d@.skip(from as int),
            limit <= 0x8000_0000_0000_0000u128,
            all_digits(s.take(j - from)),
            digits_value(s.take(j - from)) >= 0,
            big ==> digits_value(s.take(j - from)) > limit,
            !big ==> acc == digits_value(s.take(j - from)) && acc <= limit,
        decreases d.len() - j,
    {
        let c = d[j];
        assert(s[j - from] == c);
        if !('0' <= c && c <= '9') {
            assert(!all_digits(s)) by {
                assert(!is_digit(s[j - from]));
            }
            return None;
        }
        let ghost prev = s.take(j - from);
        let ghost next = s.take(j - from + 1);
        assert(next.drop_last() =~= prev);
        assert(next.last() == c);
        assert(all_digits(next)) by {
            assert forall|i: int| 0 <= i < next.len() implies is_digit(#[trigger] next[i]) by {
                if i < prev.len() {
                    assert(next[i] == prev[i]);
                }
            }
        }
        let dv: u128 = ((c as u32) - ('0' as u32)) as u128;
        if !big {
            let nv = acc * 10 + dv;
            if nv > limit {
                big = true;
            } else {
                acc = nv;
            }
        }
        j = j + 1;
    }
    assert(s.take(j - from) =~= s);
    if big {
        None
    } else {
        Some(acc)
    }
}

/// The value of `s` as an `i64`, when it is a decimal number in range.
pub fn parse_i64_text(s: &str) -> (r: Option<i64>)
    ensures
        r == i64_value(s@),
{
    let d = chars_of(s);
    if d.len() > 0 && (d[0] == '+' || d[0] == '-') {
        let neg = d[0] == '-';
        let limit: u128 = if neg { 0x8000_0000_0000_0000u128 } else { 0x7fff_ffff_ffff_ffffu128 };
        let v = digits_up_to(&d, 1, limit);
        match v {
            Some(n) => {
                if neg {
                    if n == 0x8000_0000_0000_0000u128 {
                        Some(i64::MIN)
                    } else {
                        let k = n as i64;
                        Some(-k)
                    }
                } else {
                    Some(n as i64)
                }
            },
            None => {
                proof {
                    if d@.len() > 1 && all_digits(d@.skip(1)) {
                        lemma_digits_value_nonneg(d@.skip(1));
                    }
                }
                None
            },
        }
    } else {
        let v = digits_up_to(&d, 0, 0x7fff_ffff_ffff_ffffu128);
        assert(d@.skip(0) =~= d@);
        match v {
            Some(n) => Some(n as i64),
            None => {
                proof {
                    if d@.len() > 0 && all_digits(d@) {
                        lemma_digits_value_nonneg(d@);
                        if d@[0] == '+' || d@[0] == '-' {
                            assert(!is_digit(d@[0]));
                        }
                    }
                }
                None
            },
        }
    }
}

/// The value of `s` as a `u32`, when it is an unsigned decimal number in range.
pub fn parse_u32_text(s: &str) -> (r: Option<u32>)
    ensures
        r == u32_value(s@),
{
    let d = chars_of(s);
    if d.len() > 0 && d[0] == '-' {
        None
    } else {
        let from: usize = if d.len() > 0 && d[0] == '+' { 1 } else { 0 };
        let v = digits_up_to(&d, from, 0xffff_ffffu128);
        assert(d@.skip(0) =~= d@);
        match v {
            Some(n) => Some(n as u32),
            None => {
                proof {
                    if d@.len() > from && all_digits(d@.skip(from as int)) {
                        lemma_digits_value_nonneg(d@.skip(from as int));
                    }
                    if from == 0 && d@.len() > 0 && all_digits(d@) {
                        if d@[0] == '+' {
                            assert(!is_digit(d@[0]));
                        }
                    }
                }
                None
            },
        }
    }
}

/// The error for a text that is not a number of the expected type.
pub open spec fn invalid_number(v: Seq<char>) -> CliErrorView {
    CliErrorView { kind: CliErrorKind::InvalidNumber, arg: v }
}

/// The error for a text that names no accepted value.
pub open spec fn invalid_value(v: Seq<char>) -> CliErrorView {
    CliErrorView { kind: CliErrorKind::InvalidValue, arg: v }
}

/// The error for a required argument that was not given.
pub open spec fn missing(name: Seq<char>) -> CliErrorView {
    CliErrorView { kind: CliErrorKind::MissingRequired, arg: name }
}

/// A required option's text.
pub open spec fn arg_text(m: MatchView, k: int, name: Seq<char>) -> Result<Seq<char>, CliErrorView> {
    match m.values[k] {
        Some(Some(v)) => Ok(v),
        _ => Err(missing(name)),
    }
}

/// An optional option's text.
pub open spec fn opt_text(m: MatchView, k: int) -> Option<Seq<char>> {
    match m.values[k] {
        Some(Some(v)) => Some(v),
        _ => None,
    }
}

/// An option's text, or `default` when it was not given.
pub open spec fn text_or(m: MatchView, k: int, default: Seq<char>) -> Seq<char> {
    match m.values[k] {
        Some(Some(v)) => v,
        _ => default,
    }
}

/// Whether a switch was given.
pub open spec fn switch_on(m: MatchView, k: int) -> bool {
    m.values[k] is Some
}

/// A required option's number.
pub open spec fn arg_i64(m: MatchView, k: int, name: Seq<char>) -> Result<i64, CliErrorView> {
    match m.values[k] {
        Some(Some(v)) => match i64_value(v) {
            Some(n) => Ok(n),
            None => Err(invalid_number(v)),
        },
        _ => Err(missing(name)),
    }
}

/// An optional option's number.
pub open spec fn opt_i64(m: MatchView, k: int) -> Result<Option<i64>, CliErrorView> {
    match m.values[k] {
        Some(Some(v)) => match i64_value(v) {
            Some(n) => Ok(Some(n)),
            None => Err(invalid_number(v)),
        },
        _ => Ok(None),
    }
}

/// An option's number, or `default` when it was not given.
pub open spec fn i64_or(m: MatchView, k: int, default: i64) -> Result<i64, CliErrorView> {
    match m.values[k] {
        Some(Some(v)) => match i64_value(v) {
            Some(n) => Ok(n),
            None => Err(invalid_number(v)),
        },
        _ => Ok(default),
    }
}

/// An option's unsigned number, or `default` when it was not given.
pub open spec fn u32_or(m: MatchView, k: int, default: u32) -> Result<u32, CliErrorView> {
    match m.values[k] {
        Some(Some(v)) => match u32_value(v) {
            Some(n) => Ok(n),
            None => Err(invalid_number(v)),
        },
        _ => Ok(default),
    }
}

/// The positional number (the record id).
pub open spec fn positional_i64(m: MatchView, name: Seq<char>) -> Result<i64, CliErrorView> {
    match m.positional {
        Some(v) => match i64_value(v) {
            Some(n) => Ok(n),
            None => Err(invalid_number(v)),
        },
        None => Err(missing(name)),
    }
}

/// Reads a required text option.
pub fn take_text(m: &Matched, k: usize, name: &str) -> (r: Result<String, CliError>)
    requires
        k < m.values@.len(),
    ensures
        rview(r) == arg_text(m@, k as int, name@),
{
    match &m.values[k] {
        Some(Some(v)) => Ok(v.clone()),
        _ => Err(CliError { kind: CliErrorKind::MissingRequired, arg: String::from_str(name) }),
    }
}

/// Reads an optional text option.
pub fn take_opt_text(m: &Matched, k: usize) -> (r: Option<String>)
    requires
        k < m.values@.len(),
    ensures
        opt_view(r) == opt_text(m@, k as int),
{
    match &m.values[k] {
        Some(Some(v)) => Some(v.clone()),
        _ => None,
    }
}

/// Reads a text option with a default.
pub fn take_text_or(m: &Matched, k: usize, default: &str) -> (r: String)
    requires
        k < m.values@.len(),
    ensures
        r@ == text_or(m@, k as int, default@),
{
    match &m.values[k] {
        Some(Some(v)) => v.clone(),
        _ => String::from_str(default),
    }
}

/// Reads a switch.
pub fn take_switch(m: &Matched, k: usize) -> (r: bool)
    requires
        k < m.values@.len(),
    ensures
        r == switch_on(m@, k as int),
{
    m.values[k].is_some()
}

/// Reads a required number option.
pub fn take_i64(m: &Matched, k: usize, name: &str) -> (r: Result<i64, CliError>)
    requires
        k < m.values@.len(),
    ensures
        rview(r) == arg_i64(m@, k as int, name@),
{
    match &m.values[k] {
        Some(Some(v)) => match parse_i64_text(v.as_str()) {
            Some(n) => Ok(n),
            None => Err(CliError { kind: CliErrorKind::InvalidNumber, arg: v.clone() }),
        },
        _ => Err(CliError { kind: CliErrorKind::MissingRequired, arg: String::from_str(name) }),
    }
}

/// Reads an optional number option.
pub fn take_opt_i64(m: &Matched, k: usize) -> (r: Result<Option<i64>, CliError>)
    requires
        k < m.values@.len(),
    ensures
        rview(r) == opt_i64(m@, k as int),
{
    match &m.values[k] {
        Some(Some(v)) => match parse_i64_text(v.as_str()) {
            Some(n) => Ok(Some(n)),
            None => Err(CliError { kind: CliErrorKind::InvalidNumber, arg: v.clone() }),
        },
        _ => Ok(None),
    }
}

/// Reads a number option with a default.
pub fn take_i64_or(m: &Matched, k: usize, default: i64) -> (r: Result<i64, CliError>)
    requires
        k < m.values@.len(),
    ensures
        rview(r) == i64_or(m@, k as int, default),
{
    match &m.values[k] {
        Some(Some(v)) => match parse_i64_text(v.as_str()) {
            Some(n) => Ok(n),
            None => Err(CliError { kind: CliErrorKind::InvalidNumber, arg: v.clone() }),
        },
        _ => Ok(default),
    }
}

/// Reads an unsigned number option with a default.
pub fn take_u32_or(m: &Matched, k: usize, default: u32) -> (r: Result<u32, CliError>)
    requires
        k < m.values@.len(),
    ensures
        rview(r) == u32_or(m@, k as int, default),
{
    match &m.values[k] {
        Some(Some(v)) => match parse_u32_text(v.as_str()) {
            Some(n) => Ok(n),
            None => Err(CliError { kind: CliErrorKind::InvalidNumber, arg: v.clone() }),
        },
        _ => Ok(default),
    }
}

/// Reads the positional number.
pub fn take_positional_i64(m: &Matched, name: &str) -> (r: Result<i64, CliError>)
    ensures
        rview(r) == positional_i64(m@, name@),
{
    match &m.positional {
        Some(v) => match parse_i64_text(v.as_str()) {
            Some(n) => Ok(n),
            None => Err(CliError { kind: CliErrorKind::InvalidNumber, arg: v.clone() }),
        },
        None => Err(CliError { kind: CliErrorKind::MissingRequired, arg: String::from_str(name) }),
    }
}

proof fn lemma_digit_char_value(d: nat)
    requires
        d < 10,
    ensures
        is_digit(digit_char(d)),
        (digit_char(d) as int) - ('0' as int) == d,
{
}

proof fn lemma_nat_decimal_value(n: nat)
    ensures
        nat_decimal(n).len() > 0,
        all_digits(nat_decimal(n)),
        digits_value(nat_decimal(n)) == n,
    decreases n,
{
    if n < 10 {
        lemma_digit_char_value(n);
        let s = nat_decimal(n);
        assert(s.drop_last() =~= Seq::<char>::empty());
        assert(digits_value(Seq::<char>::empty()) == 0);
        assert(digits_value(s) == 10 * digits_value(s.drop_last()) + ((s.last() as int) - ('0' as int)));
    } else {
        let q = n / 10;
        let r = n % 10;
        lemma_nat_decimal_value(q);
        lemma_digit_char_value(r);
        let t = nat_decimal(q);
        let s = nat_decimal(n);
        assert(s == t.push(digit_char(r)));
        assert(s.drop_last() =~= t);
        assert(all_digits(s)) by {
            assert forall|i: int| 0 <= i < s.len() implies is_digit(#[trigger] s[i]) by {
                if i < t.len() {
                    assert(s[i] == t[i]);
                }
            }
        }
        assert(10 * q + r == n) by (nonlinear_arith)
            requires q == n / 10, r == n % 10;
        assert(digits_value(s) == 10 * digits_value(s.drop_last()) + ((s.last() as int) - ('0' as int)));
        assert(s.last() == digit_char(r));
    }
}

/// Every number the tracker prints reads back as itself: the decimal
/// rendering of an `i64` is a number of the argument grammar with that
/// value.
pub proof fn law_printed_numbers_read_back(n: i64)
    ensures
        i64_value(int_decimal(n as int)) == Some(n),
{
    let s = int_decimal(n as int);
    if n < 0 {
        let m = (-(n as int)) as nat;
        lemma_nat_decimal_value(m);
        let d = nat_decimal(m);
        assert(s == seq!['-'] + d);
        assert(s.skip(1) =~= d);
        assert(s[0] == '-');
    } else {
        lemma_nat_decimal_value(n as nat);
        let d = nat_decimal(n as nat);
        assert(is_digit(d[0]));
    }
}

} // verus!
