//! The argument grammar shared by every subcommand.
//!
//! After the subcommand name, each token is one of:
//! - `--` : every later token is a positional value;
//! - `--name=value` or `--name value` : an option that takes a value (the
//!   value token may not start with `-`);
//! - `--name` : a switch;
//! - `--help` or `-h` : a request for help (reported as an error);
//! - any other token starting with `-` (and longer than `-`) : refused;
//! - anything else : a positional value.
//!
//! No option may be given twice, and no more positional values than the
//! subcommand takes.
use vstd::prelude::*;
use crate::text::{str_eq, chars_of, string_from_chars};

verus! {

/// Why the command line was refused.
#[derive(Clone, Copy, Debug, PartialEq, Eq, Structural)]
pub enum CliErrorKind {
    MissingSubcommand,
    UnknownSubcommand,
    UnknownArgument,
    MissingValue,
    UnexpectedValue,
    Duplicate,
    MissingRequired,
    UnexpectedPositional,
    InvalidNumber,
    InvalidValue,
    HelpRequested,
}

/// A refused command line: the reason and the token or argument concerned.
#[derive(Clone, Debug)]
pub struct CliError {
    pub kind: CliErrorKind,
    pub arg: String,
}

/// The mathematical content of a [`CliError`].
pub struct CliErrorView {
    pub kind: CliErrorKind,
    pub arg: Seq<char>,
}

impl View for CliError {
    type V = CliErrorView;

    open spec fn view(&self) -> CliErrorView {
        CliErrorView { kind: self.kind, arg: self.arg@ }
    }
}

/// Builds an error.
pub fn cli_error(kind: CliErrorKind, arg: &str) -> (e: CliError)
    ensures
        e@ == (CliErrorView { kind, arg: arg@ }),
{
    CliError { kind, arg: String::from_str(arg) }
}

/// A long option of a subcommand: its name (without `--`) and whether it
/// takes a value.
pub struct OptSpec {
    pub name: &'static str,
    pub takes_value: bool,
}

/// The mathematical content of an [`OptSpec`].
pub struct OptView {
    pub name: Seq<char>,
    pub takes_value: bool,
}

/// The views of a list of option specs.
pub open spec fn opt_views(v: Seq<OptSpec>) -> Seq<OptView> {
    Seq::new(v.len(), |i: int| OptView { name: v[i].name@, takes_value: v[i].takes_value })
}

/// The views of a list of tokens.
pub open spec fn token_views(v: Seq<String>) -> Seq<Seq<char>> {
    Seq::new(v.len(), |i: int| v[i]@)
}

/// What has been matched so far: for each option, nothing (absent),
/// `Some(None)` (a switch given) or `Some(Some(v))` (a value given), and the
/// positional value if any.
pub struct MatchView {
    pub values: Seq<Option<Option<Seq<char>>>>,
    pub positional: Option<Seq<char>>,
}

/// The exec counterpart of [`MatchView`].
pub struct Matched {
    pub values: Vec<Option<Option<String>>>,
    pub positional: Option<String>,
}

/// The view of an optional optional text.
pub open spec fn oo_view(o: Option<Option<String>>) -> Option<Option<Seq<char>>> {
    match o {
        Some(Some(s)) => Some(Some(s@)),
        Some(None) => Some(None),
        None => None,
    }
}

impl View for Matched {
    type V = MatchView;

    open spec fn view(&self) -> MatchView {
        MatchView {
            values: Seq::new(self.values@.len(), |i: int| oo_view(self.values@[i])),
            positional: match self.positional {
                Some(s) => Some(s@),
                None => None,
            },
        }
    }
}

/// Index of the option named `name`, if any (the first one).
pub open spec fn find_opt(opts: Seq<OptView>, name: Seq<char>) -> Option<int>
    decreases opts.len(),
{
    if opts.len() == 0 {
        None
    } else if opts.last().name == name && find_opt(opts.drop_last(), name) is None {
        Some(opts.len() - 1)
    } else {
        find_opt(opts.drop_last(), name)
    }
}

/// The index of the first `=` in `s`, if any.
pub open spec fn first_eq(s: Seq<char>) -> Option<int>
    decreases s.len(),
{
    if s.len() == 0 {
        None
    } else if first_eq(s.drop_last()) is Some {
        first_eq(s.drop_last())
    } else if s.last() == '=' {
        Some(s.len() - 1)
    } else {
        None
    }
}

/// A token that starts like an option (`-` followed by something).
pub open spec fn dashed(t: Seq<char>) -> bool {
    t.len() >= 2 && t[0] == '-'
}

/// Whether a token starts like an option; see [`dashed`].
pub fn is_dashed(t: &str) -> (r: bool)
    ensures
        r == dashed(t@),
{
    let c = chars_of(t);
    c.len() >= 2 && c[0] == '-'
}

/// Matches `toks[i..]`, continuing from match state `st`; `dd` tells whether
/// `--` has been seen. The first offending token decides the error.
pub open spec fn match_from(
    toks: Seq<Seq<char>>,
    opts: Seq<OptView>,
    takes_positional: bool,
    i: int,
    dd: bool,
    st: MatchView,
) -> Result<MatchView, CliErrorView>
    decreases toks.len() - i,
{
    if i < 0 || i >= toks.len() {
        Ok(st)
    } else {
        let t = toks[i];
        if !dd && t == "--"@ {
            match_from(toks, opts, takes_positional, i + 1, true, st)
        } else if !dd && t.len() > 2 && t[0] == '-' && t[1] == '-' {
            let body = t.skip(2);
            let name = match first_eq(body) { Some(k) => body.take(k), None => body };
            let inline = match first_eq(body) { Some(k) => Some(body.skip(k + 1)), None => None };
            if name == "help"@ {
                Err(CliErrorView { kind: CliErrorKind::HelpRequested, arg: t })
            } else {
                match find_opt(opts, name) {
                    None => Err(CliErrorView { kind: CliErrorKind::UnknownArgument, arg: t }),
                    Some(k) => {
                        if st.values[k] is Some {
                            Err(CliErrorView { kind: CliErrorKind::Duplicate, arg: name })
                        } else if opts[k].takes_value {
                            match inline {
                                Some(v) => match_from(toks, opts, takes_positional, i + 1, dd,
                                    MatchView { values: st.values.update(k, Some(Some(v))), positional: st.positional }),
                                None => if i + 1 < toks.len() && !dashed(toks[i + 1]) {
                                    match_from(toks, opts, takes_positional, i + 2, dd,
                                        MatchView { values: st.values.update(k, Some(Some(toks[i + 1]))), positional: st.positional })
                                } else {
                                    Err(CliErrorView { kind: CliErrorKind::MissingValue, arg: name })
                                },
                            }
                        } else {
                            match inline {
                                Some(_) => Err(CliErrorView { kind: CliErrorKind::UnexpectedValue, arg: name }),
                                None => match_from(toks, opts, takes_positional, i + 1, dd,
                                    MatchView { values: st.values.update(k, Some(None)), positional: st.positional }),
                            }
                        }
                    },
                }
            }
        } else if !dd && t == "-h"@ {
            Err(CliErrorView { kind: CliErrorKind::HelpRequested, arg: t })
        } else if !dd && dashed(t) {
            Err(CliErrorView { kind: CliErrorKind::UnknownArgument, arg: t })
        } else if !takes_positional || st.positional is Some {
            Err(CliErrorView { kind: CliErrorKind::UnexpectedPositional, arg: t })
        } else {
            match_from(toks, opts, takes_positional, i + 1, dd, MatchView { values: st.values, positional: Some(t) })
        }
    }
}

/// Matches a whole argument list against a subcommand's options.
pub open spec fn match_args(toks: Seq<Seq<char>>, opts: Seq<OptView>, takes_positional: bool) -> Result<MatchView, CliErrorView> {
    match_from(toks, opts, takes_positional, 0, false,
        MatchView { values: Seq::new(opts.len(), |i: int| None::<Option<Seq<char>>>), positional: None })
}

fn find_opt_exec(opts: &Vec<OptSpec>, name: &Vec<char>) -> (r: Option<usize>)
    ensures
        match r {
            Some(k) => find_opt(opt_views(opts@), name@) == Some(k as int) && k < opts@.len(),
            None => find_opt(opt_views(opts@), name@) is None,
        },
{
    let mut i: usize = 0;
    let ghost ov = opt_views(opts@);
    let nm = string_from_chars(name);
    while i < opts.len()
        invariant
            i <= opts.len(),
            ov == opt_views(opts@),
            nm@ == name@,
            find_opt(ov.take(i as int), name@) is None,
        decreases opts.len() - i,
    {
        assert(ov.take(i + 1).drop_last() =~= ov.take(i as int));
        if str_eq(opts[i].name, nm.as_str()) {
            proof {
                lemma_find_opt_prefix(ov, name@, i + 1, i as int);
            }
            return Some(i);
        }
        i = i + 1;
    }
    assert(ov.take(i as int) =~= ov);
    None
}

proof fn lemma_find_opt_prefix(ov: Seq<OptView>, name: Seq<char>, n: int, k: int)
    requires
        0 <= n <= ov.len(),
        find_opt(ov.take(n), name) == Some(k),
    ensures
        find_opt(ov, name) == Some(k),
    decreases ov.len() - n,
{
    if n < ov.len() {
        assert(ov.take(n + 1).drop_last() =~= ov.take(n));
        lemma_find_opt_prefix(ov, name, n + 1, k);
    } else {
        assert(ov.take(n) =~= ov);
    }
}

fn first_eq_exec(s: &Vec<char>) -> (r: Option<usize>)
    ensures
        match r {
            Some(k) => first_eq(s@) == Some(k as int) && k < s@.len(),
            None => first_eq(s@) is None,
        },
{
    let mut i: usize = 0;
    while i < s.len()
        invariant
            i <= s.len(),
            first_eq(s@.take(i as int)) is None,
        decreases s.len() - i,
    {
        assert(s@.take(i + 1).drop_last() =~= s@.take(i as int));
        if s[i] == '=' {
            proof {
                lemma_first_eq_prefix(s@, i + 1, i as int);
            }
            return Some(i);
        }
        i = i + 1;
    }
    assert(s@.take(i as int) =~= s@);
    None
}

proof fn lemma_first_eq_prefix(s: Seq<char>, n: int, k: int)
    requires
        0 <= n <= s.len(),
        first_eq(s.take(n)) == Some(k),
    ensures
        first_eq(s) == Some(k),
    decreases s.len() - n,
{
    if n < s.len() {
        assert(s.take(n + 1).drop_last() =~= s.take(n));
        lemma_first_eq_prefix(s, n + 1, k);
    } else {
        assert(s.take(n) =~= s);
    }
}

/// The tokens of `argv` from position `from` on.
pub fn tail_tokens(argv: &Vec<String>, from: usize) -> (r: Vec<String>)
    requires
        from <= argv.len(),
    ensures
        token_views(r@) == token_views(argv@).skip(from as int),
{
    let mut out: Vec<String> = Vec::new();
    let mut i = from;
    while i < argv.len()
        invariant
            from <= i <= argv.len(),
            token_views(out@) == token_views(argv@).subrange(from as int, i as int),
        decreases argv.len() - i,
    {
        let t = argv[i].clone();
        let ghost before = out@;
        out.push(t);
        proof {
            let tv = token_views(argv@);
            assert(token_views(out@) =~= token_views(before).push(argv@[i as int]@));
            assert(tv.subrange(from as int, i + 1) =~= tv.subrange(from as int, i as int).push(tv[i as int]));
        }
        i = i + 1;
    }
    assert(token_views(argv@).subrange(from as int, argv.len() as int) =~= token_views(argv@).skip(from as int));
    out
}

fn subrange_string(v: &Vec<char>, from: usize, to: usize) -> (s: String)
    requires
        from <= to <= v.len(),
    ensures
        s@ == v@.subrange(from as int, to as int),
{
    let mut out: Vec<char> = Vec::new();
    let mut i = from;
    while i < to
        invariant
            from <= i <= to <= v.len(),
            out@ == v@.subrange(from as int, i as int),
        decreases to - i,
    {
        out.push(v[i]);
        assert(v@.subrange(from as int, i + 1) =~= v@.subrange(from as int, i as int).push(v@[i as int]));
        i = i + 1;
    }
    string_from_chars(&out)
}

/// Matches `toks` against the options `opts` of a subcommand that takes one
/// positional value when `takes_positional` holds, none otherwise.
pub fn match_tokens(toks: &Vec<String>, opts: &Vec<OptSpec>, takes_positional: bool) -> (r: Result<Matched, CliError>)
    ensures
        match r {
            Ok(m) => match_args(token_views(toks@), opt_views(opts@), takes_positional) == Ok::<MatchView, CliErrorView>(m@)
                && m.values@.len() == opts@.len(),
            Err(e) => match_args(token_views(toks@), opt_views(opts@), takes_positional) == Err::<MatchView, CliErrorView>(e@),
        },
{
    let ghost tv = token_views(toks@);
    let ghost ov = opt_views(opts@);
    let mut values: Vec<Option<Option<String>>> = Vec::new();
    let mut k: usize = 0;
    while k < opts.len()
        invariant
            k <= opts.len(),
            values@.len() == k,
            forall|j: int| 0 <= j < k ==> values@[j] is None,
        decreases opts.len() - k,
    {
        values.push(None);
        k = k + 1;
    }
    let mut m = Matched { values, positional: None };
    assert(m@.values =~= Seq::new(ov.len(), |i: int| None::<Option<Seq<char>>>));
    let mut i: usize = 0;
    let mut dd = false;
    while i < toks.len()
        invariant
            tv == token_views(toks@),
            ov == opt_views(opts@),
            i <= toks.len(),
            m.values@.len() == opts@.len(),
            match_args(tv, ov, takes_positional) == match_from(tv, ov, takes_positional, i as int, dd, m@),
        decreases toks.len() - i,
    {
        let t = chars_of(toks[i].as_str());
        assert(t@ == tv[i as int]);
        if !dd && t.len() == 2 && t[0] == '-' && t[1] == '-' {
            assert(t@ =~= "--"@) by { reveal_strlit("--"); }
            dd = true;
            i = i + 1;
        } else if !dd && t.len() > 2 && t[0] == '-' && t[1] == '-' {
            proof { reveal_strlit("--"); assert(t@ != "--"@); }
            let mut body: Vec<char> = Vec::new();
            let mut j: usize = 2;
            while j < t.len()
                invariant
                    2 <= j <= t.len(),
                    body@ == t@.subrange(2, j as int),
                decreases t.len() - j,
            {
                body.push(t[j]);
                assert(t@.subrange(2, j + 1) =~= t@.subrange(2, j as int).push(t@[j as int]));
                j = j + 1;
            }
            assert(body@ =~= t@.skip(2));
            let eq = first_eq_exec(&body);
            let name_end = match eq { Some(e) => e, None => body.len() };
            let name = subrange_string(&body, 0, name_end);
            assert(name@ == (match first_eq(t@.skip(2)) { Some(k) => t@.skip(2).take(k), None => t@.skip(2) })) by {
                assert(body@.subrange(0, body@.len() as int) =~= body@);
                if eq is Some {
                    assert(body@.subrange(0, name_end as int) =~= body@.take(name_end as int));
                }
            }
            if str_eq(name.as_str(), "help") {
                return Err(CliError { kind: CliErrorKind::HelpRequested, arg: toks[i].clone() });
            }
            let name_chars = chars_of(name.as_str());
            match find_opt_exec(opts, &name_chars) {
                None => {
                    return Err(CliError { kind: CliErrorKind::UnknownArgument, arg: toks[i].clone() });
                },
                Some(k) => {
                    let ghost st = m@;
                    if m.values[k].is_some() {
                        return Err(CliError { kind: CliErrorKind::Duplicate, arg: name });
                    }
                    if opts[k].takes_value {
                        match eq {
                            Some(e) => {
                                let v = subrange_string(&body, e + 1, body.len());
                                assert(v@ =~= t@.skip(2).skip(e + 1));
                                m.values.set(k, Some(Some(v)));
                                assert(m@.values =~= st.values.update(k as int, Some(Some(t@.skip(2).skip(e + 1)))));
                                i = i + 1;
                            },
                            None => {
                                if i + 1 < toks.len() {
                                    let nt = chars_of(toks[i + 1].as_str());
                                    assert(nt@ == tv[i + 1]);
                                    if nt.len() >= 2 && nt[0] == '-' {
                                        return Err(CliError { kind: CliErrorKind::MissingValue, arg: name });
                                    }
                                    let v = toks[i + 1].clone();
                                    m.values.set(k, Some(Some(v)));
                                    assert(m@.values =~= st.values.update(k as int, Some(Some(tv[i + 1]))));
                                    i = i + 2;
                                } else {
                                    return Err(CliError { kind: CliErrorKind::MissingValue, arg: name });
                                }
                            },
                        }
                    } else {
                        match eq {
                            Some(_) => {
                                return Err(CliError { kind: CliErrorKind::UnexpectedValue, arg: name });
                            },
                            None => {
                                m.values.set(k, Some(None));
                                assert(m@.values =~= st.values.update(k as int, Some(None)));
                                i = i + 1;
                            },
                        }
                    }
                },
            }
        } else if !dd && t.len() == 2 && t[0] == '-' && t[1] == 'h' {
            assert(t@ =~= "-h"@) by { reveal_strlit("-h"); }
            proof {
                reveal_strlit("--");
                if t@ == "--"@ { assert(t@[1] == '-'); }
            }
            return Err(CliError { kind: CliErrorKind::HelpRequested, arg: toks[i].clone() });
        } else if !dd && t.len() >= 2 && t[0] == '-' {
            proof {
                reveal_strlit("--");
                reveal_strlit("-h");
                if t@ == "--"@ { assert(t@[1] == '-'); }
                if t@ == "-h"@ { assert(t@[1] == 'h'); }
            }
            return Err(CliError { kind: CliErrorKind::UnknownArgument, arg: toks[i].clone() });
        } else {
            proof {
                reveal_strlit("--");
                reveal_strlit("-h");
                if !dd && t@ == "--"@ { assert(t@.len() == 2 && t@[1] == '-'); }
                if !dd && t@ == "-h"@ { assert(t@.len() == 2 && t@[1] == 'h'); }
            }
            if !takes_positional || m.positional.is_some() {
                return Err(CliError { kind: CliErrorKind::UnexpectedPositional, arg: toks[i].clone() });
            }
            m.positional = Some(toks[i].clone());
            i = i + 1;
        }
    }
    Ok(m)
}

} // verus!
