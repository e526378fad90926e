//! `stalled`: issues that have not moved for a while.
use vstd::prelude::*;
use crate::cli::args::{match_args, match_tokens, opt_views, tail_tokens, token_views, CliError, CliErrorKind, CliErrorView, MatchView, OptSpec, OptView};
use crate::cli::values::{rview, opt_text, text_or, arg_i64, take_opt_text, take_text_or, take_i64, invalid_value};
use crate::models::opt_view;
use crate::text::str_eq;
use crate::enums::IssueStatus;

verus! {

/// Reads the status whose stalled issues are listed.
pub fn parse_stalled_status(s: &str) -> (r: Result<IssueStatus, CliError>)
    ensures
        match r {
            Ok(v) => IssueStatus::from_name(s@) == Some(v),
            Err(e) => IssueStatus::from_name(s@) is None && e@ == invalid_value(s@),
        },
{
    match IssueStatus::parse(s) {
        Some(v) => Ok(v),
        None => Err(CliError { kind: CliErrorKind::InvalidValue, arg: String::from_str(s) }),
    }
}

/// Arguments of `stalled`: issues unchanged for at least the threshold.
#[derive(Clone, Debug)]
pub struct StalledArgs {
    pub threshold_minutes: i64,
    pub status: String,
    pub project: Option<String>,
}

/// The mathematical content of a [`StalledArgs`].
pub struct StalledArgsView {
    pub threshold_minutes: i64,
    pub status: Seq<char>,
    pub project: Option<Seq<char>>,
}

impl View for StalledArgs {
    type V = StalledArgsView;

    open spec fn view(&self) -> StalledArgsView {
        StalledArgsView { threshold_minutes: self.threshold_minutes, status: self.status@, project: opt_view(self.project) }
    }
}

/// The options of `stalled`.
pub open spec fn stalled_args_options() -> Seq<OptView> {
    seq![OptView { name: "threshold-minutes"@, takes_value: true }, OptView { name: "status"@, takes_value: true }, OptView { name: "project"@, takes_value: true }]
}

fn stalled_args_option_specs() -> (v: Vec<OptSpec>)
    ensures
        opt_views(v@) == stalled_args_options(),
{
    let mut v: Vec<OptSpec> = Vec::new();
    v.push(OptSpec { name: "threshold-minutes", takes_value: true });
    v.push(OptSpec { name: "status", takes_value: true });
    v.push(OptSpec { name: "project", takes_value: true });
    assert(opt_views(v@) =~= stalled_args_options());
    v
}

/// The `stalled` arguments built from their matched options.
pub open spec fn stalled_args_decode(m: MatchView) -> Result<StalledArgsView, CliErrorView> {
    match arg_i64(m, 0, "threshold-minutes"@) {
        Err(e) => Err(e),
        Ok(threshold_minutes) => {
            let status = text_or(m, 1, "working"@);
            let project = opt_text(m, 2);
            Ok(StalledArgsView { threshold_minutes, status, project })
        },
    }
}

/// What `stalled` makes of its arguments: `argv[0]` is the program name, the
/// rest are options.
pub open spec fn stalled_args_parse(argv: Seq<Seq<char>>) -> Result<StalledArgsView, CliErrorView> {
    let rest = if argv.len() == 0 { argv } else { argv.skip(1) };
    match match_args(rest, stalled_args_options(), false) {
        Ok(m) => stalled_args_decode(m),
        Err(e) => Err(e),
    }
}

impl StalledArgs {
    /// Parses a `stalled` command line; see [`stalled_args_parse`].
    pub fn try_parse_from(argv: &Vec<String>) -> (r: Result<StalledArgs, CliError>)
        ensures
            rview(r) == stalled_args_parse(token_views(argv@)),
    {
        let rest = if argv.len() == 0 { tail_tokens(argv, 0) } else { tail_tokens(argv, 1) };
        proof {
            if argv.len() == 0 {
                assert(token_views(argv@).skip(0) =~= token_views(argv@));
            }
        }
        let opts = stalled_args_option_specs();
        match match_tokens(&rest, &opts, false) {
            Ok(matched) => {
                let m = &matched;
                let threshold_minutes = match take_i64(m, 0, "threshold-minutes") {
                    Ok(v) => v,
                    Err(e) => {
                        return Err(e);
                    },
                };
                let status = take_text_or(m, 1, "working");
                let project = take_opt_text(m, 2);
                Ok(StalledArgs { threshold_minutes, status, project })
            },
            Err(e) => Err(e),
        }
    }
}

} // verus!
