//! `retro`: the retrospective report of a sprint.
use vstd::prelude::*;
use crate::cli::args::{match_args, match_tokens, opt_views, tail_tokens, token_views, CliError, CliErrorView, MatchView, OptSpec, OptView};
use crate::cli::values::{rview, opt_i64, take_opt_i64};
use crate::text::str_eq;

verus! {

/// Arguments of `retro`: the sprint to report on (none: the current one).
#[derive(Clone, Debug)]
pub struct RetroArgs {
    pub sprint: Option<i64>,
}

/// The mathematical content of a [`RetroArgs`].
pub struct RetroArgsView {
    pub sprint: Option<i64>,
}

impl View for RetroArgs {
    type V = RetroArgsView;

    open spec fn view(&self) -> RetroArgsView {
        RetroArgsView { sprint: self.sprint }
    }
}

/// The options of `retro`.
pub open spec fn retro_args_options() -> Seq<OptView> {
    seq![OptView { name: "sprint"@, takes_value: true }]
}

fn retro_args_option_specs() -> (v: Vec<OptSpec>)
    ensures
        opt_views(v@) == retro_args_options(),
{
    let mut v: Vec<OptSpec> = Vec::new();
    v.push(OptSpec { name: "sprint", takes_value: true });
    assert(opt_views(v@) =~= retro_args_options());
    v
}

/// The `retro` arguments built from their matched options.
pub open spec fn retro_args_decode(m: MatchView) -> Result<RetroArgsView, CliErrorView> {
    match opt_i64(m, 0) {
        Err(e) => Err(e),
        Ok(sprint) => {
            Ok(RetroArgsView { sprint })
        },
    }
}

/// What `retro` makes of its arguments: `argv[0]` is the program name, the
/// rest are options.
pub open spec fn retro_args_parse(argv: Seq<Seq<char>>) -> Result<RetroArgsView, CliErrorView> {
    let rest = if argv.len() == 0 { argv } else { argv.skip(1) };
    match match_args(rest, retro_args_options(), false) {
        Ok(m) => retro_args_decode(m),
        Err(e) => Err(e),
    }
}

impl RetroArgs {
    /// Parses a `retro` command line; see [`retro_args_parse`].
    pub fn try_parse_from(argv: &Vec<String>) -> (r: Result<RetroArgs, CliError>)
        ensures
            rview(r) == retro_args_parse(token_views(argv@)),
    {
        let rest = if argv.len() == 0 { tail_tokens(argv, 0) } else { tail_tokens(argv, 1) };
        proof {
            if argv.len() == 0 {
                assert(token_views(argv@).skip(0) =~= token_views(argv@));
            }
        }
        let opts = retro_args_option_specs();
        match match_tokens(&rest, &opts, false) {
            Ok(matched) => {
                let m = &matched;
                let sprint = match take_opt_i64(m, 0) {
                    Ok(v) => v,
                    Err(e) => {
                        return Err(e);
                    },
                };
                Ok(RetroArgs { sprint })
            },
            Err(e) => Err(e),
        }
    }
}

} // verus!
