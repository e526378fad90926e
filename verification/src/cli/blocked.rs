//! `blocked`: the blocking dependency graph of a project.
use vstd::prelude::*;
use crate::cli::args::{cli_error, match_args, match_tokens, opt_views, tail_tokens, token_views, CliError, CliErrorKind, CliErrorView, MatchView, Matched, OptSpec, OptView};
use crate::cli::values::{rview, arg_text, take_text};
use crate::text::str_eq;

verus! {

/// Arguments of the `blocked` command group.
#[derive(Clone, Debug)]
pub struct BlockedArgs {
    pub command: BlockedCommand,
}

impl View for BlockedArgs {
    type V = BlockedCommandView;

    open spec fn view(&self) -> BlockedCommandView {
        self.command@
    }
}

/// Subcommands of `blocked`.
#[derive(Clone, Debug)]
pub enum BlockedCommand {
    /// The blocking graph of a project: leaf blockers and chains.
    List {
        project: String,
    },
}

/// The mathematical content of a [`BlockedCommand`]: texts as character sequences.
pub enum BlockedCommandView {
    List {
        project: Seq<char>,
    },
}

impl View for BlockedCommand {
    type V = BlockedCommandView;

    open spec fn view(&self) -> BlockedCommandView {
        match *self {
            BlockedCommand::List { project } => BlockedCommandView::List { project: project@ },
        }
    }
}

/// The options of `blocked list`.
pub open spec fn blocked_command_list_options() -> Seq<OptView> {
    seq![OptView { name: "project"@, takes_value: true }]
}

fn blocked_command_list_option_specs() -> (v: Vec<OptSpec>)
    ensures
        opt_views(v@) == blocked_command_list_options(),
{
    let mut v: Vec<OptSpec> = Vec::new();
    v.push(OptSpec { name: "project", takes_value: true });
    assert(opt_views(v@) =~= blocked_command_list_options());
    v
}

/// The `list` subcommand built from its matched arguments.
pub open spec fn blocked_command_list_decode(m: MatchView) -> Result<BlockedCommandView, CliErrorView> {
    match arg_text(m, 0, "project"@) {
        Err(e) => Err(e),
        Ok(project) => {
            Ok(BlockedCommandView::List { project })
        },
    }
}

fn blocked_command_list_from(m: &Matched) -> (r: Result<BlockedCommand, CliError>)
    requires
        m.values@.len() == 1,
    ensures
        rview(r) == blocked_command_list_decode(m@),
{
    let project = match take_text(m, 0, "project") {
        Ok(v) => v,
        Err(e) => {
            return Err(e);
        },
    };
    Ok(BlockedCommand::List { project })
}

/// What `blocked` makes of its arguments: `argv[0]` is the program name,
/// `argv[1]` the subcommand, the rest its arguments.
pub open spec fn blocked_command_parse(argv: Seq<Seq<char>>) -> Result<BlockedCommandView, CliErrorView> {
    if argv.len() < 2 {
        Err(CliErrorView { kind: CliErrorKind::MissingSubcommand, arg: "blocked"@ })
    } else if argv[1] == "list"@ {
        match match_args(argv.skip(2), blocked_command_list_options(), false) {
            Ok(m) => blocked_command_list_decode(m),
            Err(e) => Err(e),
        }
    } else {
        Err(CliErrorView { kind: CliErrorKind::UnknownSubcommand, arg: argv[1] })
    }
}

impl BlockedCommand {
    /// Parses a `blocked` command line; see [`blocked_command_parse`].
    pub fn try_parse_from(argv: &Vec<String>) -> (r: Result<BlockedCommand, CliError>)
        ensures
            rview(r) == blocked_command_parse(token_views(argv@)),
    {
        if argv.len() < 2 {
            return Err(cli_error(CliErrorKind::MissingSubcommand, "blocked"));
        }
        let ghost tv = token_views(argv@);
        let sub = argv[1].as_str();
        assert(sub@ == tv[1]);
        if str_eq(sub, "list") {
            let rest = tail_tokens(argv, 2);
            let opts = blocked_command_list_option_specs();
            match match_tokens(&rest, &opts, false) {
                Ok(m) => blocked_command_list_from(&m),
                Err(e) => Err(e),
            }
        } else {
            Err(CliError { kind: CliErrorKind::UnknownSubcommand, arg: argv[1].clone() })
        }
    }
}

} // verus!
