//! `board`: the kanban board of the current sprint.
use vstd::prelude::*;
use crate::cli::args::{cli_error, match_args, match_tokens, opt_views, tail_tokens, token_views, CliError, CliErrorKind, CliErrorView, MatchView, Matched, OptSpec, OptView};
use crate::cli::values::{rview, opt_text, switch_on, take_opt_text, take_switch};
use crate::models::opt_view;
use crate::text::str_eq;

verus! {

/// Arguments of the `board` command group.
#[derive(Clone, Debug)]
pub struct BoardArgs {
    pub command: BoardCommand,
}

impl View for BoardArgs {
    type V = BoardCommandView;

    open spec fn view(&self) -> BoardCommandView {
        self.command@
    }
}

/// Subcommands of `board`.
#[derive(Clone, Debug)]
pub enum BoardCommand {
    /// The kanban board of the current sprint.
    Status {
        project: Option<String>,
        compact: bool,
        no_chains: bool,
    },
}

/// The mathematical content of a [`BoardCommand`]: texts as character sequences.
pub enum BoardCommandView {
    Status {
        project: Option<Seq<char>>,
        compact: bool,
        no_chains: bool,
    },
}

impl View for BoardCommand {
    type V = BoardCommandView;

    open spec fn view(&self) -> BoardCommandView {
        match *self {
            BoardCommand::Status { project, compact, no_chains } => BoardCommandView::Status { project: opt_view(project), compact: compact, no_chains: no_chains },
        }
    }
}

/// The options of `board status`.
pub open spec fn board_command_status_options() -> Seq<OptView> {
    seq![OptView { name: "project"@, takes_value: true }, OptView { name: "compact"@, takes_value: false }, OptView { name: "no-chains"@, takes_value: false }]
}

fn board_command_status_option_specs() -> (v: Vec<OptSpec>)
    ensures
        opt_views(v@) == board_command_status_options(),
{
    let mut v: Vec<OptSpec> = Vec::new();
    v.push(OptSpec { name: "project", takes_value: true });
    v.push(OptSpec { name: "compact", takes_value: false });
    v.push(OptSpec { name: "no-chains", takes_value: false });
    assert(opt_views(v@) =~= board_command_status_options());
    v
}

/// The `status` subcommand built from its matched arguments.
pub open spec fn board_command_status_decode(m: MatchView) -> Result<BoardCommandView, CliErrorView> {
    let project = opt_text(m, 0);
    let compact = switch_on(m, 1);
    let no_chains = switch_on(m, 2);
    Ok(BoardCommandView::Status { project, compact, no_chains })
}

fn board_command_status_from(m: &Matched) -> (r: Result<BoardCommand, CliError>)
    requires
        m.values@.len() == 3,
    ensures
        rview(r) == board_command_status_decode(m@),
{
    let project = take_opt_text(m, 0);
    let compact = take_switch(m, 1);
    let no_chains = take_switch(m, 2);
    Ok(BoardCommand::Status { project, compact, no_chains })
}

/// What `board` makes of its arguments: `argv[0]` is the program name,
/// `argv[1]` the subcommand, the rest its arguments.
pub open spec fn board_command_parse(argv: Seq<Seq<char>>) -> Result<BoardCommandView, CliErrorView> {
    if argv.len() < 2 {
        Err(CliErrorView { kind: CliErrorKind::MissingSubcommand, arg: "board"@ })
    } else if argv[1] == "status"@ {
        match match_args(argv.skip(2), board_command_status_options(), false) {
            Ok(m) => board_command_status_decode(m),
            Err(e) => Err(e),
        }
    } else {
        Err(CliErrorView { kind: CliErrorKind::UnknownSubcommand, arg: argv[1] })
    }
}

impl BoardCommand {
    /// Parses a `board` command line; see [`board_command_parse`].
    pub fn try_parse_from(argv: &Vec<String>) -> (r: Result<BoardCommand, CliError>)
        ensures
            rview(r) == board_command_parse(token_views(argv@)),
    {
        if argv.len() < 2 {
            return Err(cli_error(CliErrorKind::MissingSubcommand, "board"));
        }
        let ghost tv = token_views(argv@);
        let sub = argv[1].as_str();
        assert(sub@ == tv[1]);
        if str_eq(sub, "status") {
            let rest = tail_tokens(argv, 2);
            let opts = board_command_status_option_specs();
            match match_tokens(&rest, &opts, false) {
                Ok(m) => board_command_status_from(&m),
                Err(e) => Err(e),
            }
        } else {
            Err(CliError { kind: CliErrorKind::UnknownSubcommand, arg: argv[1].clone() })
        }
    }
}

} // verus!
