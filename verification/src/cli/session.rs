//! `session`: resuming and closing a working session.
use vstd::prelude::*;
use crate::cli::args::{cli_error, match_args, match_tokens, opt_views, tail_tokens, token_views, CliError, CliErrorKind, CliErrorView, MatchView, Matched, OptSpec, OptView};
use crate::cli::values::{rview, opt_text, switch_on, take_opt_text, take_switch};
use crate::models::opt_view;
use crate::text::str_eq;

verus! {

/// Arguments of the `session` command group.
#[derive(Clone, Debug)]
pub struct SessionArgs {
    pub command: SessionCommand,
}

impl View for SessionArgs {
    type V = SessionCommandView;

    open spec fn view(&self) -> SessionCommandView {
        self.command@
    }
}

/// Subcommands of `session`.
#[derive(Clone, Debug)]
pub enum SessionCommand {
    /// The state to resume work from.
    Restore {
        project: Option<String>,
        compact: bool,
    },
    /// The end-of-session checklist.
    End {
        project: Option<String>,
    },
}

/// The mathematical content of a [`SessionCommand`]: texts as character sequences.
pub enum SessionCommandView {
    Restore {
        project: Option<Seq<char>>,
        compact: bool,
    },
    End {
        project: Option<Seq<char>>,
    },
}

impl View for SessionCommand {
    type V = SessionCommandView;

    open spec fn view(&self) -> SessionCommandView {
        match *self {
            SessionCommand::Restore { project, compact } => SessionCommandView::Restore { project: opt_view(project), compact: compact },
            SessionCommand::End { project } => SessionCommandView::End { project: opt_view(project) },
        }
    }
}

/// The options of `session restore`.
pub open spec fn session_command_restore_options() -> Seq<OptView> {
    seq![OptView { name: "project"@, takes_value: true }, OptView { name: "compact"@, takes_value: false }]
}

fn session_command_restore_option_specs() -> (v: Vec<OptSpec>)
    ensures
        opt_views(v@) == session_command_restore_options(),
{
    let mut v: Vec<OptSpec> = Vec::new();
    v.push(OptSpec { name: "project", takes_value: true });
    v.push(OptSpec { name: "compact", takes_value: false });
    assert(opt_views(v@) =~= session_command_restore_options());
    v
}

/// The `restore` subcommand built from its matched arguments.
pub open spec fn session_command_restore_decode(m: MatchView) -> Result<SessionCommandView, CliErrorView> {
    let project = opt_text(m, 0);
    let compact = switch_on(m, 1);
    Ok(SessionCommandView::Restore { project, compact })
}

fn session_command_restore_from(m: &Matched) -> (r: Result<SessionCommand, CliError>)
    requires
        m.values@.len() == 2,
    ensures
        rview(r) == session_command_restore_decode(m@),
{
    let project = take_opt_text(m, 0);
    let compact = take_switch(m, 1);
    Ok(SessionCommand::Restore { project, compact })
}

/// The options of `session end`.
pub open spec fn session_command_end_options() -> Seq<OptView> {
    seq![OptView { name: "project"@, takes_value: true }]
}

fn session_command_end_option_specs() -> (v: Vec<OptSpec>)
    ensures
        opt_views(v@) == session_command_end_options(),
{
    let mut v: Vec<OptSpec> = Vec::new();
    v.push(OptSpec { name: "project", takes_value: true });
    assert(opt_views(v@) =~= session_command_end_options());
    v
}

/// The `end` subcommand built from its matched arguments.
pub open spec fn session_command_end_decode(m: MatchView) -> Result<SessionCommandView, CliErrorView> {
    let project = opt_text(m, 0);
    Ok(SessionCommandView::End { project })
}

fn session_command_end_from(m: &Matched) -> (r: Result<SessionCommand, CliError>)
    requires
        m.values@.len() == 1,
    ensures
        rview(r) == session_command_end_decode(m@),
{
    let project = take_opt_text(m, 0);
    Ok(SessionCommand::End { project })
}

/// What `session` makes of its arguments: `argv[0]` is the program name,
/// `argv[1]` the subcommand, the rest its arguments.
pub open spec fn session_command_parse(argv: Seq<Seq<char>>) -> Result<SessionCommandView, CliErrorView> {
    if argv.len() < 2 {
        Err(CliErrorView { kind: CliErrorKind::MissingSubcommand, arg: "session"@ })
    } else if argv[1] == "restore"@ {
        match match_args(argv.skip(2), session_command_restore_options(), false) {
            Ok(m) => session_command_restore_decode(m),
            Err(e) => Err(e),
        }
    } else if argv[1] == "end"@ {
        match match_args(argv.skip(2), session_command_end_options(), false) {
            Ok(m) => session_command_end_decode(m),
            Err(e) => Err(e),
        }
    } else {
        Err(CliErrorView { kind: CliErrorKind::UnknownSubcommand, arg: argv[1] })
    }
}

impl SessionCommand {
    /// Parses a `session` command line; see [`session_command_parse`].
    pub fn try_parse_from(argv: &Vec<String>) -> (r: Result<SessionCommand, CliError>)
        ensures
            rview(r) == session_command_parse(token_views(argv@)),
    {
        if argv.len() < 2 {
            return Err(cli_error(CliErrorKind::MissingSubcommand, "session"));
        }
        let ghost tv = token_views(argv@);
        let sub = argv[1].as_str();
        assert(sub@ == tv[1]);
        if str_eq(sub, "restore") {
            let rest = tail_tokens(argv, 2);
            let opts = session_command_restore_option_specs();
            match match_tokens(&rest, &opts, false) {
                Ok(m) => session_command_restore_from(&m),
                Err(e) => Err(e),
            }
        } else if str_eq(sub, "end") {
            let rest = tail_tokens(argv, 2);
            let opts = session_command_end_option_specs();
            match match_tokens(&rest, &opts, false) {
                Ok(m) => session_command_end_from(&m),
                Err(e) => Err(e),
            }
        } else {
            Err(CliError { kind: CliErrorKind::UnknownSubcommand, arg: argv[1].clone() })
        }
    }
}

} // verus!
