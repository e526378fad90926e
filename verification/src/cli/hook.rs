//! `hook`: assistant hook integration.
use vstd::prelude::*;
use crate::cli::args::{cli_error, match_args, match_tokens, opt_views, tail_tokens, token_views, CliError, CliErrorKind, CliErrorView, MatchView, Matched, OptSpec, OptView};
use crate::cli::values::{rview, opt_text, take_opt_text};
use crate::models::opt_view;
use crate::text::str_eq;

verus! {

/// Arguments of the `hook` command group.
#[derive(Clone, Debug)]
pub struct HookArgs {
    pub command: HookCommand,
}

impl View for HookArgs {
    type V = HookCommandView;

    open spec fn view(&self) -> HookCommandView {
        self.command@
    }
}

/// Subcommands of `hook`.
#[derive(Clone, Debug)]
pub enum HookCommand {
    /// Registers the hooks in the assistant settings.
    Install,
    /// Removes the hooks.
    Uninstall,
    /// Prints the end-of-session checklist.
    PostSessionCheck {
        project: Option<String>,
    },
}

/// The mathematical content of a [`HookCommand`]: texts as character sequences.
pub enum HookCommandView {
    Install,
    Uninstall,
    PostSessionCheck {
        project: Option<Seq<char>>,
    },
}

impl View for HookCommand {
    type V = HookCommandView;

    open spec fn view(&self) -> HookCommandView {
        match *self {
            HookCommand::Install => HookCommandView::Install,
            HookCommand::Uninstall => HookCommandView::Uninstall,
            HookCommand::PostSessionCheck { project } => HookCommandView::PostSessionCheck { project: opt_view(project) },
        }
    }
}

/// The options of `hook install`.
pub open spec fn hook_command_install_options() -> Seq<OptView> {
    Seq::empty()
}

fn hook_command_install_option_specs() -> (v: Vec<OptSpec>)
    ensures
        opt_views(v@) == hook_command_install_options(),
{
    let mut v: Vec<OptSpec> = Vec::new();
    assert(opt_views(v@) =~= hook_command_install_options());
    v
}

/// The `install` subcommand built from its matched arguments.
pub open spec fn hook_command_install_decode(m: MatchView) -> Result<HookCommandView, CliErrorView> {
    Ok(HookCommandView::Install)
}

fn hook_command_install_from(m: &Matched) -> (r: Result<HookCommand, CliError>)
    requires
        m.values@.len() == 0,
    ensures
        rview(r) == hook_command_install_decode(m@),
{
    Ok(HookCommand::Install)
}

/// The options of `hook uninstall`.
pub open spec fn hook_command_uninstall_options() -> Seq<OptView> {
    Seq::empty()
}

fn hook_command_uninstall_option_specs() -> (v: Vec<OptSpec>)
    ensures
        opt_views(v@) == hook_command_uninstall_options(),
{
    let mut v: Vec<OptSpec> = Vec::new();
    assert(opt_views(v@) =~= hook_command_uninstall_options());
    v
}

/// The `uninstall` subcommand built from its matched arguments.
pub open spec fn hook_command_uninstall_decode(m: MatchView) -> Result<HookCommandView, CliErrorView> {
    Ok(HookCommandView::Uninstall)
}

fn hook_command_uninstall_from(m: &Matched) -> (r: Result<HookCommand, CliError>)
    requires
        m.values@.len() == 0,
    ensures
        rview(r) == hook_command_uninstall_decode(m@),
{
    Ok(HookCommand::Uninstall)
}

/// The options of `hook post-session-check`.
pub open spec fn hook_command_post_session_check_options() -> Seq<OptView> {
    seq![OptView { name: "project"@, takes_value: true }]
}

fn hook_command_post_session_check_option_specs() -> (v: Vec<OptSpec>)
    ensures
        opt_views(v@) == hook_command_post_session_check_options(),
{
    let mut v: Vec<OptSpec> = Vec::new();
    v.push(OptSpec { name: "project", takes_value: true });
    assert(opt_views(v@) =~= hook_command_post_session_check_options());
    v
}

/// The `post-session-check` subcommand built from its matched arguments.
pub open spec fn hook_command_post_session_check_decode(m: MatchView) -> Result<HookCommandView, CliErrorView> {
    let project = opt_text(m, 0);
    Ok(HookCommandView::PostSessionCheck { project })
}

fn hook_command_post_session_check_from(m: &Matched) -> (r: Result<HookCommand, CliError>)
    requires
        m.values@.len() == 1,
    ensures
        rview(r) == hook_command_post_session_check_decode(m@),
{
    let project = take_opt_text(m, 0);
    Ok(HookCommand::PostSessionCheck { project })
}

/// What `hook` makes of its arguments: `argv[0]` is the program name,
/// `argv[1]` the subcommand, the rest its arguments.
pub open spec fn hook_command_parse(argv: Seq<Seq<char>>) -> Result<HookCommandView, CliErrorView> {
    if argv.len() < 2 {
        Err(CliErrorView { kind: CliErrorKind::MissingSubcommand, arg: "hook"@ })
    } else if argv[1] == "install"@ {
        match match_args(argv.skip(2), hook_command_install_options(), false) {
            Ok(m) => hook_command_install_decode(m),
            Err(e) => Err(e),
        }
    } else if argv[1] == "uninstall"@ {
        match match_args(argv.skip(2), hook_command_uninstall_options(), false) {
            Ok(m) => hook_command_uninstall_decode(m),
            Err(e) => Err(e),
        }
    } else if argv[1] == "post-session-check"@ {
        match match_args(argv.skip(2), hook_command_post_session_check_options(), false) {
            Ok(m) => hook_command_post_session_check_decode(m),
            Err(e) => Err(e),
        }
    } else {
        Err(CliErrorView { kind: CliErrorKind::UnknownSubcommand, arg: argv[1] })
    }
}

impl HookCommand {
    /// Parses a `hook` command line; see [`hook_command_parse`].
    pub fn try_parse_from(argv: &Vec<String>) -> (r: Result<HookCommand, CliError>)
        ensures
            rview(r) == hook_command_parse(token_views(argv@)),
    {
        if argv.len() < 2 {
            return Err(cli_error(CliErrorKind::MissingSubcommand, "hook"));
        }
        let ghost tv = token_views(argv@);
        let sub = argv[1].as_str();
        assert(sub@ == tv[1]);
        if str_eq(sub, "install") {
            let rest = tail_tokens(argv, 2);
            let opts = hook_command_install_option_specs();
            match match_tokens(&rest, &opts, false) {
                Ok(m) => hook_command_install_from(&m),
                Err(e) => Err(e),
            }
        } else if str_eq(sub, "uninstall") {
            let rest = tail_tokens(argv, 2);
            let opts = hook_command_uninstall_option_specs();
            match match_tokens(&rest, &opts, false) {
                Ok(m) => hook_command_uninstall_from(&m),
                Err(e) => Err(e),
            }
        } else if str_eq(sub, "post-session-check") {
            let rest = tail_tokens(argv, 2);
            let opts = hook_command_post_session_check_option_specs();
            match match_tokens(&rest, &opts, false) {
                Ok(m) => hook_command_post_session_check_from(&m),
                Err(e) => Err(e),
            }
        } else {
            Err(CliError { kind: CliErrorKind::UnknownSubcommand, arg: argv[1].clone() })
        }
    }
}

} // verus!
