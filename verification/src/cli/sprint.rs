//! `sprint`: sprints.
use vstd::prelude::*;
use crate::cli::args::{cli_error, match_args, match_tokens, opt_views, tail_tokens, token_views, CliError, CliErrorKind, CliErrorView, MatchView, Matched, OptSpec, OptView};
use crate::cli::values::{rview, arg_text, opt_text, positional_i64, take_text, take_opt_text, take_positional_i64};
use crate::models::opt_view;
use crate::text::str_eq;

verus! {

/// Arguments of the `sprint` command group.
#[derive(Clone, Debug)]
pub struct SprintArgs {
    pub command: SprintCommand,
}

impl View for SprintArgs {
    type V = SprintCommandView;

    open spec fn view(&self) -> SprintCommandView {
        self.command@
    }
}

/// Subcommands of `sprint`.
#[derive(Clone, Debug)]
pub enum SprintCommand {
    /// Creates a sprint.
    Create {
        name: String,
        goal: Option<String>,
        start: Option<String>,
        end: Option<String>,
    },
    /// Lists sprints.
    List,
    /// Shows the active sprint.
    Current,
    /// Changes a sprint.
    Update {
        id: i64,
        name: Option<String>,
        status: Option<String>,
        goal: Option<String>,
    },
    /// Deletes a sprint.
    Delete {
        id: i64,
    },
}

/// The mathematical content of a [`SprintCommand`]: texts as character sequences.
pub enum SprintCommandView {
    Create {
        name: Seq<char>,
        goal: Option<Seq<char>>,
        start: Option<Seq<char>>,
        end: Option<Seq<char>>,
    },
    List,
    Current,
    Update {
        id: i64,
        name: Option<Seq<char>>,
        status: Option<Seq<char>>,
        goal: Option<Seq<char>>,
    },
    Delete {
        id: i64,
    },
}

impl View for SprintCommand {
    type V = SprintCommandView;

    open spec fn view(&self) -> SprintCommandView {
        match *self {
            SprintCommand::Create { name, goal, start, end } => SprintCommandView::Create { name: name@, goal: opt_view(goal), start: opt_view(start), end: opt_view(end) },
            SprintCommand::List => SprintCommandView::List,
            SprintCommand::Current => SprintCommandView::Current,
            SprintCommand::Update { id, name, status, goal } => SprintCommandView::Update { id: id, name: opt_view(name), status: opt_view(status), goal: opt_view(goal) },
            SprintCommand::Delete { id } => SprintCommandView::Delete { id: id },
        }
    }
}

/// The options of `sprint create`.
pub open spec fn sprint_command_create_options() -> Seq<OptView> {
    seq![OptView { name: "name"@, takes_value: true }, OptView { name: "goal"@, takes_value: true }, OptView { name: "start"@, takes_value: true }, OptView { name: "end"@, takes_value: true }]
}

fn sprint_command_create_option_specs() -> (v: Vec<OptSpec>)
    ensures
        opt_views(v@) == sprint_command_create_options(),
{
    let mut v: Vec<OptSpec> = Vec::new();
    v.push(OptSpec { name: "name", takes_value: true });
    v.push(OptSpec { name: "goal", takes_value: true });
    v.push(OptSpec { name: "start", takes_value: true });
    v.push(OptSpec { name: "end", takes_value: true });
    assert(opt_views(v@) =~= sprint_command_create_options());
    v
}

/// The `create` subcommand built from its matched arguments.
pub open spec fn sprint_command_create_decode(m: MatchView) -> Result<SprintCommandView, CliErrorView> {
    match arg_text(m, 0, "name"@) {
        Err(e) => Err(e),
        Ok(name) => {
            let goal = opt_text(m, 1);
            let start = opt_text(m, 2);
            let end = opt_text(m, 3);
            Ok(SprintCommandView::Create { name, goal, start, end })
        },
    }
}

fn sprint_command_create_from(m: &Matched) -> (r: Result<SprintCommand, CliError>)
    requires
        m.values@.len() == 4,
    ensures
        rview(r) == sprint_command_create_decode(m@),
{
    let name = match take_text(m, 0, "name") {
        Ok(v) => v,
        Err(e) => {
            return Err(e);
        },
    };
    let goal = take_opt_text(m, 1);
    let start = take_opt_text(m, 2);
    let end = take_opt_text(m, 3);
    Ok(SprintCommand::Create { name, goal, start, end })
}

/// The options of `sprint list`.
pub open spec fn sprint_command_list_options() -> Seq<OptView> {
    Seq::empty()
}

fn sprint_command_list_option_specs() -> (v: Vec<OptSpec>)
    ensures
        opt_views(v@) == sprint_command_list_options(),
{
    let mut v: Vec<OptSpec> = Vec::new();
    assert(opt_views(v@) =~= sprint_command_list_options());
    v
}

/// The `list` subcommand built from its matched arguments.
pub open spec fn sprint_command_list_decode(m: MatchView) -> Result<SprintCommandView, CliErrorView> {
    Ok(SprintCommandView::List)
}

fn sprint_command_list_from(m: &Matched) -> (r: Result<SprintCommand, CliError>)
    requires
        m.values@.len() == 0,
    ensures
        rview(r) == sprint_command_list_decode(m@),
{
    Ok(SprintCommand::List)
}

/// The options of `sprint current`.
pub open spec fn sprint_command_current_options() -> Seq<OptView> {
    Seq::empty()
}

fn sprint_command_current_option_specs() -> (v: Vec<OptSpec>)
    ensures
        opt_views(v@) == sprint_command_current_options(),
{
    let mut v: Vec<OptSpec> = Vec::new();
    assert(opt_views(v@) =~= sprint_command_current_options());
    v
}

/// The `current` subcommand built from its matched arguments.
pub open spec fn sprint_command_current_decode(m: MatchView) -> Result<SprintCommandView, CliErrorView> {
    Ok(SprintCommandView::Current)
}

fn sprint_command_current_from(m: &Matched) -> (r: Result<SprintCommand, CliError>)
    requires
        m.values@.len() == 0,
    ensures
        rview(r) == sprint_command_current_decode(m@),
{
    Ok(SprintCommand::Current)
}

/// The options of `sprint update`.
pub open spec fn sprint_command_update_options() -> Seq<OptView> {
    seq![OptView { name: "name"@, takes_value: true }, OptView { name: "status"@, takes_value: true }, OptView { name: "goal"@, takes_value: true }]
}

fn sprint_command_update_option_specs() -> (v: Vec<OptSpec>)
    ensures
        opt_views(v@) == sprint_command_update_options(),
{
    let mut v: Vec<OptSpec> = Vec::new();
    v.push(OptSpec { name: "name", takes_value: true });
    v.push(OptSpec { name: "status", takes_value: true });
    v.push(OptSpec { name: "goal", takes_value: true });
    assert(opt_views(v@) =~= sprint_command_update_options());
    v
}

/// The `update` subcommand built from its matched arguments.
pub open spec fn sprint_command_update_decode(m: MatchView) -> Result<SprintCommandView, CliErrorView> {
    match positional_i64(m, "id"@) {
        Err(e) => Err(e),
        Ok(id) => {
            let name = opt_text(m, 0);
            let status = opt_text(m, 1);
            let goal = opt_text(m, 2);
            Ok(SprintCommandView::Update { id, name, status, goal })
        },
    }
}

fn sprint_command_update_from(m: &Matched) -> (r: Result<SprintCommand, CliError>)
    requires
        m.values@.len() == 3,
    ensures
        rview(r) == sprint_command_update_decode(m@),
{
    let id = match take_positional_i64(m, "id") {
        Ok(v) => v,
        Err(e) => {
            return Err(e);
        },
    };
    let name = take_opt_text(m, 0);
    let status = take_opt_text(m, 1);
    let goal = take_opt_text(m, 2);
    Ok(SprintCommand::Update { id, name, status, goal })
}

/// The options of `sprint delete`.
pub open spec fn sprint_command_delete_options() -> Seq<OptView> {
    Seq::empty()
}

fn sprint_command_delete_option_specs() -> (v: Vec<OptSpec>)
    ensures
        opt_views(v@) == sprint_command_delete_options(),
{
    let mut v: Vec<OptSpec> = Vec::new();
    assert(opt_views(v@) =~= sprint_command_delete_options());
    v
}

/// The `delete` subcommand built from its matched arguments.
pub open spec fn sprint_command_delete_decode(m: MatchView) -> Result<SprintCommandView, CliErrorView> {
    match positional_i64(m, "id"@) {
        Err(e) => Err(e),
        Ok(id) => {
            Ok(SprintCommandView::Delete { id })
        },
    }
}

fn sprint_command_delete_from(m: &Matched) -> (r: Result<SprintCommand, CliError>)
    requires
        m.values@.len() == 0,
    ensures
        rview(r) == sprint_command_delete_decode(m@),
{
    let id = match take_positional_i64(m, "id") {
        Ok(v) => v,
        Err(e) => {
            return Err(e);
        },
    };
    Ok(SprintCommand::Delete { id })
}

/// What `sprint` makes of its arguments: `argv[0]` is the program name,
/// `argv[1]` the subcommand, the rest its arguments.
pub open spec fn sprint_command_parse(argv: Seq<Seq<char>>) -> Result<SprintCommandView, CliErrorView> {
    if argv.len() < 2 {
        Err(CliErrorView { kind: CliErrorKind::MissingSubcommand, arg: "sprint"@ })
    } else if argv[1] == "create"@ {
        match match_args(argv.skip(2), sprint_command_create_options(), false) {
            Ok(m) => sprint_command_create_decode(m),
            Err(e) => Err(e),
        }
    } else if argv[1] == "list"@ {
        match match_args(argv.skip(2), sprint_command_list_options(), false) {
            Ok(m) => sprint_command_list_decode(m),
            Err(e) => Err(e),
        }
    } else if argv[1] == "current"@ {
        match match_args(argv.skip(2), sprint_command_current_options(), false) {
            Ok(m) => sprint_command_current_decode(m),
            Err(e) => Err(e),
        }
    } else if argv[1] == "update"@ {
        match match_args(argv.skip(2), sprint_command_update_options(), true) {
            Ok(m) => sprint_command_update_decode(m),
            Err(e) => Err(e),
        }
    } else if argv[1] == "delete"@ {
        match match_args(argv.skip(2), sprint_command_delete_options(), true) {
            Ok(m) => sprint_command_delete_decode(m),
            Err(e) => Err(e),
        }
    } else {
        Err(CliErrorView { kind: CliErrorKind::UnknownSubcommand, arg: argv[1] })
    }
}

impl SprintCommand {
    /// Parses a `sprint` command line; see [`sprint_command_parse`].
    pub fn try_parse_from(argv: &Vec<String>) -> (r: Result<SprintCommand, CliError>)
        ensures
            rview(r) == sprint_command_parse(token_views(argv@)),
    {
        if argv.len() < 2 {
            return Err(cli_error(CliErrorKind::MissingSubcommand, "sprint"));
        }
        let ghost tv = token_views(argv@);
        let sub = argv[1].as_str();
        assert(sub@ == tv[1]);
        if str_eq(sub, "create") {
            let rest = tail_tokens(argv, 2);
            let opts = sprint_command_create_option_specs();
            match match_tokens(&rest, &opts, false) {
                Ok(m) => sprint_command_create_from(&m),
                Err(e) => Err(e),
            }
        } else if str_eq(sub, "list") {
            let rest = tail_tokens(argv, 2);
            let opts = sprint_command_list_option_specs();
            match match_tokens(&rest, &opts, false) {
                Ok(m) => sprint_command_list_from(&m),
                Err(e) => Err(e),
            }
        } else if str_eq(sub, "current") {
            let rest = tail_tokens(argv, 2);
            let opts = sprint_command_current_option_specs();
            match match_tokens(&rest, &opts, false) {
                Ok(m) => sprint_command_current_from(&m),
                Err(e) => Err(e),
            }
        } else if str_eq(sub, "update") {
            let rest = tail_tokens(argv, 2);
            let opts = sprint_command_update_option_specs();
            match match_tokens(&rest, &opts, true) {
                Ok(m) => sprint_command_update_from(&m),
                Err(e) => Err(e),
            }
        } else if str_eq(sub, "delete") {
            let rest = tail_tokens(argv, 2);
            let opts = sprint_command_delete_option_specs();
            match match_tokens(&rest, &opts, true) {
                Ok(m) => sprint_command_delete_from(&m),
                Err(e) => Err(e),
            }
        } else {
            Err(CliError { kind: CliErrorKind::UnknownSubcommand, arg: argv[1].clone() })
        }
    }
}

} // verus!
