//! `epic`: creating, listing, changing and deleting epics.
use vstd::prelude::*;
use crate::cli::args::{cli_error, match_args, match_tokens, opt_views, tail_tokens, token_views, CliError, CliErrorKind, CliErrorView, MatchView, Matched, OptSpec, OptView};
use crate::cli::values::{rview, arg_text, opt_text, switch_on, arg_i64, opt_i64, positional_i64, take_text, take_opt_text, take_switch, take_i64, take_opt_i64, take_positional_i64, invalid_value};
use crate::models::opt_view;
use crate::text::str_eq;
use crate::enums::EpicStatus;

verus! {

/// Reads an epic status by its wire name.
pub fn parse_epic_status(s: &str) -> (r: Result<EpicStatus, CliError>)
    ensures
        match r {
            Ok(v) => EpicStatus::from_name(s@) == Some(v),
            Err(e) => EpicStatus::from_name(s@) is None && e@ == invalid_value(s@),
        },
{
    match EpicStatus::parse(s) {
        Some(v) => Ok(v),
        None => Err(CliError { kind: CliErrorKind::InvalidValue, arg: String::from_str(s) }),
    }
}

/// Arguments of the `epic` command group.
#[derive(Clone, Debug)]
pub struct EpicArgs {
    pub command: EpicCommand,
}

impl View for EpicArgs {
    type V = EpicCommandView;

    open spec fn view(&self) -> EpicCommandView {
        self.command@
    }
}

/// Subcommands of `epic`.
#[derive(Clone, Debug)]
pub enum EpicCommand {
    /// Creates an epic.
    Create {
        project: String,
        title: String,
        mission_id: Option<i64>,
        sprint: Option<i64>,
    },
    /// Lists epics.
    List {
        project: Option<String>,
        status: Option<String>,
        sprint: Option<i64>,
        backlog_only: bool,
        include_completed: bool,
    },
    /// Shows one epic.
    Get {
        id: i64,
    },
    /// Changes the status, title or description of an epic.
    Update {
        id: i64,
        status: Option<String>,
        title: Option<String>,
        description: Option<String>,
    },
    /// Moves an epic to a sprint (none: backlog); its issues follow.
    SetSprint {
        epic_id: i64,
        sprint: Option<i64>,
    },
    /// Deletes an epic and everything under it.
    Delete {
        id: i64,
    },
}

/// The mathematical content of a [`EpicCommand`]: texts as character sequences.
pub enum EpicCommandView {
    Create {
        project: Seq<char>,
        title: Seq<char>,
        mission_id: Option<i64>,
        sprint: Option<i64>,
    },
    List {
        project: Option<Seq<char>>,
        status: Option<Seq<char>>,
        sprint: Option<i64>,
        backlog_only: bool,
        include_completed: bool,
    },
    Get {
        id: i64,
    },
    Update {
        id: i64,
        status: Option<Seq<char>>,
        title: Option<Seq<char>>,
        description: Option<Seq<char>>,
    },
    SetSprint {
        epic_id: i64,
        sprint: Option<i64>,
    },
    Delete {
        id: i64,
    },
}

impl View for EpicCommand {
    type V = EpicCommandView;

    open spec fn view(&self) -> EpicCommandView {
        match *self {
            EpicCommand::Create { project, title, mission_id, sprint } => EpicCommandView::Create { project: project@, title: title@, mission_id: mission_id, sprint: sprint },
            EpicCommand::List { project, status, sprint, backlog_only, include_completed } => EpicCommandView::List { project: opt_view(project), status: opt_view(status), sprint: sprint, backlog_only: backlog_only, include_completed: include_completed },
            EpicCommand::Get { id } => EpicCommandView::Get { id: id },
            EpicCommand::Update { id, status, title, description } => EpicCommandView::Update { id: id, status: opt_view(status), title: opt_view(title), description: opt_view(description) },
            EpicCommand::SetSprint { epic_id, sprint } => EpicCommandView::SetSprint { epic_id: epic_id, sprint: sprint },
            EpicCommand::Delete { id } => EpicCommandView::Delete { id: id },
        }
    }
}

/// The options of `epic create`.
pub open spec fn epic_command_create_options() -> Seq<OptView> {
    seq![OptView { name: "project"@, takes_value: true }, OptView { name: "title"@, takes_value: true }, OptView { name: "mission-id"@, takes_value: true }, OptView { name: "sprint"@, takes_value: true }]
}

fn epic_command_create_option_specs() -> (v: Vec<OptSpec>)
    ensures
        opt_views(v@) == epic_command_create_options(),
{
    let mut v: Vec<OptSpec> = Vec::new();
    v.push(OptSpec { name: "project", takes_value: true });
    v.push(OptSpec { name: "title", takes_value: true });
    v.push(OptSpec { name: "mission-id", takes_value: true });
    v.push(OptSpec { name: "sprint", takes_value: true });
    assert(opt_views(v@) =~= epic_command_create_options());
    v
}

/// The `create` subcommand built from its matched arguments.
pub open spec fn epic_command_create_decode(m: MatchView) -> Result<EpicCommandView, CliErrorView> {
    match arg_text(m, 0, "project"@) {
        Err(e) => Err(e),
        Ok(project) => {
            match arg_text(m, 1, "title"@) {
                Err(e) => Err(e),
                Ok(title) => {
                    match opt_i64(m, 2) {
                        Err(e) => Err(e),
                        Ok(mission_id) => {
                            match opt_i64(m, 3) {
                                Err(e) => Err(e),
                                Ok(sprint) => {
                                    Ok(EpicCommandView::Create { project, title, mission_id, sprint })
                                },
                            }
                        },
                    }
                },
            }
        },
    }
}

fn epic_command_create_from(m: &Matched) -> (r: Result<EpicCommand, CliError>)
    requires
        m.values@.len() == 4,
    ensures
        rview(r) == epic_command_create_decode(m@),
{
    let project = match take_text(m, 0, "project") {
        Ok(v) => v,
        Err(e) => {
            return Err(e);
        },
    };
    let title = match take_text(m, 1, "title") {
        Ok(v) => v,
        Err(e) => {
            return Err(e);
        },
    };
    let mission_id = match take_opt_i64(m, 2) {
        Ok(v) => v,
        Err(e) => {
            return Err(e);
        },
    };
    let sprint = match take_opt_i64(m, 3) {
        Ok(v) => v,
        Err(e) => {
            return Err(e);
        },
    };
    Ok(EpicCommand::Create { project, title, mission_id, sprint })
}

/// The options of `epic list`.
pub open spec fn epic_command_list_options() -> Seq<OptView> {
    seq![OptView { name: "project"@, takes_value: true }, OptView { name: "status"@, takes_value: true }, OptView { name: "sprint"@, takes_value: true }, OptView { name: "backlog-only"@, takes_value: false }, OptView { name: "include-completed"@, takes_value: false }]
}

fn epic_command_list_option_specs() -> (v: Vec<OptSpec>)
    ensures
        opt_views(v@) == epic_command_list_options(),
{
    let mut v: Vec<OptSpec> = Vec::new();
    v.push(OptSpec { name: "project", takes_value: true });
    v.push(OptSpec { name: "status", takes_value: true });
    v.push(OptSpec { name: "sprint", takes_value: true });
    v.push(OptSpec { name: "backlog-only", takes_value: false });
    v.push(OptSpec { name: "include-completed", takes_value: false });
    assert(opt_views(v@) =~= epic_command_list_options());
    v
}

/// The `list` subcommand built from its matched arguments.
pub open spec fn epic_command_list_decode(m: MatchView) -> Result<EpicCommandView, CliErrorView> {
    let project = opt_text(m, 0);
    let status = opt_text(m, 1);
    match opt_i64(m, 2) {
        Err(e) => Err(e),
        Ok(sprint) => {
            let backlog_only = switch_on(m, 3);
            let include_completed = switch_on(m, 4);
            Ok(EpicCommandView::List { project, status, sprint, backlog_only, include_completed })
        },
    }
}

fn epic_command_list_from(m: &Matched) -> (r: Result<EpicCommand, CliError>)
    requires
        m.values@.len() == 5,
    ensures
        rview(r) == epic_command_list_decode(m@),
{
    let project = take_opt_text(m, 0);
    let status = take_opt_text(m, 1);
    let sprint = match take_opt_i64(m, 2) {
        Ok(v) => v,
        Err(e) => {
            return Err(e);
        },
    };
    let backlog_only = take_switch(m, 3);
    let include_completed = take_switch(m, 4);
    Ok(EpicCommand::List { project, status, sprint, backlog_only, include_completed })
}

/// The options of `epic get`.
pub open spec fn epic_command_get_options() -> Seq<OptView> {
    Seq::empty()
}

fn epic_command_get_option_specs() -> (v: Vec<OptSpec>)
    ensures
        opt_views(v@) == epic_command_get_options(),
{
    let mut v: Vec<OptSpec> = Vec::new();
    assert(opt_views(v@) =~= epic_command_get_options());
    v
}

/// The `get` subcommand built from its matched arguments.
pub open spec fn epic_command_get_decode(m: MatchView) -> Result<EpicCommandView, CliErrorView> {
    match positional_i64(m, "id"@) {
        Err(e) => Err(e),
        Ok(id) => {
            Ok(EpicCommandView::Get { id })
        },
    }
}

fn epic_command_get_from(m: &Matched) -> (r: Result<EpicCommand, CliError>)
    requires
        m.values@.len() == 0,
    ensures
        rview(r) == epic_command_get_decode(m@),
{
    let id = match take_positional_i64(m, "id") {
        Ok(v) => v,
        Err(e) => {
            return Err(e);
        },
    };
    Ok(EpicCommand::Get { id })
}

/// The options of `epic update`.
pub open spec fn epic_command_update_options() -> Seq<OptView> {
    seq![OptView { name: "status"@, takes_value: true }, OptView { name: "title"@, takes_value: true }, OptView { name: "description"@, takes_value: true }]
}

fn epic_command_update_option_specs() -> (v: Vec<OptSpec>)
    ensures
        opt_views(v@) == epic_command_update_options(),
{
    let mut v: Vec<OptSpec> = Vec::new();
    v.push(OptSpec { name: "status", takes_value: true });
    v.push(OptSpec { name: "title", takes_value: true });
    v.push(OptSpec { name: "description", takes_value: true });
    assert(opt_views(v@) =~= epic_command_update_options());
    v
}

/// The `update` subcommand built from its matched arguments.
pub open spec fn epic_command_update_decode(m: MatchView) -> Result<EpicCommandView, CliErrorView> {
    match positional_i64(m, "id"@) {
        Err(e) => Err(e),
        Ok(id) => {
            let status = opt_text(m, 0);
            let title = opt_text(m, 1);
            let description = opt_text(m, 2);
            Ok(EpicCommandView::Update { id, status, title, description })
        },
    }
}

fn epic_command_update_from(m: &Matched) -> (r: Result<EpicCommand, CliError>)
    requires
        m.values@.len() == 3,
    ensures
        rview(r) == epic_command_update_decode(m@),
{
    let id = match take_positional_i64(m, "id") {
        Ok(v) => v,
        Err(e) => {
            return Err(e);
        },
    };
    let status = take_opt_text(m, 0);
    let title = take_opt_text(m, 1);
    let description = take_opt_text(m, 2);
    Ok(EpicCommand::Update { id, status, title, description })
}

/// The options of `epic set-sprint`.
pub open spec fn epic_command_set_sprint_options() -> Seq<OptView> {
    seq![OptView { name: "epic-id"@, takes_value: true }, OptView { name: "sprint"@, takes_value: true }]
}

fn epic_command_set_sprint_option_specs() -> (v: Vec<OptSpec>)
    ensures
        opt_views(v@) == epic_command_set_sprint_options(),
{
    let mut v: Vec<OptSpec> = Vec::new();
    v.push(OptSpec { name: "epic-id", takes_value: true });
    v.push(OptSpec { name: "sprint", takes_value: true });
    assert(opt_views(v@) =~= epic_command_set_sprint_options());
    v
}

/// The `set-sprint` subcommand built from its matched arguments.
pub open spec fn epic_command_set_sprint_decode(m: MatchView) -> Result<EpicCommandView, CliErrorView> {
    match arg_i64(m, 0, "epic-id"@) {
        Err(e) => Err(e),
        Ok(epic_id) => {
            match opt_i64(m, 1) {
                Err(e) => Err(e),
                Ok(sprint) => {
                    Ok(EpicCommandView::SetSprint { epic_id, sprint })
                },
            }
        },
    }
}

fn epic_command_set_sprint_from(m: &Matched) -> (r: Result<EpicCommand, CliError>)
    requires
        m.values@.len() == 2,
    ensures
        rview(r) == epic_command_set_sprint_decode(m@),
{
    let epic_id = match take_i64(m, 0, "epic-id") {
        Ok(v) => v,
        Err(e) => {
            return Err(e);
        },
    };
    let sprint = match take_opt_i64(m, 1) {
        Ok(v) => v,
        Err(e) => {
            return Err(e);
        },
    };
    Ok(EpicCommand::SetSprint { epic_id, sprint })
}

/// The options of `epic delete`.
pub open spec fn epic_command_delete_options() -> Seq<OptView> {
    Seq::empty()
}

fn epic_command_delete_option_specs() -> (v: Vec<OptSpec>)
    ensures
        opt_views(v@) == epic_command_delete_options(),
{
    let mut v: Vec<OptSpec> = Vec::new();
    assert(opt_views(v@) =~= epic_command_delete_options());
    v
}

/// The `delete` subcommand built from its matched arguments.
pub open spec fn epic_command_delete_decode(m: MatchView) -> Result<EpicCommandView, CliErrorView> {
    match positional_i64(m, "id"@) {
        Err(e) => Err(e),
        Ok(id) => {
            Ok(EpicCommandView::Delete { id })
        },
    }
}

fn epic_command_delete_from(m: &Matched) -> (r: Result<EpicCommand, CliError>)
    requires
        m.values@.len() == 0,
    ensures
        rview(r) == epic_command_delete_decode(m@),
{
    let id = match take_positional_i64(m, "id") {
        Ok(v) => v,
        Err(e) => {
            return Err(e);
        },
    };
    Ok(EpicCommand::Delete { id })
}

/// What `epic` makes of its arguments: `argv[0]` is the program name,
/// `argv[1]` the subcommand, the rest its arguments.
pub open spec fn epic_command_parse(argv: Seq<Seq<char>>) -> Result<EpicCommandView, CliErrorView> {
    if argv.len() < 2 {
        Err(CliErrorView { kind: CliErrorKind::MissingSubcommand, arg: "epic"@ })
    } else if argv[1] == "create"@ {
        match match_args(argv.skip(2), epic_command_create_options(), false) {
            Ok(m) => epic_command_create_decode(m),
            Err(e) => Err(e),
        }
    } else if argv[1] == "list"@ {
        match match_args(argv.skip(2), epic_command_list_options(), false) {
            Ok(m) => epic_command_list_decode(m),
            Err(e) => Err(e),
        }
    } else if argv[1] == "get"@ {
        match match_args(argv.skip(2), epic_command_get_options(), true) {
            Ok(m) => epic_command_get_decode(m),
            Err(e) => Err(e),
        }
    } else if argv[1] == "update"@ {
        match match_args(argv.skip(2), epic_command_update_options(), true) {
            Ok(m) => epic_command_update_decode(m),
            Err(e) => Err(e),
        }
    } else if argv[1] == "set-sprint"@ {
        match match_args(argv.skip(2), epic_command_set_sprint_options(), false) {
            Ok(m) => epic_command_set_sprint_decode(m),
            Err(e) => Err(e),
        }
    } else if argv[1] == "delete"@ {
        match match_args(argv.skip(2), epic_command_delete_options(), true) {
            Ok(m) => epic_command_delete_decode(m),
            Err(e) => Err(e),
        }
    } else {
        Err(CliErrorView { kind: CliErrorKind::UnknownSubcommand, arg: argv[1] })
    }
}

impl EpicCommand {
    /// Parses a `epic` command line; see [`epic_command_parse`].
    pub fn try_parse_from(argv: &Vec<String>) -> (r: Result<EpicCommand, CliError>)
        ensures
            rview(r) == epic_command_parse(token_views(argv@)),
    {
        if argv.len() < 2 {
            return Err(cli_error(CliErrorKind::MissingSubcommand, "epic"));
        }
        let ghost tv = token_views(argv@);
        let sub = argv[1].as_str();
        assert(sub@ == tv[1]);
        if str_eq(sub, "create") {
            let rest = tail_tokens(argv, 2);
            let opts = epic_command_create_option_specs();
            match match_tokens(&rest, &opts, false) {
                Ok(m) => epic_command_create_from(&m),
                Err(e) => Err(e),
            }
        } else if str_eq(sub, "list") {
            let rest = tail_tokens(argv, 2);
            let opts = epic_command_list_option_specs();
            match match_tokens(&rest, &opts, false) {
                Ok(m) => epic_command_list_from(&m),
                Err(e) => Err(e),
            }
        } else if str_eq(sub, "get") {
            let rest = tail_tokens(argv, 2);
            let opts = epic_command_get_option_specs();
            match match_tokens(&rest, &opts, true) {
                Ok(m) => epic_command_get_from(&m),
                Err(e) => Err(e),
            }
        } else if str_eq(sub, "update") {
            let rest = tail_tokens(argv, 2);
            let opts = epic_command_update_option_specs();
            match match_tokens(&rest, &opts, true) {
                Ok(m) => epic_command_update_from(&m),
                Err(e) => Err(e),
            }
        } else if str_eq(sub, "set-sprint") {
            let rest = tail_tokens(argv, 2);
            let opts = epic_command_set_sprint_option_specs();
            match match_tokens(&rest, &opts, false) {
                Ok(m) => epic_command_set_sprint_from(&m),
                Err(e) => Err(e),
            }
        } else if str_eq(sub, "delete") {
            let rest = tail_tokens(argv, 2);
            let opts = epic_command_delete_option_specs();
            match match_tokens(&rest, &opts, true) {
                Ok(m) => epic_command_delete_from(&m),
                Err(e) => Err(e),
            }
        } else {
            Err(CliError { kind: CliErrorKind::UnknownSubcommand, arg: argv[1].clone() })
        }
    }
}

} // verus!
