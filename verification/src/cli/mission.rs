//! `mission`: missions and their trees.
use vstd::prelude::*;
use crate::cli::args::{cli_error, match_args, match_tokens, opt_views, tail_tokens, token_views, CliError, CliErrorKind, CliErrorView, MatchView, Matched, OptSpec, OptView};
use crate::cli::values::{rview, arg_text, opt_text, switch_on, arg_i64, opt_i64, positional_i64, take_text, take_opt_text, take_switch, take_i64, take_opt_i64, take_positional_i64, invalid_value};
use crate::models::opt_view;
use crate::text::str_eq;
use crate::enums::MissionStatus;

verus! {

/// Reads a mission status by its wire name.
pub fn parse_mission_status(s: &str) -> (r: Result<MissionStatus, CliError>)
    ensures
        match r {
            Ok(v) => MissionStatus::from_name(s@) == Some(v),
            Err(e) => MissionStatus::from_name(s@) is None && e@ == invalid_value(s@),
        },
{
    match MissionStatus::parse(s) {
        Some(v) => Ok(v),
        None => Err(CliError { kind: CliErrorKind::InvalidValue, arg: String::from_str(s) }),
    }
}

/// Arguments of the `mission` command group.
#[derive(Clone, Debug)]
pub struct MissionArgs {
    pub command: MissionCommand,
}

impl View for MissionArgs {
    type V = MissionCommandView;

    open spec fn view(&self) -> MissionCommandView {
        self.command@
    }
}

/// Subcommands of `mission`.
#[derive(Clone, Debug)]
pub enum MissionCommand {
    /// Creates a mission.
    Create {
        title: String,
        description: Option<String>,
        jira_key: Option<String>,
        sprint: Option<i64>,
    },
    /// Lists missions.
    List {
        sprint: Option<i64>,
        include_completed: bool,
    },
    /// Shows one mission.
    Get {
        id: i64,
    },
    /// Changes a mission.
    Update {
        id: i64,
        title: Option<String>,
        description: Option<String>,
        status: Option<String>,
        jira_key: Option<String>,
        sprint: Option<i64>,
    },
    /// Deletes a mission that has no epics.
    Delete {
        id: i64,
    },
    /// The mission with its epics and their issues.
    GetTree {
        id: i64,
        jira_key: Option<String>,
    },
    /// Moves a mission to a sprint (none: backlog).
    SetSprint {
        mission_id: i64,
        sprint: Option<i64>,
    },
}

/// The mathematical content of a [`MissionCommand`]: texts as character sequences.
pub enum MissionCommandView {
    Create {
        title: Seq<char>,
        description: Option<Seq<char>>,
        jira_key: Option<Seq<char>>,
        sprint: Option<i64>,
    },
    List {
        sprint: Option<i64>,
        include_completed: bool,
    },
    Get {
        id: i64,
    },
    Update {
        id: i64,
        title: Option<Seq<char>>,
        description: Option<Seq<char>>,
        status: Option<Seq<char>>,
        jira_key: Option<Seq<char>>,
        sprint: Option<i64>,
    },
    Delete {
        id: i64,
    },
    GetTree {
        id: i64,
        jira_key: Option<Seq<char>>,
    },
    SetSprint {
        mission_id: i64,
        sprint: Option<i64>,
    },
}

impl View for MissionCommand {
    type V = MissionCommandView;

    open spec fn view(&self) -> MissionCommandView {
        match *self {
            MissionCommand::Create { title, description, jira_key, sprint } => MissionCommandView::Create { title: title@, description: opt_view(description), jira_key: opt_view(jira_key), sprint: sprint },
            MissionCommand::List { sprint, include_completed } => MissionCommandView::List { sprint: sprint, include_completed: include_completed },
            MissionCommand::Get { id } => MissionCommandView::Get { id: id },
            MissionCommand::Update { id, title, description, status, jira_key, sprint } => MissionCommandView::Update { id: id, title: opt_view(title), description: opt_view(description), status: opt_view(status), jira_key: opt_view(jira_key), sprint: sprint },
            MissionCommand::Delete { id } => MissionCommandView::Delete { id: id },
            MissionCommand::GetTree { id, jira_key } => MissionCommandView::GetTree { id: id, jira_key: opt_view(jira_key) },
            MissionCommand::SetSprint { mission_id, sprint } => MissionCommandView::SetSprint { mission_id: mission_id, sprint: sprint },
        }
    }
}

/// The options of `mission create`.
pub open spec fn mission_command_create_options() -> Seq<OptView> {
    seq![OptView { name: "title"@, takes_value: true }, OptView { name: "description"@, takes_value: true }, OptView { name: "jira-key"@, takes_value: true }, OptView { name: "sprint"@, takes_value: true }]
}

fn mission_command_create_option_specs() -> (v: Vec<OptSpec>)
    ensures
        opt_views(v@) == mission_command_create_options(),
{
    let mut v: Vec<OptSpec> = Vec::new();
    v.push(OptSpec { name: "title", takes_value: true });
    v.push(OptSpec { name: "description", takes_value: true });
    v.push(OptSpec { name: "jira-key", takes_value: true });
    v.push(OptSpec { name: "sprint", takes_value: true });
    assert(opt_views(v@) =~= mission_command_create_options());
    v
}

/// The `create` subcommand built from its matched arguments.
pub open spec fn mission_command_create_decode(m: MatchView) -> Result<MissionCommandView, CliErrorView> {
    match arg_text(m, 0, "title"@) {
        Err(e) => Err(e),
        Ok(title) => {
            let description = opt_text(m, 1);
            let jira_key = opt_text(m, 2);
            match opt_i64(m, 3) {
                Err(e) => Err(e),
                Ok(sprint) => {
                    Ok(MissionCommandView::Create { title, description, jira_key, sprint })
                },
            }
        },
    }
}

fn mission_command_create_from(m: &Matched) -> (r: Result<MissionCommand, CliError>)
    requires
        m.values@.len() == 4,
    ensures
        rview(r) == mission_command_create_decode(m@),
{
    let title = match take_text(m, 0, "title") {
        Ok(v) => v,
        Err(e) => {
            return Err(e);
        },
    };
    let description = take_opt_text(m, 1);
    let jira_key = take_opt_text(m, 2);
    let sprint = match take_opt_i64(m, 3) {
        Ok(v) => v,
        Err(e) => {
            return Err(e);
        },
    };
    Ok(MissionCommand::Create { title, description, jira_key, sprint })
}

/// The options of `mission list`.
pub open spec fn mission_command_list_options() -> Seq<OptView> {
    seq![OptView { name: "sprint"@, takes_value: true }, OptView { name: "include-completed"@, takes_value: false }]
}

fn mission_command_list_option_specs() -> (v: Vec<OptSpec>)
    ensures
        opt_views(v@) == mission_command_list_options(),
{
    let mut v: Vec<OptSpec> = Vec::new();
    v.push(OptSpec { name: "sprint", takes_value: true });
    v.push(OptSpec { name: "include-completed", takes_value: false });
    assert(opt_views(v@) =~= mission_command_list_options());
    v
}

/// The `list` subcommand built from its matched arguments.
pub open spec fn mission_command_list_decode(m: MatchView) -> Result<MissionCommandView, CliErrorView> {
    match opt_i64(m, 0) {
        Err(e) => Err(e),
        Ok(sprint) => {
            let include_completed = switch_on(m, 1);
            Ok(MissionCommandView::List { sprint, include_completed })
        },
    }
}

fn mission_command_list_from(m: &Matched) -> (r: Result<MissionCommand, CliError>)
    requires
        m.values@.len() == 2,
    ensures
        rview(r) == mission_command_list_decode(m@),
{
    let sprint = match take_opt_i64(m, 0) {
        Ok(v) => v,
        Err(e) => {
            return Err(e);
        },
    };
    let include_completed = take_switch(m, 1);
    Ok(MissionCommand::List { sprint, include_completed })
}

/// The options of `mission get`.
pub open spec fn mission_command_get_options() -> Seq<OptView> {
    Seq::empty()
}

fn mission_command_get_option_specs() -> (v: Vec<OptSpec>)
    ensures
        opt_views(v@) == mission_command_get_options(),
{
    let mut v: Vec<OptSpec> = Vec::new();
    assert(opt_views(v@) =~= mission_command_get_options());
    v
}

/// The `get` subcommand built from its matched arguments.
pub open spec fn mission_command_get_decode(m: MatchView) -> Result<MissionCommandView, CliErrorView> {
    match positional_i64(m, "id"@) {
        Err(e) => Err(e),
        Ok(id) => {
            Ok(MissionCommandView::Get { id })
        },
    }
}

fn mission_command_get_from(m: &Matched) -> (r: Result<MissionCommand, CliError>)
    requires
        m.values@.len() == 0,
    ensures
        rview(r) == mission_command_get_decode(m@),
{
    let id = match take_positional_i64(m, "id") {
        Ok(v) => v,
        Err(e) => {
            return Err(e);
        },
    };
    Ok(MissionCommand::Get { id })
}

/// The options of `mission update`.
pub open spec fn mission_command_update_options() -> Seq<OptView> {
    seq![OptView { name: "title"@, takes_value: true }, OptView { name: "description"@, takes_value: true }, OptView { name: "status"@, takes_value: true }, OptView { name: "jira-key"@, takes_value: true }, OptView { name: "sprint"@, takes_value: true }]
}

fn mission_command_update_option_specs() -> (v: Vec<OptSpec>)
    ensures
        opt_views(v@) == mission_command_update_options(),
{
    let mut v: Vec<OptSpec> = Vec::new();
    v.push(OptSpec { name: "title", takes_value: true });
    v.push(OptSpec { name: "description", takes_value: true });
    v.push(OptSpec { name: "status", takes_value: true });
    v.push(OptSpec { name: "jira-key", takes_value: true });
    v.push(OptSpec { name: "sprint", takes_value: true });
    assert(opt_views(v@) =~= mission_command_update_options());
    v
}

/// The `update` subcommand built from its matched arguments.
pub open spec fn mission_command_update_decode(m: MatchView) -> Result<MissionCommandView, CliErrorView> {
    match positional_i64(m, "id"@) {
        Err(e) => Err(e),
        Ok(id) => {
            let title = opt_text(m, 0);
            let description = opt_text(m, 1);
            let status = opt_text(m, 2);
            let jira_key = opt_text(m, 3);
            match opt_i64(m, 4) {
                Err(e) => Err(e),
                Ok(sprint) => {
                    Ok(MissionCommandView::Update { id, title, description, status, jira_key, sprint })
                },
            }
        },
    }
}

fn mission_command_update_from(m: &Matched) -> (r: Result<MissionCommand, CliError>)
    requires
        m.values@.len() == 5,
    ensures
        rview(r) == mission_command_update_decode(m@),
{
    let id = match take_positional_i64(m, "id") {
        Ok(v) => v,
        Err(e) => {
            return Err(e);
        },
    };
    let title = take_opt_text(m, 0);
    let description = take_opt_text(m, 1);
    let status = take_opt_text(m, 2);
    let jira_key = take_opt_text(m, 3);
    let sprint = match take_opt_i64(m, 4) {
        Ok(v) => v,
        Err(e) => {
            return Err(e);
        },
    };
    Ok(MissionCommand::Update { id, title, description, status, jira_key, sprint })
}

/// The options of `mission delete`.
pub open spec fn mission_command_delete_options() -> Seq<OptView> {
    Seq::empty()
}

fn mission_command_delete_option_specs() -> (v: Vec<OptSpec>)
    ensures
        opt_views(v@) == mission_command_delete_options(),
{
    let mut v: Vec<OptSpec> = Vec::new();
    assert(opt_views(v@) =~= mission_command_delete_options());
    v
}

/// The `delete` subcommand built from its matched arguments.
pub open spec fn mission_command_delete_decode(m: MatchView) -> Result<MissionCommandView, CliErrorView> {
    match positional_i64(m, "id"@) {
        Err(e) => Err(e),
        Ok(id) => {
            Ok(MissionCommandView::Delete { id })
        },
    }
}

fn mission_command_delete_from(m: &Matched) -> (r: Result<MissionCommand, CliError>)
    requires
        m.values@.len() == 0,
    ensures
        rview(r) == mission_command_delete_decode(m@),
{
    let id = match take_positional_i64(m, "id") {
        Ok(v) => v,
        Err(e) => {
            return Err(e);
        },
    };
    Ok(MissionCommand::Delete { id })
}

/// The options of `mission get-tree`.
pub open spec fn mission_command_get_tree_options() -> Seq<OptView> {
    seq![OptView { name: "jira-key"@, takes_value: true }]
}

fn mission_command_get_tree_option_specs() -> (v: Vec<OptSpec>)
    ensures
        opt_views(v@) == mission_command_get_tree_options(),
{
    let mut v: Vec<OptSpec> = Vec::new();
    v.push(OptSpec { name: "jira-key", takes_value: true });
    assert(opt_views(v@) =~= mission_command_get_tree_options());
    v
}

/// The `get-tree` subcommand built from its matched arguments.
pub open spec fn mission_command_get_tree_decode(m: MatchView) -> Result<MissionCommandView, CliErrorView> {
    match positional_i64(m, "id"@) {
        Err(e) => Err(e),
        Ok(id) => {
            let jira_key = opt_text(m, 0);
            Ok(MissionCommandView::GetTree { id, jira_key })
        },
    }
}

fn mission_command_get_tree_from(m: &Matched) -> (r: Result<MissionCommand, CliError>)
    requires
        m.values@.len() == 1,
    ensures
        rview(r) == mission_command_get_tree_decode(m@),
{
    let id = match take_positional_i64(m, "id") {
        Ok(v) => v,
        Err(e) => {
            return Err(e);
        },
    };
    let jira_key = take_opt_text(m, 0);
    Ok(MissionCommand::GetTree { id, jira_key })
}

/// The options of `mission set-sprint`.
pub open spec fn mission_command_set_sprint_options() -> Seq<OptView> {
    seq![OptView { name: "mission-id"@, takes_value: true }, OptView { name: "sprint"@, takes_value: true }]
}

fn mission_command_set_sprint_option_specs() -> (v: Vec<OptSpec>)
    ensures
        opt_views(v@) == mission_command_set_sprint_options(),
{
    let mut v: Vec<OptSpec> = Vec::new();
    v.push(OptSpec { name: "mission-id", takes_value: true });
    v.push(OptSpec { name: "sprint", takes_value: true });
    assert(opt_views(v@) =~= mission_command_set_sprint_options());
    v
}

/// The `set-sprint` subcommand built from its matched arguments.
pub open spec fn mission_command_set_sprint_decode(m: MatchView) -> Result<MissionCommandView, CliErrorView> {
    match arg_i64(m, 0, "mission-id"@) {
        Err(e) => Err(e),
        Ok(mission_id) => {
            match opt_i64(m, 1) {
                Err(e) => Err(e),
                Ok(sprint) => {
                    Ok(MissionCommandView::SetSprint { mission_id, sprint })
                },
            }
        },
    }
}

fn mission_command_set_sprint_from(m: &Matched) -> (r: Result<MissionCommand, CliError>)
    requires
        m.values@.len() == 2,
    ensures
        rview(r) == mission_command_set_sprint_decode(m@),
{
    let mission_id = match take_i64(m, 0, "mission-id") {
        Ok(v) => v,
        Err(e) => {
            return Err(e);
        },
    };
    let sprint = match take_opt_i64(m, 1) {
        Ok(v) => v,
        Err(e) => {
            return Err(e);
        },
    };
    Ok(MissionCommand::SetSprint { mission_id, sprint })
}

/// What `mission` makes of its arguments: `argv[0]` is the program name,
/// `argv[1]` the subcommand, the rest its arguments.
pub open spec fn mission_command_parse(argv: Seq<Seq<char>>) -> Result<MissionCommandView, CliErrorView> {
    if argv.len() < 2 {
        Err(CliErrorView { kind: CliErrorKind::MissingSubcommand, arg: "mission"@ })
    } else if argv[1] == "create"@ {
        match match_args(argv.skip(2), mission_command_create_options(), false) {
            Ok(m) => mission_command_create_decode(m),
            Err(e) => Err(e),
        }
    } else if argv[1] == "list"@ {
        match match_args(argv.skip(2), mission_command_list_options(), false) {
            Ok(m) => mission_command_list_decode(m),
            Err(e) => Err(e),
        }
    } else if argv[1] == "get"@ {
        match match_args(argv.skip(2), mission_command_get_options(), true) {
            Ok(m) => mission_command_get_decode(m),
            Err(e) => Err(e),
        }
    } else if argv[1] == "update"@ {
        match match_args(argv.skip(2), mission_command_update_options(), true) {
            Ok(m) => mission_command_update_decode(m),
            Err(e) => Err(e),
        }
    } else if argv[1] == "delete"@ {
        match match_args(argv.skip(2), mission_command_delete_options(), true) {
            Ok(m) => mission_command_delete_decode(m),
            Err(e) => Err(e),
        }
    } else if argv[1] == "get-tree"@ {
        match match_args(argv.skip(2), mission_command_get_tree_options(), true) {
            Ok(m) => mission_command_get_tree_decode(m),
            Err(e) => Err(e),
        }
    } else if argv[1] == "set-sprint"@ {
        match match_args(argv.skip(2), mission_command_set_sprint_options(), false) {
            Ok(m) => mission_command_set_sprint_decode(m),
            Err(e) => Err(e),
        }
    } else {
        Err(CliErrorView { kind: CliErrorKind::UnknownSubcommand, arg: argv[1] })
    }
}

impl MissionCommand {
    /// Parses a `mission` command line; see [`mission_command_parse`].
    pub fn try_parse_from(argv: &Vec<String>) -> (r: Result<MissionCommand, CliError>)
        ensures
            rview(r) == mission_command_parse(token_views(argv@)),
    {
        if argv.len() < 2 {
            return Err(cli_error(CliErrorKind::MissingSubcommand, "mission"));
        }
        let ghost tv = token_views(argv@);
        let sub = argv[1].as_str();
        assert(sub@ == tv[1]);
        if str_eq(sub, "create") {
            let rest = tail_tokens(argv, 2);
            let opts = mission_command_create_option_specs();
            match match_tokens(&rest, &opts, false) {
                Ok(m) => mission_command_create_from(&m),
                Err(e) => Err(e),
            }
        } else if str_eq(sub, "list") {
            let rest = tail_tokens(argv, 2);
            let opts = mission_command_list_option_specs();
            match match_tokens(&rest, &opts, false) {
                Ok(m) => mission_command_list_from(&m),
                Err(e) => Err(e),
            }
        } else if str_eq(sub, "get") {
            let rest = tail_tokens(argv, 2);
            let opts = mission_command_get_option_specs();
            match match_tokens(&rest, &opts, true) {
                Ok(m) => mission_command_get_from(&m),
                Err(e) => Err(e),
            }
        } else if str_eq(sub, "update") {
            let rest = tail_tokens(argv, 2);
            let opts = mission_command_update_option_specs();
            match match_tokens(&rest, &opts, true) {
                Ok(m) => mission_command_update_from(&m),
                Err(e) => Err(e),
            }
        } else if str_eq(sub, "delete") {
            let rest = tail_tokens(argv, 2);
            let opts = mission_command_delete_option_specs();
            match match_tokens(&rest, &opts, true) {
                Ok(m) => mission_command_delete_from(&m),
                Err(e) => Err(e),
            }
        } else if str_eq(sub, "get-tree") {
            let rest = tail_tokens(argv, 2);
            let opts = mission_command_get_tree_option_specs();
            match match_tokens(&rest, &opts, true) {
                Ok(m) => mission_command_get_tree_from(&m),
                Err(e) => Err(e),
            }
        } else if str_eq(sub, "set-sprint") {
            let rest = tail_tokens(argv, 2);
            let opts = mission_command_set_sprint_option_specs();
            match match_tokens(&rest, &opts, false) {
                Ok(m) => mission_command_set_sprint_from(&m),
                Err(e) => Err(e),
            }
        } else {
            Err(CliError { kind: CliErrorKind::UnknownSubcommand, arg: argv[1].clone() })
        }
    }
}

} // verus!
