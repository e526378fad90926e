//! `retrospective`: retrospective documents and their action items.
use vstd::prelude::*;
use crate::cli::args::{cli_error, match_args, match_tokens, opt_views, tail_tokens, token_views, CliError, CliErrorKind, CliErrorView, MatchView, Matched, OptSpec, OptView};
use crate::cli::values::{rview, arg_text, opt_text, arg_i64, opt_i64, u32_or, take_text, take_opt_text, take_i64, take_opt_i64, take_u32_or};
use crate::models::opt_view;
use crate::text::str_eq;

verus! {

/// Arguments of the `retrospective` command group.
#[derive(Clone, Debug)]
pub struct RetrospectiveArgs {
    pub command: RetrospectiveSubcommands,
}

impl View for RetrospectiveArgs {
    type V = RetrospectiveSubcommandsView;

    open spec fn view(&self) -> RetrospectiveSubcommandsView {
        self.command@
    }
}

/// Subcommands of `retrospective action-item`.
#[derive(Clone, Debug)]
pub enum ActionItemSubcommands {
    /// Adds an action item.
    Add {
        retro_id: i64,
        title: String,
        description: Option<String>,
    },
    /// Changes an action item.
    Update {
        id: i64,
        title: Option<String>,
        status: Option<String>,
    },
    /// Turns one action item, or all of a retrospective, into issues.
    Convert {
        id: Option<i64>,
        retro_id: Option<i64>,
    },
}

/// The mathematical content of a [`ActionItemSubcommands`]: texts as character sequences.
pub enum ActionItemSubcommandsView {
    Add {
        retro_id: i64,
        title: Seq<char>,
        description: Option<Seq<char>>,
    },
    Update {
        id: i64,
        title: Option<Seq<char>>,
        status: Option<Seq<char>>,
    },
    Convert {
        id: Option<i64>,
        retro_id: Option<i64>,
    },
}

impl View for ActionItemSubcommands {
    type V = ActionItemSubcommandsView;

    open spec fn view(&self) -> ActionItemSubcommandsView {
        match *self {
            ActionItemSubcommands::Add { retro_id, title, description } => ActionItemSubcommandsView::Add { retro_id: retro_id, title: title@, description: opt_view(description) },
            ActionItemSubcommands::Update { id, title, status } => ActionItemSubcommandsView::Update { id: id, title: opt_view(title), status: opt_view(status) },
            ActionItemSubcommands::Convert { id, retro_id } => ActionItemSubcommandsView::Convert { id: id, retro_id: retro_id },
        }
    }
}

/// The options of `action-item add`.
pub open spec fn action_item_subcommands_add_options() -> Seq<OptView> {
    seq![OptView { name: "retro-id"@, takes_value: true }, OptView { name: "title"@, takes_value: true }, OptView { name: "description"@, takes_value: true }]
}

fn action_item_subcommands_add_option_specs() -> (v: Vec<OptSpec>)
    ensures
        opt_views(v@) == action_item_subcommands_add_options(),
{
    let mut v: Vec<OptSpec> = Vec::new();
    v.push(OptSpec { name: "retro-id", takes_value: true });
    v.push(OptSpec { name: "title", takes_value: true });
    v.push(OptSpec { name: "description", takes_value: true });
    assert(opt_views(v@) =~= action_item_subcommands_add_options());
    v
}

/// The `add` subcommand built from its matched arguments.
pub open spec fn action_item_subcommands_add_decode(m: MatchView) -> Result<ActionItemSubcommandsView, CliErrorView> {
    match arg_i64(m, 0, "retro-id"@) {
        Err(e) => Err(e),
        Ok(retro_id) => {
            match arg_text(m, 1, "title"@) {
                Err(e) => Err(e),
                Ok(title) => {
                    let description = opt_text(m, 2);
                    Ok(ActionItemSubcommandsView::Add { retro_id, title, description })
                },
            }
        },
    }
}

fn action_item_subcommands_add_from(m: &Matched) -> (r: Result<ActionItemSubcommands, CliError>)
    requires
        m.values@.len() == 3,
    ensures
        rview(r) == action_item_subcommands_add_decode(m@),
{
    let retro_id = match take_i64(m, 0, "retro-id") {
        Ok(v) => v,
        Err(e) => {
            return Err(e);
        },
    };
    let title = match take_text(m, 1, "title") {
        Ok(v) => v,
        Err(e) => {
            return Err(e);
        },
    };
    let description = take_opt_text(m, 2);
    Ok(ActionItemSubcommands::Add { retro_id, title, description })
}

/// The options of `action-item update`.
pub open spec fn action_item_subcommands_update_options() -> Seq<OptView> {
    seq![OptView { name: "id"@, takes_value: true }, OptView { name: "title"@, takes_value: true }, OptView { name: "status"@, takes_value: true }]
}

fn action_item_subcommands_update_option_specs() -> (v: Vec<OptSpec>)
    ensures
        opt_views(v@) == action_item_subcommands_update_options(),
{
    let mut v: Vec<OptSpec> = Vec::new();
    v.push(OptSpec { name: "id", takes_value: true });
    v.push(OptSpec { name: "title", takes_value: true });
    v.push(OptSpec { name: "status", takes_value: true });
    assert(opt_views(v@) =~= action_item_subcommands_update_options());
    v
}

/// The `update` subcommand built from its matched arguments.
pub open spec fn action_item_subcommands_update_decode(m: MatchView) -> Result<ActionItemSubcommandsView, CliErrorView> {
    match arg_i64(m, 0, "id"@) {
        Err(e) => Err(e),
        Ok(id) => {
            let title = opt_text(m, 1);
            let status = opt_text(m, 2);
            Ok(ActionItemSubcommandsView::Update { id, title, status })
        },
    }
}

fn action_item_subcommands_update_from(m: &Matched) -> (r: Result<ActionItemSubcommands, CliError>)
    requires
        m.values@.len() == 3,
    ensures
        rview(r) == action_item_subcommands_update_decode(m@),
{
    let id = match take_i64(m, 0, "id") {
        Ok(v) => v,
        Err(e) => {
            return Err(e);
        },
    };
    let title = take_opt_text(m, 1);
    let status = take_opt_text(m, 2);
    Ok(ActionItemSubcommands::Update { id, title, status })
}

/// The options of `action-item convert`.
pub open spec fn action_item_subcommands_convert_options() -> Seq<OptView> {
    seq![OptView { name: "id"@, takes_value: true }, OptView { name: "retro-id"@, takes_value: true }]
}

fn action_item_subcommands_convert_option_specs() -> (v: Vec<OptSpec>)
    ensures
        opt_views(v@) == action_item_subcommands_convert_options(),
{
    let mut v: Vec<OptSpec> = Vec::new();
    v.push(OptSpec { name: "id", takes_value: true });
    v.push(OptSpec { name: "retro-id", takes_value: true });
    assert(opt_views(v@) =~= action_item_subcommands_convert_options());
    v
}

/// The `convert` subcommand built from its matched arguments.
pub open spec fn action_item_subcommands_convert_decode(m: MatchView) -> Result<ActionItemSubcommandsView, CliErrorView> {
    match opt_i64(m, 0) {
        Err(e) => Err(e),
        Ok(id) => {
            match opt_i64(m, 1) {
                Err(e) => Err(e),
                Ok(retro_id) => {
                    Ok(ActionItemSubcommandsView::Convert { id, retro_id })
                },
            }
        },
    }
}

fn action_item_subcommands_convert_from(m: &Matched) -> (r: Result<ActionItemSubcommands, CliError>)
    requires
        m.values@.len() == 2,
    ensures
        rview(r) == action_item_subcommands_convert_decode(m@),
{
    let id = match take_opt_i64(m, 0) {
        Ok(v) => v,
        Err(e) => {
            return Err(e);
        },
    };
    let retro_id = match take_opt_i64(m, 1) {
        Ok(v) => v,
        Err(e) => {
            return Err(e);
        },
    };
    Ok(ActionItemSubcommands::Convert { id, retro_id })
}

/// What `action-item` makes of its arguments: `argv[0]` is the program name,
/// `argv[1]` the subcommand, the rest its arguments.
pub open spec fn action_item_subcommands_parse(argv: Seq<Seq<char>>) -> Result<ActionItemSubcommandsView, CliErrorView> {
    if argv.len() < 2 {
        Err(CliErrorView { kind: CliErrorKind::MissingSubcommand, arg: "action-item"@ })
    } else if argv[1] == "add"@ {
        match match_args(argv.skip(2), action_item_subcommands_add_options(), false) {
            Ok(m) => action_item_subcommands_add_decode(m),
            Err(e) => Err(e),
        }
    } else if argv[1] == "update"@ {
        match match_args(argv.skip(2), action_item_subcommands_update_options(), false) {
            Ok(m) => action_item_subcommands_update_decode(m),
            Err(e) => Err(e),
        }
    } else if argv[1] == "convert"@ {
        match match_args(argv.skip(2), action_item_subcommands_convert_options(), false) {
            Ok(m) => action_item_subcommands_convert_decode(m),
            Err(e) => Err(e),
        }
    } else {
        Err(CliErrorView { kind: CliErrorKind::UnknownSubcommand, arg: argv[1] })
    }
}

impl ActionItemSubcommands {
    /// Parses a `action-item` command line; see [`action_item_subcommands_parse`].
    pub fn try_parse_from(argv: &Vec<String>) -> (r: Result<ActionItemSubcommands, CliError>)
        ensures
            rview(r) == action_item_subcommands_parse(token_views(argv@)),
    {
        if argv.len() < 2 {
            return Err(cli_error(CliErrorKind::MissingSubcommand, "action-item"));
        }
        let ghost tv = token_views(argv@);
        let sub = argv[1].as_str();
        assert(sub@ == tv[1]);
        if str_eq(sub, "add") {
            let rest = tail_tokens(argv, 2);
            let opts = action_item_subcommands_add_option_specs();
            match match_tokens(&rest, &opts, false) {
                Ok(m) => action_item_subcommands_add_from(&m),
                Err(e) => Err(e),
            }
        } else if str_eq(sub, "update") {
            let rest = tail_tokens(argv, 2);
            let opts = action_item_subcommands_update_option_specs();
            match match_tokens(&rest, &opts, false) {
                Ok(m) => action_item_subcommands_update_from(&m),
                Err(e) => Err(e),
            }
        } else if str_eq(sub, "convert") {
            let rest = tail_tokens(argv, 2);
            let opts = action_item_subcommands_convert_option_specs();
            match match_tokens(&rest, &opts, false) {
                Ok(m) => action_item_subcommands_convert_from(&m),
                Err(e) => Err(e),
            }
        } else {
            Err(CliError { kind: CliErrorKind::UnknownSubcommand, arg: argv[1].clone() })
        }
    }
}

/// Subcommands of `retrospective`.
#[derive(Clone, Debug)]
pub enum RetrospectiveSubcommands {
    /// Writes a retrospective.
    Create {
        project: String,
        title: String,
        content: String,
        sprint_id: Option<i64>,
        mission_id: Option<i64>,
        epic_id: Option<i64>,
    },
    /// Lists retrospectives.
    List {
        project: Option<String>,
        sprint_id: Option<i64>,
        limit: u32,
    },
    /// Shows one retrospective.
    Get {
        id: i64,
    },
    /// Changes a retrospective.
    Update {
        id: i64,
        title: Option<String>,
        content: Option<String>,
    },
    /// Deletes a retrospective.
    Delete {
        id: i64,
    },
    /// Manages action items.
    ActionItem {
        command: ActionItemSubcommands,
    },
}

/// The mathematical content of a [`RetrospectiveSubcommands`]: texts as character sequences.
pub enum RetrospectiveSubcommandsView {
    Create {
        project: Seq<char>,
        title: Seq<char>,
        content: Seq<char>,
        sprint_id: Option<i64>,
        mission_id: Option<i64>,
        epic_id: Option<i64>,
    },
    List {
        project: Option<Seq<char>>,
        sprint_id: Option<i64>,
        limit: u32,
    },
    Get {
        id: i64,
    },
    Update {
        id: i64,
        title: Option<Seq<char>>,
        content: Option<Seq<char>>,
    },
    Delete {
        id: i64,
    },
    ActionItem {
        command: ActionItemSubcommandsView,
    },
}

impl View for RetrospectiveSubcommands {
    type V = RetrospectiveSubcommandsView;

    open spec fn view(&self) -> RetrospectiveSubcommandsView {
        match *self {
            RetrospectiveSubcommands::Create { project, title, content, sprint_id, mission_id, epic_id } => RetrospectiveSubcommandsView::Create { project: project@, title: title@, content: content@, sprint_id: sprint_id, mission_id: mission_id, epic_id: epic_id },
            RetrospectiveSubcommands::List { project, sprint_id, limit } => RetrospectiveSubcommandsView::List { project: opt_view(project), sprint_id: sprint_id, limit: limit },
            RetrospectiveSubcommands::Get { id } => RetrospectiveSubcommandsView::Get { id: id },
            RetrospectiveSubcommands::Update { id, title, content } => RetrospectiveSubcommandsView::Update { id: id, title: opt_view(title), content: opt_view(content) },
            RetrospectiveSubcommands::Delete { id } => RetrospectiveSubcommandsView::Delete { id: id },
            RetrospectiveSubcommands::ActionItem { command } => RetrospectiveSubcommandsView::ActionItem { command: command@ },
        }
    }
}

/// The options of `retrospective create`.
pub open spec fn retrospective_subcommands_create_options() -> Seq<OptView> {
    seq![OptView { name: "project"@, takes_value: true }, OptView { name: "title"@, takes_value: true }, OptView { name: "content"@, takes_value: true }, OptView { name: "sprint-id"@, takes_value: true }, OptView { name: "mission-id"@, takes_value: true }, OptView { name: "epic-id"@, takes_value: true }]
}

fn retrospective_subcommands_create_option_specs() -> (v: Vec<OptSpec>)
    ensures
        opt_views(v@) == retrospective_subcommands_create_options(),
{
    let mut v: Vec<OptSpec> = Vec::new();
    v.push(OptSpec { name: "project", takes_value: true });
    v.push(OptSpec { name: "title", takes_value: true });
    v.push(OptSpec { name: "content", takes_value: true });
    v.push(OptSpec { name: "sprint-id", takes_value: true });
    v.push(OptSpec { name: "mission-id", takes_value: true });
    v.push(OptSpec { name: "epic-id", takes_value: true });
    assert(opt_views(v@) =~= retrospective_subcommands_create_options());
    v
}

/// The `create` subcommand built from its matched arguments.
pub open spec fn retrospective_subcommands_create_decode(m: MatchView) -> Result<RetrospectiveSubcommandsView, CliErrorView> {
    match arg_text(m, 0, "project"@) {
        Err(e) => Err(e),
        Ok(project) => {
            match arg_text(m, 1, "title"@) {
                Err(e) => Err(e),
                Ok(title) => {
                    match arg_text(m, 2, "content"@) {
                        Err(e) => Err(e),
                        Ok(content) => {
                            match opt_i64(m, 3) {
                                Err(e) => Err(e),
                                Ok(sprint_id) => {
                                    match opt_i64(m, 4) {
                                        Err(e) => Err(e),
                                        Ok(mission_id) => {
                                            match opt_i64(m, 5) {
                                                Err(e) => Err(e),
                                                Ok(epic_id) => {
                                                    Ok(RetrospectiveSubcommandsView::Create { project, title, content, sprint_id, mission_id, epic_id })
                                                },
                                            }
                                        },
                                    }
                                },
                            }
                        },
                    }
                },
            }
        },
    }
}

fn retrospective_subcommands_create_from(m: &Matched) -> (r: Result<RetrospectiveSubcommands, CliError>)
    requires
        m.values@.len() == 6,
    ensures
        rview(r) == retrospective_subcommands_create_decode(m@),
{
    let project = match take_text(m, 0, "project") {
        Ok(v) => v,
        Err(e) => {
            return Err(e);
        },
    };
    let title = match take_text(m, 1, "title") {
        Ok(v) => v,
        Err(e) => {
            return Err(e);
        },
    };
    let content = match take_text(m, 2, "content") {
        Ok(v) => v,
        Err(e) => {
            return Err(e);
        },
    };
    let sprint_id = match take_opt_i64(m, 3) {
        Ok(v) => v,
        Err(e) => {
            return Err(e);
        },
    };
    let mission_id = match take_opt_i64(m, 4) {
        Ok(v) => v,
        Err(e) => {
            return Err(e);
        },
    };
    let epic_id = match take_opt_i64(m, 5) {
        Ok(v) => v,
        Err(e) => {
            return Err(e);
        },
    };
    Ok(RetrospectiveSubcommands::Create { project, title, content, sprint_id, mission_id, epic_id })
}

/// The options of `retrospective list`.
pub open spec fn retrospective_subcommands_list_options() -> Seq<OptView> {
    seq![OptView { name: "project"@, takes_value: true }, OptView { name: "sprint-id"@, takes_value: true }, OptView { name: "limit"@, takes_value: true }]
}

fn retrospective_subcommands_list_option_specs() -> (v: Vec<OptSpec>)
    ensures
        opt_views(v@) == retrospective_subcommands_list_options(),
{
    let mut v: Vec<OptSpec> = Vec::new();
    v.push(OptSpec { name: "project", takes_value: true });
    v.push(OptSpec { name: "sprint-id", takes_value: true });
    v.push(OptSpec { name: "limit", takes_value: true });
    assert(opt_views(v@) =~= retrospective_subcommands_list_options());
    v
}

/// The `list` subcommand built from its matched arguments.
pub open spec fn retrospective_subcommands_list_decode(m: MatchView) -> Result<RetrospectiveSubcommandsView, CliErrorView> {
    let project = opt_text(m, 0);
    match opt_i64(m, 1) {
        Err(e) => Err(e),
        Ok(sprint_id) => {
            match u32_or(m, 2, 50u32) {
                Err(e) => Err(e),
                Ok(limit) => {
                    Ok(RetrospectiveSubcommandsView::List { project, sprint_id, limit })
                },
            }
        },
    }
}

fn retrospective_subcommands_list_from(m: &Matched) -> (r: Result<RetrospectiveSubcommands, CliError>)
    requires
        m.values@.len() == 3,
    ensures
        rview(r) == retrospective_subcommands_list_decode(m@),
{
    let project = take_opt_text(m, 0);
    let sprint_id = match take_opt_i64(m, 1) {
        Ok(v) => v,
        Err(e) => {
            return Err(e);
        },
    };
    let limit = match take_u32_or(m, 2, 50) {
        Ok(v) => v,
        Err(e) => {
            return Err(e);
        },
    };
    Ok(RetrospectiveSubcommands::List { project, sprint_id, limit })
}

/// The options of `retrospective get`.
pub open spec fn retrospective_subcommands_get_options() -> Seq<OptView> {
    seq![OptView { name: "id"@, takes_value: true }]
}

fn retrospective_subcommands_get_option_specs() -> (v: Vec<OptSpec>)
    ensures
        opt_views(v@) == retrospective_subcommands_get_options(),
{
    let mut v: Vec<OptSpec> = Vec::new();
    v.push(OptSpec { name: "id", takes_value: true });
    assert(opt_views(v@) =~= retrospective_subcommands_get_options());
    v
}

/// The `get` subcommand built from its matched arguments.
pub open spec fn retrospective_subcommands_get_decode(m: MatchView) -> Result<RetrospectiveSubcommandsView, CliErrorView> {
    match arg_i64(m, 0, "id"@) {
        Err(e) => Err(e),
        Ok(id) => {
            Ok(RetrospectiveSubcommandsView::Get { id })
        },
    }
}

fn retrospective_subcommands_get_from(m: &Matched) -> (r: Result<RetrospectiveSubcommands, CliError>)
    requires
        m.values@.len() == 1,
    ensures
        rview(r) == retrospective_subcommands_get_decode(m@),
{
    let id = match take_i64(m, 0, "id") {
        Ok(v) => v,
        Err(e) => {
            return Err(e);
        },
    };
    Ok(RetrospectiveSubcommands::Get { id })
}

/// The options of `retrospective update`.
pub open spec fn retrospective_subcommands_update_options() -> Seq<OptView> {
    seq![OptView { name: "id"@, takes_value: true }, OptView { name: "title"@, takes_value: true }, OptView { name: "content"@, takes_value: true }]
}

fn retrospective_subcommands_update_option_specs() -> (v: Vec<OptSpec>)
    ensures
        opt_views(v@) == retrospective_subcommands_update_options(),
{
    let mut v: Vec<OptSpec> = Vec::new();
    v.push(OptSpec { name: "id", takes_value: true });
    v.push(OptSpec { name: "title", takes_value: true });
    v.push(OptSpec { name: "content", takes_value: true });
    assert(opt_views(v@) =~= retrospective_subcommands_update_options());
    v
}

/// The `update` subcommand built from its matched arguments.
pub open spec fn retrospective_subcommands_update_decode(m: MatchView) -> Result<RetrospectiveSubcommandsView, CliErrorView> {
    match arg_i64(m, 0, "id"@) {
        Err(e) => Err(e),
        Ok(id) => {
            let title = opt_text(m, 1);
            let content = opt_text(m, 2);
            Ok(RetrospectiveSubcommandsView::Update { id, title, content })
        },
    }
}

fn retrospective_subcommands_update_from(m: &Matched) -> (r: Result<RetrospectiveSubcommands, CliError>)
    requires
        m.values@.len() == 3,
    ensures
        rview(r) == retrospective_subcommands_update_decode(m@),
{
    let id = match take_i64(m, 0, "id") {
        Ok(v) => v,
        Err(e) => {
            return Err(e);
        },
    };
    let title = take_opt_text(m, 1);
    let content = take_opt_text(m, 2);
    Ok(RetrospectiveSubcommands::Update { id, title, content })
}

/// The options of `retrospective delete`.
pub open spec fn retrospective_subcommands_delete_options() -> Seq<OptView> {
    seq![OptView { name: "id"@, takes_value: true }]
}

fn retrospective_subcommands_delete_option_specs() -> (v: Vec<OptSpec>)
    ensures
        opt_views(v@) == retrospective_subcommands_delete_options(),
{
    let mut v: Vec<OptSpec> = Vec::new();
    v.push(OptSpec { name: "id", takes_value: true });
    assert(opt_views(v@) =~= retrospective_subcommands_delete_options());
    v
}

/// The `delete` subcommand built from its matched arguments.
pub open spec fn retrospective_subcommands_delete_decode(m: MatchView) -> Result<RetrospectiveSubcommandsView, CliErrorView> {
    match arg_i64(m, 0, "id"@) {
        Err(e) => Err(e),
        Ok(id) => {
            Ok(RetrospectiveSubcommandsView::Delete { id })
        },
    }
}

fn retrospective_subcommands_delete_from(m: &Matched) -> (r: Result<RetrospectiveSubcommands, CliError>)
    requires
        m.values@.len() == 1,
    ensures
        rview(r) == retrospective_subcommands_delete_decode(m@),
{
    let id = match take_i64(m, 0, "id") {
        Ok(v) => v,
        Err(e) => {
            return Err(e);
        },
    };
    Ok(RetrospectiveSubcommands::Delete { id })
}

/// What `retrospective` makes of its arguments: `argv[0]` is the program name,
/// `argv[1]` the subcommand, the rest its arguments.
pub open spec fn retrospective_subcommands_parse(argv: Seq<Seq<char>>) -> Result<RetrospectiveSubcommandsView, CliErrorView> {
    if argv.len() < 2 {
        Err(CliErrorView { kind: CliErrorKind::MissingSubcommand, arg: "retrospective"@ })
    } else if argv[1] == "create"@ {
        match match_args(argv.skip(2), retrospective_subcommands_create_options(), false) {
            Ok(m) => retrospective_subcommands_create_decode(m),
            Err(e) => Err(e),
        }
    } else if argv[1] == "list"@ {
        match match_args(argv.skip(2), retrospective_subcommands_list_options(), false) {
            Ok(m) => retrospective_subcommands_list_decode(m),
            Err(e) => Err(e),
        }
    } else if argv[1] == "get"@ {
        match match_args(argv.skip(2), retrospective_subcommands_get_options(), false) {
            Ok(m) => retrospective_subcommands_get_decode(m),
            Err(e) => Err(e),
        }
    } else if argv[1] == "update"@ {
        match match_args(argv.skip(2), retrospective_subcommands_update_options(), false) {
            Ok(m) => retrospective_subcommands_update_decode(m),
            Err(e) => Err(e),
        }
    } else if argv[1] == "delete"@ {
        match match_args(argv.skip(2), retrospective_subcommands_delete_options(), false) {
            Ok(m) => retrospective_subcommands_delete_decode(m),
            Err(e) => Err(e),
        }
    } else if argv[1] == "action-item"@ {
        match action_item_subcommands_parse(argv.skip(1)) {
            Ok(command) => Ok(RetrospectiveSubcommandsView::ActionItem { command }),
            Err(e) => Err(e),
        }
    } else {
        Err(CliErrorView { kind: CliErrorKind::UnknownSubcommand, arg: argv[1] })
    }
}

impl RetrospectiveSubcommands {
    /// Parses a `retrospective` command line; see [`retrospective_subcommands_parse`].
    pub fn try_parse_from(argv: &Vec<String>) -> (r: Result<RetrospectiveSubcommands, CliError>)
        ensures
            rview(r) == retrospective_subcommands_parse(token_views(argv@)),
    {
        if argv.len() < 2 {
            return Err(cli_error(CliErrorKind::MissingSubcommand, "retrospective"));
        }
        let ghost tv = token_views(argv@);
        let sub = argv[1].as_str();
        assert(sub@ == tv[1]);
        if str_eq(sub, "create") {
            let rest = tail_tokens(argv, 2);
            let opts = retrospective_subcommands_create_option_specs();
            match match_tokens(&rest, &opts, false) {
                Ok(m) => retrospective_subcommands_create_from(&m),
                Err(e) => Err(e),
            }
        } else if str_eq(sub, "list") {
            let rest = tail_tokens(argv, 2);
            let opts = retrospective_subcommands_list_option_specs();
            match match_tokens(&rest, &opts, false) {
                Ok(m) => retrospective_subcommands_list_from(&m),
                Err(e) => Err(e),
            }
        } else if str_eq(sub, "get") {
            let rest = tail_tokens(argv, 2);
            let opts = retrospective_subcommands_get_option_specs();
            match match_tokens(&rest, &opts, false) {
                Ok(m) => retrospective_subcommands_get_from(&m),
                Err(e) => Err(e),
            }
        } else if str_eq(sub, "update") {
            let rest = tail_tokens(argv, 2);
            let opts = retrospective_subcommands_update_option_specs();
            match match_tokens(&rest, &opts, false) {
                Ok(m) => retrospective_subcommands_update_from(&m),
                Err(e) => Err(e),
            }
        } else if str_eq(sub, "delete") {
            let rest = tail_tokens(argv, 2);
            let opts = retrospective_subcommands_delete_option_specs();
            match match_tokens(&rest, &opts, false) {
                Ok(m) => retrospective_subcommands_delete_from(&m),
                Err(e) => Err(e),
            }
        } else if str_eq(sub, "action-item") {
            let inner = tail_tokens(argv, 1);
            match ActionItemSubcommands::try_parse_from(&inner) {
                Ok(command) => Ok(RetrospectiveSubcommands::ActionItem { command }),
                Err(e) => Err(e),
            }
        } else {
            Err(CliError { kind: CliErrorKind::UnknownSubcommand, arg: argv[1].clone() })
        }
    }
}

} // verus!
