//! `issue`: the life of an issue.
use vstd::prelude::*;
use crate::cli::args::{cli_error, match_args, match_tokens, opt_views, tail_tokens, token_views, CliError, CliErrorKind, CliErrorView, MatchView, Matched, OptSpec, OptView};
use crate::cli::values::{rview, arg_text, opt_text, text_or, switch_on, arg_i64, opt_i64, positional_i64, take_text, take_opt_text, take_text_or, take_switch, take_i64, take_opt_i64, take_positional_i64, invalid_value};
use crate::models::opt_view;
use crate::text::str_eq;
use crate::enums::{IssuePriority, IssueStatus, LinkType};

verus! {

/// Reads an issue status by its wire name.
pub fn parse_status(s: &str) -> (r: Result<IssueStatus, CliError>)
    ensures
        match r {
            Ok(v) => IssueStatus::from_name(s@) == Some(v),
            Err(e) => IssueStatus::from_name(s@) is None && e@ == invalid_value(s@),
        },
{
    match IssueStatus::parse(s) {
        Some(v) => Ok(v),
        None => Err(CliError { kind: CliErrorKind::InvalidValue, arg: String::from_str(s) }),
    }
}

/// Reads the status an issue is released to: only `ready`, `demo` or `required`.
pub fn parse_release_transition(s: &str) -> (r: Result<IssueStatus, CliError>)
    ensures
        match r {
            Ok(v) => IssueStatus::from_name(s@) == Some(v) && (v == IssueStatus::Ready || v == IssueStatus::Demo || v == IssueStatus::Required),
            Err(e) => !(IssueStatus::from_name(s@) matches Some(v) && (v == IssueStatus::Ready || v == IssueStatus::Demo || v == IssueStatus::Required)) && e@ == invalid_value(s@),
        },
{
    match IssueStatus::parse(s) {
        Some(v) => match v {
            IssueStatus::Ready | IssueStatus::Demo | IssueStatus::Required => Ok(v),
            _ => Err(CliError { kind: CliErrorKind::InvalidValue, arg: String::from_str(s) }),
        },
        None => Err(CliError { kind: CliErrorKind::InvalidValue, arg: String::from_str(s) }),
    }
}

/// Reads an issue priority by its wire name.
pub fn parse_priority(s: &str) -> (r: Result<IssuePriority, CliError>)
    ensures
        match r {
            Ok(v) => IssuePriority::from_name(s@) == Some(v),
            Err(e) => IssuePriority::from_name(s@) is None && e@ == invalid_value(s@),
        },
{
    match IssuePriority::parse(s) {
        Some(v) => Ok(v),
        None => Err(CliError { kind: CliErrorKind::InvalidValue, arg: String::from_str(s) }),
    }
}

/// Reads an issue link type by its wire name.
pub fn parse_link_type(s: &str) -> (r: Result<LinkType, CliError>)
    ensures
        match r {
            Ok(v) => LinkType::from_name(s@) == Some(v),
            Err(e) => LinkType::from_name(s@) is None && e@ == invalid_value(s@),
        },
{
    match LinkType::parse(s) {
        Some(v) => Ok(v),
        None => Err(CliError { kind: CliErrorKind::InvalidValue, arg: String::from_str(s) }),
    }
}

/// Arguments of the `issue` command group.
#[derive(Clone, Debug)]
pub struct IssueArgs {
    pub command: IssueCommand,
}

impl View for IssueArgs {
    type V = IssueCommandView;

    open spec fn view(&self) -> IssueCommandView {
        self.command@
    }
}

/// Subcommands of `issue`.
#[derive(Clone, Debug)]
pub enum IssueCommand {
    /// Creates an issue.
    Create {
        epic: i64,
        mission_id: Option<i64>,
        sprint: Option<i64>,
        title: String,
        goal: Option<String>,
        description: Option<String>,
    },
    /// Lists issues.
    List {
        project: Option<String>,
        epic: Option<i64>,
        mission: Option<i64>,
        sprint: Option<i64>,
        backlog_only: bool,
        status: Option<String>,
        priority: Option<String>,
    },
    /// Shows one issue.
    Get {
        id: i64,
        compact: bool,
    },
    /// Marks an issue ready.
    Ready {
        id: i64,
    },
    /// Changes an issue.
    Update {
        id: i64,
        status: Option<String>,
        priority: Option<String>,
        title: Option<String>,
        goal: Option<String>,
        description: Option<String>,
    },
    /// Links two issues.
    Link {
        source: i64,
        target: i64,
        link_type: String,
    },
    /// Removes a link.
    Unlink {
        link_id: i64,
    },
    /// Takes an issue for an agent.
    Claim {
        id: i64,
        agent_id: Option<String>,
    },
    /// Gives an issue up and moves it to `ready`, `demo` or `required`.
    Release {
        id: i64,
        agent_id: Option<String>,
        transition_to: String,
        force: bool,
    },
    /// Moves an issue to a sprint (none: backlog).
    SetSprint {
        id: i64,
        sprint: Option<i64>,
    },
    /// Deletes an issue and everything under it.
    Delete {
        id: i64,
    },
}

/// The mathematical content of a [`IssueCommand`]: texts as character sequences.
pub enum IssueCommandView {
    Create {
        epic: i64,
        mission_id: Option<i64>,
        sprint: Option<i64>,
        title: Seq<char>,
        goal: Option<Seq<char>>,
        description: Option<Seq<char>>,
    },
    List {
        project: Option<Seq<char>>,
        epic: Option<i64>,
        mission: Option<i64>,
        sprint: Option<i64>,
        backlog_only: bool,
        status: Option<Seq<char>>,
        priority: Option<Seq<char>>,
    },
    Get {
        id: i64,
        compact: bool,
    },
    Ready {
        id: i64,
    },
    Update {
        id: i64,
        status: Option<Seq<char>>,
        priority: Option<Seq<char>>,
        title: Option<Seq<char>>,
        goal: Option<Seq<char>>,
        description: Option<Seq<char>>,
    },
    Link {
        source: i64,
        target: i64,
        link_type: Seq<char>,
    },
    Unlink {
        link_id: i64,
    },
    Claim {
        id: i64,
        agent_id: Option<Seq<char>>,
    },
    Release {
        id: i64,
        agent_id: Option<Seq<char>>,
        transition_to: Seq<char>,
        force: bool,
    },
    SetSprint {
        id: i64,
        sprint: Option<i64>,
    },
    Delete {
        id: i64,
    },
}

impl View for IssueCommand {
    type V = IssueCommandView;

    open spec fn view(&self) -> IssueCommandView {
        match *self {
            IssueCommand::Create { epic, mission_id, sprint, title, goal, description } => IssueCommandView::Create { epic: epic, mission_id: mission_id, sprint: sprint, title: title@, goal: opt_view(goal), description: opt_view(description) },
            IssueCommand::List { project, epic, mission, sprint, backlog_only, status, priority } => IssueCommandView::List { project: opt_view(project), epic: epic, mission: mission, sprint: sprint, backlog_only: backlog_only, status: opt_view(status), priority: opt_view(priority) },
            IssueCommand::Get { id, compact } => IssueCommandView::Get { id: id, compact: compact },
            IssueCommand::Ready { id } => IssueCommandView::Ready { id: id },
            IssueCommand::Update { id, status, priority, title, goal, description } => IssueCommandView::Update { id: id, status: opt_view(status), priority: opt_view(priority), title: opt_view(title), goal: opt_view(goal), description: opt_view(description) },
            IssueCommand::Link { source, target, link_type } => IssueCommandView::Link { source: source, target: target, link_type: link_type@ },
            IssueCommand::Unlink { link_id } => IssueCommandView::Unlink { link_id: link_id },
            IssueCommand::Claim { id, agent_id } => IssueCommandView::Claim { id: id, agent_id: opt_view(agent_id) },
            IssueCommand::Release { id, agent_id, transition_to, force } => IssueCommandView::Release { id: id, agent_id: opt_view(agent_id), transition_to: transition_to@, force: force },
            IssueCommand::SetSprint { id, sprint } => IssueCommandView::SetSprint { id: id, sprint: sprint },
            IssueCommand::Delete { id } => IssueCommandView::Delete { id: id },
        }
    }
}

/// The options of `issue create`.
pub open spec fn issue_command_create_options() -> Seq<OptView> {
    seq![OptView { name: "epic"@, takes_value: true }, OptView { name: "mission-id"@, takes_value: true }, OptView { name: "sprint"@, takes_value: true }, OptView { name: "title"@, takes_value: true }, OptView { name: "goal"@, takes_value: true }, OptView { name: "description"@, takes_value: true }]
}

fn issue_command_create_option_specs() -> (v: Vec<OptSpec>)
    ensures
        opt_views(v@) == issue_command_create_options(),
{
    let mut v: Vec<OptSpec> = Vec::new();
    v.push(OptSpec { name: "epic", takes_value: true });
    v.push(OptSpec { name: "mission-id", takes_value: true });
    v.push(OptSpec { name: "sprint", takes_value: true });
    v.push(OptSpec { name: "title", takes_value: true });
    v.push(OptSpec { name: "goal", takes_value: true });
    v.push(OptSpec { name: "description", takes_value: true });
    assert(opt_views(v@) =~= issue_command_create_options());
    v
}

/// The `create` subcommand built from its matched arguments.
pub open spec fn issue_command_create_decode(m: MatchView) -> Result<IssueCommandView, CliErrorView> {
    match arg_i64(m, 0, "epic"@) {
        Err(e) => Err(e),
        Ok(epic) => {
            match opt_i64(m, 1) {
                Err(e) => Err(e),
                Ok(mission_id) => {
                    match opt_i64(m, 2) {
                        Err(e) => Err(e),
                        Ok(sprint) => {
                            match arg_text(m, 3, "title"@) {
                                Err(e) => Err(e),
                                Ok(title) => {
                                    let goal = opt_text(m, 4);
                                    let description = opt_text(m, 5);
                                    Ok(IssueCommandView::Create { epic, mission_id, sprint, title, goal, description })
                                },
                            }
                        },
                    }
                },
            }
        },
    }
}

fn issue_command_create_from(m: &Matched) -> (r: Result<IssueCommand, CliError>)
    requires
        m.values@.len() == 6,
    ensures
        rview(r) == issue_command_create_decode(m@),
{
    let epic = match take_i64(m, 0, "epic") {
        Ok(v) => v,
        Err(e) => {
            return Err(e);
        },
    };
    let mission_id = match take_opt_i64(m, 1) {
        Ok(v) => v,
        Err(e) => {
            return Err(e);
        },
    };
    let sprint = match take_opt_i64(m, 2) {
        Ok(v) => v,
        Err(e) => {
            return Err(e);
        },
    };
    let title = match take_text(m, 3, "title") {
        Ok(v) => v,
        Err(e) => {
            return Err(e);
        },
    };
    let goal = take_opt_text(m, 4);
    let description = take_opt_text(m, 5);
    Ok(IssueCommand::Create { epic, mission_id, sprint, title, goal, description })
}

/// The options of `issue list`.
pub open spec fn issue_command_list_options() -> Seq<OptView> {
    seq![OptView { name: "project"@, takes_value: true }, OptView { name: "epic"@, takes_value: true }, OptView { name: "mission"@, takes_value: true }, OptView { name: "sprint"@, takes_value: true }, OptView { name: "backlog-only"@, takes_value: false }, OptView { name: "status"@, takes_value: true }, OptView { name: "priority"@, takes_value: true }]
}

fn issue_command_list_option_specs() -> (v: Vec<OptSpec>)
    ensures
        opt_views(v@) == issue_command_list_options(),
{
    let mut v: Vec<OptSpec> = Vec::new();
    v.push(OptSpec { name: "project", takes_value: true });
    v.push(OptSpec { name: "epic", takes_value: true });
    v.push(OptSpec { name: "mission", takes_value: true });
    v.push(OptSpec { name: "sprint", takes_value: true });
    v.push(OptSpec { name: "backlog-only", takes_value: false });
    v.push(OptSpec { name: "status", takes_value: true });
    v.push(OptSpec { name: "priority", takes_value: true });
    assert(opt_views(v@) =~= issue_command_list_options());
    v
}

/// The `list` subcommand built from its matched arguments.
pub open spec fn issue_command_list_decode(m: MatchView) -> Result<IssueCommandView, CliErrorView> {
    let project = opt_text(m, 0);
    match opt_i64(m, 1) {
        Err(e) => Err(e),
        Ok(epic) => {
            match opt_i64(m, 2) {
                Err(e) => Err(e),
                Ok(mission) => {
                    match opt_i64(m, 3) {
                        Err(e) => Err(e),
                        Ok(sprint) => {
                            let backlog_only = switch_on(m, 4);
                            let status = opt_text(m, 5);
                            let priority = opt_text(m, 6);
                            Ok(IssueCommandView::List { project, epic, mission, sprint, backlog_only, status, priority })
                        },
                    }
                },
            }
        },
    }
}

fn issue_command_list_from(m: &Matched) -> (r: Result<IssueCommand, CliError>)
    requires
        m.values@.len() == 7,
    ensures
        rview(r) == issue_command_list_decode(m@),
{
    let project = take_opt_text(m, 0);
    let epic = match take_opt_i64(m, 1) {
        Ok(v) => v,
        Err(e) => {
            return Err(e);
        },
    };
    let mission = match take_opt_i64(m, 2) {
        Ok(v) => v,
        Err(e) => {
            return Err(e);
        },
    };
    let sprint = match take_opt_i64(m, 3) {
        Ok(v) => v,
        Err(e) => {
            return Err(e);
        },
    };
    let backlog_only = take_switch(m, 4);
    let status = take_opt_text(m, 5);
    let priority = take_opt_text(m, 6);
    Ok(IssueCommand::List { project, epic, mission, sprint, backlog_only, status, priority })
}

/// The options of `issue get`.
pub open spec fn issue_command_get_options() -> Seq<OptView> {
    seq![OptView { name: "compact"@, takes_value: false }]
}

fn issue_command_get_option_specs() -> (v: Vec<OptSpec>)
    ensures
        opt_views(v@) == issue_command_get_options(),
{
    let mut v: Vec<OptSpec> = Vec::new();
    v.push(OptSpec { name: "compact", takes_value: false });
    assert(opt_views(v@) =~= issue_command_get_options());
    v
}

/// The `get` subcommand built from its matched arguments.
pub open spec fn issue_command_get_decode(m: MatchView) -> Result<IssueCommandView, CliErrorView> {
    match positional_i64(m, "id"@) {
        Err(e) => Err(e),
        Ok(id) => {
            let compact = switch_on(m, 0);
            Ok(IssueCommandView::Get { id, compact })
        },
    }
}

fn issue_command_get_from(m: &Matched) -> (r: Result<IssueCommand, CliError>)
    requires
        m.values@.len() == 1,
    ensures
        rview(r) == issue_command_get_decode(m@),
{
    let id = match take_positional_i64(m, "id") {
        Ok(v) => v,
        Err(e) => {
            return Err(e);
        },
    };
    let compact = take_switch(m, 0);
    Ok(IssueCommand::Get { id, compact })
}

/// The options of `issue ready`.
pub open spec fn issue_command_ready_options() -> Seq<OptView> {
    Seq::empty()
}

fn issue_command_ready_option_specs() -> (v: Vec<OptSpec>)
    ensures
        opt_views(v@) == issue_command_ready_options(),
{
    let mut v: Vec<OptSpec> = Vec::new();
    assert(opt_views(v@) =~= issue_command_ready_options());
    v
}

/// The `ready` subcommand built from its matched arguments.
pub open spec fn issue_command_ready_decode(m: MatchView) -> Result<IssueCommandView, CliErrorView> {
    match positional_i64(m, "id"@) {
        Err(e) => Err(e),
        Ok(id) => {
            Ok(IssueCommandView::Ready { id })
        },
    }
}

fn issue_command_ready_from(m: &Matched) -> (r: Result<IssueCommand, CliError>)
    requires
        m.values@.len() == 0,
    ensures
        rview(r) == issue_command_ready_decode(m@),
{
    let id = match take_positional_i64(m, "id") {
        Ok(v) => v,
        Err(e) => {
            return Err(e);
        },
    };
    Ok(IssueCommand::Ready { id })
}

/// The options of `issue update`.
pub open spec fn issue_command_update_options() -> Seq<OptView> {
    seq![OptView { name: "status"@, takes_value: true }, OptView { name: "priority"@, takes_value: true }, OptView { name: "title"@, takes_value: true }, OptView { name: "goal"@, takes_value: true }, OptView { name: "description"@, takes_value: true }]
}

fn issue_command_update_option_specs() -> (v: Vec<OptSpec>)
    ensures
        opt_views(v@) == issue_command_update_options(),
{
    let mut v: Vec<OptSpec> = Vec::new();
    v.push(OptSpec { name: "status", takes_value: true });
    v.push(OptSpec { name: "priority", takes_value: true });
    v.push(OptSpec { name: "title", takes_value: true });
    v.push(OptSpec { name: "goal", takes_value: true });
    v.push(OptSpec { name: "description", takes_value: true });
    assert(opt_views(v@) =~= issue_command_update_options());
    v
}

/// The `update` subcommand built from its matched arguments.
pub open spec fn issue_command_update_decode(m: MatchView) -> Result<IssueCommandView, CliErrorView> {
    match positional_i64(m, "id"@) {
        Err(e) => Err(e),
        Ok(id) => {
            let status = opt_text(m, 0);
            let priority = opt_text(m, 1);
            let title = opt_text(m, 2);
            let goal = opt_text(m, 3);
            let description = opt_text(m, 4);
            Ok(IssueCommandView::Update { id, status, priority, title, goal, description })
        },
    }
}

fn issue_command_update_from(m: &Matched) -> (r: Result<IssueCommand, CliError>)
    requires
        m.values@.len() == 5,
    ensures
        rview(r) == issue_command_update_decode(m@),
{
    let id = match take_positional_i64(m, "id") {
        Ok(v) => v,
        Err(e) => {
            return Err(e);
        },
    };
    let status = take_opt_text(m, 0);
    let priority = take_opt_text(m, 1);
    let title = take_opt_text(m, 2);
    let goal = take_opt_text(m, 3);
    let description = take_opt_text(m, 4);
    Ok(IssueCommand::Update { id, status, priority, title, goal, description })
}

/// The options of `issue link`.
pub open spec fn issue_command_link_options() -> Seq<OptView> {
    seq![OptView { name: "source"@, takes_value: true }, OptView { name: "target"@, takes_value: true }, OptView { name: "type"@, takes_value: true }]
}

fn issue_command_link_option_specs() -> (v: Vec<OptSpec>)
    ensures
        opt_views(v@) == issue_command_link_options(),
{
    let mut v: Vec<OptSpec> = Vec::new();
    v.push(OptSpec { name: "source", takes_value: true });
    v.push(OptSpec { name: "target", takes_value: true });
    v.push(OptSpec { name: "type", takes_value: true });
    assert(opt_views(v@) =~= issue_command_link_options());
    v
}

/// The `link` subcommand built from its matched arguments.
pub open spec fn issue_command_link_decode(m: MatchView) -> Result<IssueCommandView, CliErrorView> {
    match arg_i64(m, 0, "source"@) {
        Err(e) => Err(e),
        Ok(source) => {
            match arg_i64(m, 1, "target"@) {
                Err(e) => Err(e),
                Ok(target) => {
                    let link_type = text_or(m, 2, "blocks"@);
                    Ok(IssueCommandView::Link { source, target, link_type })
                },
            }
        },
    }
}

fn issue_command_link_from(m: &Matched) -> (r: Result<IssueCommand, CliError>)
    requires
        m.values@.len() == 3,
    ensures
        rview(r) == issue_command_link_decode(m@),
{
    let source = match take_i64(m, 0, "source") {
        Ok(v) => v,
        Err(e) => {
            return Err(e);
        },
    };
    let target = match take_i64(m, 1, "target") {
        Ok(v) => v,
        Err(e) => {
            return Err(e);
        },
    };
    let link_type = take_text_or(m, 2, "blocks");
    Ok(IssueCommand::Link { source, target, link_type })
}

/// The options of `issue unlink`.
pub open spec fn issue_command_unlink_options() -> Seq<OptView> {
    seq![OptView { name: "link-id"@, takes_value: true }]
}

fn issue_command_unlink_option_specs() -> (v: Vec<OptSpec>)
    ensures
        opt_views(v@) == issue_command_unlink_options(),
{
    let mut v: Vec<OptSpec> = Vec::new();
    v.push(OptSpec { name: "link-id", takes_value: true });
    assert(opt_views(v@) =~= issue_command_unlink_options());
    v
}

/// The `unlink` subcommand built from its matched arguments.
pub open spec fn issue_command_unlink_decode(m: MatchView) -> Result<IssueCommandView, CliErrorView> {
    match arg_i64(m, 0, "link-id"@) {
        Err(e) => Err(e),
        Ok(link_id) => {
            Ok(IssueCommandView::Unlink { link_id })
        },
    }
}

fn issue_command_unlink_from(m: &Matched) -> (r: Result<IssueCommand, CliError>)
    requires
        m.values@.len() == 1,
    ensures
        rview(r) == issue_command_unlink_decode(m@),
{
    let link_id = match take_i64(m, 0, "link-id") {
        Ok(v) => v,
        Err(e) => {
            return Err(e);
        },
    };
    Ok(IssueCommand::Unlink { link_id })
}

/// The options of `issue claim`.
pub open spec fn issue_command_claim_options() -> Seq<OptView> {
    seq![OptView { name: "agent-id"@, takes_value: true }]
}

fn issue_command_claim_option_specs() -> (v: Vec<OptSpec>)
    ensures
        opt_views(v@) == issue_command_claim_options(),
{
    let mut v: Vec<OptSpec> = Vec::new();
    v.push(OptSpec { name: "agent-id", takes_value: true });
    assert(opt_views(v@) =~= issue_command_claim_options());
    v
}

/// The `claim` subcommand built from its matched arguments.
pub open spec fn issue_command_claim_decode(m: MatchView) -> Result<IssueCommandView, CliErrorView> {
    match positional_i64(m, "id"@) {
        Err(e) => Err(e),
        Ok(id) => {
            let agent_id = opt_text(m, 0);
            Ok(IssueCommandView::Claim { id, agent_id })
        },
    }
}

fn issue_command_claim_from(m: &Matched) -> (r: Result<IssueCommand, CliError>)
    requires
        m.values@.len() == 1,
    ensures
        rview(r) == issue_command_claim_decode(m@),
{
    let id = match take_positional_i64(m, "id") {
        Ok(v) => v,
        Err(e) => {
            return Err(e);
        },
    };
    let agent_id = take_opt_text(m, 0);
    Ok(IssueCommand::Claim { id, agent_id })
}

/// The options of `issue release`.
pub open spec fn issue_command_release_options() -> Seq<OptView> {
    seq![OptView { name: "agent-id"@, takes_value: true }, OptView { name: "transition-to"@, takes_value: true }, OptView { name: "force"@, takes_value: false }]
}

fn issue_command_release_option_specs() -> (v: Vec<OptSpec>)
    ensures
        opt_views(v@) == issue_command_release_options(),
{
    let mut v: Vec<OptSpec> = Vec::new();
    v.push(OptSpec { name: "agent-id", takes_value: true });
    v.push(OptSpec { name: "transition-to", takes_value: true });
    v.push(OptSpec { name: "force", takes_value: false });
    assert(opt_views(v@) =~= issue_command_release_options());
    v
}

/// The `release` subcommand built from its matched arguments.
pub open spec fn issue_command_release_decode(m: MatchView) -> Result<IssueCommandView, CliErrorView> {
    match positional_i64(m, "id"@) {
        Err(e) => Err(e),
        Ok(id) => {
            let agent_id = opt_text(m, 0);
            match arg_text(m, 1, "transition-to"@) {
                Err(e) => Err(e),
                Ok(transition_to) => {
                    let force = switch_on(m, 2);
                    Ok(IssueCommandView::Release { id, agent_id, transition_to, force })
                },
            }
        },
    }
}

fn issue_command_release_from(m: &Matched) -> (r: Result<IssueCommand, CliError>)
    requires
        m.values@.len() == 3,
    ensures
        rview(r) == issue_command_release_decode(m@),
{
    let id = match take_positional_i64(m, "id") {
        Ok(v) => v,
        Err(e) => {
            return Err(e);
        },
    };
    let agent_id = take_opt_text(m, 0);
    let transition_to = match take_text(m, 1, "transition-to") {
        Ok(v) => v,
        Err(e) => {
            return Err(e);
        },
    };
    let force = take_switch(m, 2);
    Ok(IssueCommand::Release { id, agent_id, transition_to, force })
}

/// The options of `issue set-sprint`.
pub open spec fn issue_command_set_sprint_options() -> Seq<OptView> {
    seq![OptView { name: "sprint"@, takes_value: true }]
}

fn issue_command_set_sprint_option_specs() -> (v: Vec<OptSpec>)
    ensures
        opt_views(v@) == issue_command_set_sprint_options(),
{
    let mut v: Vec<OptSpec> = Vec::new();
    v.push(OptSpec { name: "sprint", takes_value: true });
    assert(opt_views(v@) =~= issue_command_set_sprint_options());
    v
}

/// The `set-sprint` subcommand built from its matched arguments.
pub open spec fn issue_command_set_sprint_decode(m: MatchView) -> Result<IssueCommandView, CliErrorView> {
    match positional_i64(m, "id"@) {
        Err(e) => Err(e),
        Ok(id) => {
            match opt_i64(m, 0) {
                Err(e) => Err(e),
                Ok(sprint) => {
                    Ok(IssueCommandView::SetSprint { id, sprint })
                },
            }
        },
    }
}

fn issue_command_set_sprint_from(m: &Matched) -> (r: Result<IssueCommand, CliError>)
    requires
        m.values@.len() == 1,
    ensures
        rview(r) == issue_command_set_sprint_decode(m@),
{
    let id = match take_positional_i64(m, "id") {
        Ok(v) => v,
        Err(e) => {
            return Err(e);
        },
    };
    let sprint = match take_opt_i64(m, 0) {
        Ok(v) => v,
        Err(e) => {
            return Err(e);
        },
    };
    Ok(IssueCommand::SetSprint { id, sprint })
}

/// The options of `issue delete`.
pub open spec fn issue_command_delete_options() -> Seq<OptView> {
    Seq::empty()
}

fn issue_command_delete_option_specs() -> (v: Vec<OptSpec>)
    ensures
        opt_views(v@) == issue_command_delete_options(),
{
    let mut v: Vec<OptSpec> = Vec::new();
    assert(opt_views(v@) =~= issue_command_delete_options());
    v
}

/// The `delete` subcommand built from its matched arguments.
pub open spec fn issue_command_delete_decode(m: MatchView) -> Result<IssueCommandView, CliErrorView> {
    match positional_i64(m, "id"@) {
        Err(e) => Err(e),
        Ok(id) => {
            Ok(IssueCommandView::Delete { id })
        },
    }
}

fn issue_command_delete_from(m: &Matched) -> (r: Result<IssueCommand, CliError>)
    requires
        m.values@.len() == 0,
    ensures
        rview(r) == issue_command_delete_decode(m@),
{
    let id = match take_positional_i64(m, "id") {
        Ok(v) => v,
        Err(e) => {
            return Err(e);
        },
    };
    Ok(IssueCommand::Delete { id })
}

/// What `issue` makes of its arguments: `argv[0]` is the program name,
/// `argv[1]` the subcommand, the rest its arguments.
pub open spec fn issue_command_parse(argv: Seq<Seq<char>>) -> Result<IssueCommandView, CliErrorView> {
    if argv.len() < 2 {
        Err(CliErrorView { kind: CliErrorKind::MissingSubcommand, arg: "issue"@ })
    } else if argv[1] == "create"@ {
        match match_args(argv.skip(2), issue_command_create_options(), false) {
            Ok(m) => issue_command_create_decode(m),
            Err(e) => Err(e),
        }
    } else if argv[1] == "list"@ {
        match match_args(argv.skip(2), issue_command_list_options(), false) {
            Ok(m) => issue_command_list_decode(m),
            Err(e) => Err(e),
        }
    } else if argv[1] == "get"@ {
        match match_args(argv.skip(2), issue_command_get_options(), true) {
            Ok(m) => issue_command_get_decode(m),
            Err(e) => Err(e),
        }
    } else if argv[1] == "ready"@ {
        match match_args(argv.skip(2), issue_command_ready_options(), true) {
            Ok(m) => issue_command_ready_decode(m),
            Err(e) => Err(e),
        }
    } else if argv[1] == "update"@ {
        match match_args(argv.skip(2), issue_command_update_options(), true) {
            Ok(m) => issue_command_update_decode(m),
            Err(e) => Err(e),
        }
    } else if argv[1] == "link"@ {
        match match_args(argv.skip(2), issue_command_link_options(), false) {
            Ok(m) => issue_command_link_decode(m),
            Err(e) => Err(e),
        }
    } else if argv[1] == "unlink"@ {
        match match_args(argv.skip(2), issue_command_unlink_options(), false) {
            Ok(m) => issue_command_unlink_decode(m),
            Err(e) => Err(e),
        }
    } else if argv[1] == "claim"@ {
        match match_args(argv.skip(2), issue_command_claim_options(), true) {
            Ok(m) => issue_command_claim_decode(m),
            Err(e) => Err(e),
        }
    } else if argv[1] == "release"@ {
        match match_args(argv.skip(2), issue_command_release_options(), true) {
            Ok(m) => issue_command_release_decode(m),
            Err(e) => Err(e),
        }
    } else if argv[1] == "set-sprint"@ {
        match match_args(argv.skip(2), issue_command_set_sprint_options(), true) {
            Ok(m) => issue_command_set_sprint_decode(m),
            Err(e) => Err(e),
        }
    } else if argv[1] == "delete"@ {
        match match_args(argv.skip(2), issue_command_delete_options(), true) {
            Ok(m) => issue_command_delete_decode(m),
            Err(e) => Err(e),
        }
    } else {
        Err(CliErrorView { kind: CliErrorKind::UnknownSubcommand, arg: argv[1] })
    }
}

impl IssueCommand {
    /// Parses a `issue` command line; see [`issue_command_parse`].
    pub fn try_parse_from(argv: &Vec<String>) -> (r: Result<IssueCommand, CliError>)
        ensures
            rview(r) == issue_command_parse(token_views(argv@)),
    {
        if argv.len() < 2 {
            return Err(cli_error(CliErrorKind::MissingSubcommand, "issue"));
        }
        let ghost tv = token_views(argv@);
        let sub = argv[1].as_str();
        assert(sub@ == tv[1]);
        if str_eq(sub, "create") {
            let rest = tail_tokens(argv, 2);
            let opts = issue_command_create_option_specs();
            match match_tokens(&rest, &opts, false) {
                Ok(m) => issue_command_create_from(&m),
                Err(e) => Err(e),
            }
        } else if str_eq(sub, "list") {
            let rest = tail_tokens(argv, 2);
            let opts = issue_command_list_option_specs();
            match match_tokens(&rest, &opts, false) {
                Ok(m) => issue_command_list_from(&m),
                Err(e) => Err(e),
            }
        } else if str_eq(sub, "get") {
            let rest = tail_tokens(argv, 2);
            let opts = issue_command_get_option_specs();
            match match_tokens(&rest, &opts, true) {
                Ok(m) => issue_command_get_from(&m),
                Err(e) => Err(e),
            }
        } else if str_eq(sub, "ready") {
            let rest = tail_tokens(argv, 2);
            let opts = issue_command_ready_option_specs();
            match match_tokens(&rest, &opts, true) {
                Ok(m) => issue_command_ready_from(&m),
                Err(e) => Err(e),
            }
        } else if str_eq(sub, "update") {
            let rest = tail_tokens(argv, 2);
            let opts = issue_command_update_option_specs();
            match match_tokens(&rest, &opts, true) {
                Ok(m) => issue_command_update_from(&m),
                Err(e) => Err(e),
            }
        } else if str_eq(sub, "link") {
            let rest = tail_tokens(argv, 2);
            let opts = issue_command_link_option_specs();
            match match_tokens(&rest, &opts, false) {
                Ok(m) => issue_command_link_from(&m),
                Err(e) => Err(e),
            }
        } else if str_eq(sub, "unlink") {
            let rest = tail_tokens(argv, 2);
            let opts = issue_command_unlink_option_specs();
            match match_tokens(&rest, &opts, false) {
                Ok(m) => issue_command_unlink_from(&m),
                Err(e) => Err(e),
            }
        } else if str_eq(sub, "claim") {
            let rest = tail_tokens(argv, 2);
            let opts = issue_command_claim_option_specs();
            match match_tokens(&rest, &opts, true) {
                Ok(m) => issue_command_claim_from(&m),
                Err(e) => Err(e),
            }
        } else if str_eq(sub, "release") {
            let rest = tail_tokens(argv, 2);
            let opts = issue_command_release_option_specs();
            match match_tokens(&rest, &opts, true) {
                Ok(m) => issue_command_release_from(&m),
                Err(e) => Err(e),
            }
        } else if str_eq(sub, "set-sprint") {
            let rest = tail_tokens(argv, 2);
            let opts = issue_command_set_sprint_option_specs();
            match match_tokens(&rest, &opts, true) {
                Ok(m) => issue_command_set_sprint_from(&m),
                Err(e) => Err(e),
            }
        } else if str_eq(sub, "delete") {
            let rest = tail_tokens(argv, 2);
            let opts = issue_command_delete_option_specs();
            match match_tokens(&rest, &opts, true) {
                Ok(m) => issue_command_delete_from(&m),
                Err(e) => Err(e),
            }
        } else {
            Err(CliError { kind: CliErrorKind::UnknownSubcommand, arg: argv[1].clone() })
        }
    }
}

} // verus!
