//! What an `issue` command asks of the tracker: the command line turned into
//! a typed request, with its texts read as statuses, priorities and link
//! types and the acting agent decided.
use vstd::prelude::*;
use crate::cli::issue::IssueCommand;
use crate::cli::note::{note_type_or_context, parse_note_type, NoteCommand};
use crate::cli::output::Failure;
use crate::enums::{IssuePriority, IssueStatus, LinkType, NoteScope, NoteType};
use crate::models::{CreateIssueInput, CreateNoteInput, IssueFilter, UpdateIssueInput};
use crate::text::{push_str, str_eq};

verus! {

/// A request of the `issue` command group.
#[derive(Clone, Debug)]
pub enum IssueRequest {
    Create(CreateIssueInput),
    List(IssueFilter),
    Get { id: i64, compact: bool },
    Update { id: i64, input: UpdateIssueInput },
    Link { source: i64, target: i64, link_type: LinkType },
    Unlink { link_id: i64 },
    Claim { id: i64, agent_id: String },
    Release { id: i64, transition_to: IssueStatus, agent_id: String, force: bool },
    SetSprint { id: i64, sprint: Option<i64> },
    Delete { id: i64 },
}

/// The message of an unknown status.
pub open spec fn unknown_status_message(s: Seq<char>) -> Seq<char> {
    "알 수 없는 status: "@ + s
}

/// The message of an unknown priority.
pub open spec fn unknown_priority_message(s: Seq<char>) -> Seq<char> {
    "알 수 없는 priority: "@ + s
}

/// The message of an unknown link type.
pub open spec fn unknown_link_type_message(s: Seq<char>) -> Seq<char> {
    "알 수 없는 link_type: "@ + s
}

/// The message of a release target other than ready, demo or required.
pub open spec fn bad_release_target_message(s: Seq<char>) -> Seq<char> {
    "issue release --transition-to 는 ready/demo/required 만 허용 (받은 값: "@ + s + ")"@
}

/// The message of a claim or release without an agent.
pub open spec fn agent_required_message(verb: Seq<char>) -> Seq<char> {
    "issue "@ + verb + " 은 --agent-id 가 필요합니다 (글로벌 또는 서브커맨드)"@
}

/// The agent acting on a claim or release: the command's own, else the
/// global one.
pub open spec fn acting_agent(cmd_agent: Option<String>, global: Seq<char>) -> Seq<char> {
    match cmd_agent { Some(a) => a@, None => global }
}

/// A status text read back, if it names a status.
pub open spec fn status_of(s: Option<String>) -> Option<Option<IssueStatus>> {
    match s {
        None => Some(None),
        Some(t) => match IssueStatus::from_name(t@) { Some(v) => Some(Some(v)), None => None },
    }
}

/// A priority text read back, if it names a priority.
pub open spec fn priority_of(s: Option<String>) -> Option<Option<IssuePriority>> {
    match s {
        None => Some(None),
        Some(t) => match IssuePriority::from_name(t@) { Some(v) => Some(Some(v)), None => None },
    }
}

/// A release target text read back, if it is ready, demo or required.
pub open spec fn release_target_of(s: Seq<char>) -> Option<IssueStatus> {
    match IssueStatus::from_name(s) {
        Some(IssueStatus::Ready) => Some(IssueStatus::Ready),
        Some(IssueStatus::Demo) => Some(IssueStatus::Demo),
        Some(IssueStatus::Required) => Some(IssueStatus::Required),
        _ => None,
    }
}

/// Why an `issue` command is refused before reaching the tracker, if it is:
/// an unknown status (checked before the priority), priority or link type;
/// a claim or release with `user` as the acting agent; a release target
/// other than ready, demo or required (checked after the agent).
pub open spec fn issue_request_refusal(cmd: IssueCommand, global: Seq<char>) -> Option<Seq<char>> {
    match cmd {
        IssueCommand::List { status, priority, .. } | IssueCommand::Update { status, priority, .. } => {
            if status_of(status) is None {
                Some(unknown_status_message(status->Some_0@))
            } else if priority_of(priority) is None {
                Some(unknown_priority_message(priority->Some_0@))
            } else {
                None
            }
        },
        IssueCommand::Link { link_type, .. } => {
            if LinkType::from_name(link_type@) is None { Some(unknown_link_type_message(link_type@)) } else { None }
        },
        IssueCommand::Claim { agent_id, .. } => {
            if acting_agent(agent_id, global) == "user"@ { Some(agent_required_message("claim"@)) } else { None }
        },
        IssueCommand::Release { agent_id, transition_to, .. } => {
            if acting_agent(agent_id, global) == "user"@ {
                Some(agent_required_message("release"@))
            } else if release_target_of(transition_to@) is None {
                Some(bad_release_target_message(transition_to@))
            } else {
                None
            }
        },
        _ => None,
    }
}

/// The request an accepted `issue` command makes.
pub open spec fn issue_request_is(cmd: IssueCommand, global: Seq<char>, r: IssueRequest) -> bool {
    match cmd {
        IssueCommand::Create { epic, mission_id, sprint, title, goal, description } =>
            r == IssueRequest::Create(CreateIssueInput {
                epic_id: epic, mission_id, sprint_id: sprint, title, description, goal, priority: None,
            }),
        IssueCommand::List { project, epic, mission, sprint, backlog_only, status, priority } =>
            r == IssueRequest::List(IssueFilter {
                epic_id: epic,
                mission_id: mission,
                sprint_id: sprint,
                backlog_only,
                project_key: project,
                status: status_of(status)->Some_0,
                statuses: None,
                priority: priority_of(priority)->Some_0,
                compact: None,
                limit: None,
                offset: None,
            }),
        IssueCommand::Get { id, compact } => r == IssueRequest::Get { id, compact },
        IssueCommand::Ready { id } => r == IssueRequest::Update {
            id,
            input: UpdateIssueInput {
                title: None, description: None, goal: None, status: Some(IssueStatus::Ready), priority: None, epic_id: None,
            },
        },
        IssueCommand::Update { id, status, priority, title, goal, description } => r == IssueRequest::Update {
            id,
            input: UpdateIssueInput {
                title,
                description,
                goal,
                status: status_of(status)->Some_0,
                priority: priority_of(priority)->Some_0,
                epic_id: None,
            },
        },
        IssueCommand::Link { source, target, link_type } =>
            r == IssueRequest::Link { source, target, link_type: LinkType::from_name(link_type@)->Some_0 },
        IssueCommand::Unlink { link_id } => r == IssueRequest::Unlink { link_id },
        IssueCommand::Claim { id, agent_id } =>
            r matches IssueRequest::Claim { id: rid, agent_id: a } && rid == id && a@ == acting_agent(agent_id, global),
        IssueCommand::Release { id, agent_id, transition_to, force } =>
            r matches IssueRequest::Release { id: rid, transition_to: t, agent_id: a, force: f }
                && rid == id && a@ == acting_agent(agent_id, global) && t == release_target_of(transition_to@)->Some_0
                && f == force,
        IssueCommand::SetSprint { id, sprint } => r == IssueRequest::SetSprint { id, sprint },
        IssueCommand::Delete { id } => r == IssueRequest::Delete { id },
    }
}

fn message(prefix: &str, s: &str, suffix: &str) -> (r: Failure)
    ensures
        r matches Failure::Other(m) && m@ == prefix@ + s@ + suffix@,
{
    let mut m = String::from_str(prefix);
    push_str(&mut m, s);
    push_str(&mut m, suffix);
    Failure::Other(m)
}

fn read_status(s: &Option<String>) -> (r: Result<Option<IssueStatus>, Failure>)
    ensures
        match r {
            Ok(v) => status_of(*s) == Some(v),
            Err(Failure::Other(m)) => status_of(*s) is None && m@ == unknown_status_message(s->Some_0@),
            Err(_) => false,
        },
{
    match s {
        None => Ok(None),
        Some(t) => match IssueStatus::parse(t.as_str()) {
            Some(v) => Ok(Some(v)),
            None => {
                let f = message("알 수 없는 status: ", t.as_str(), "");
                proof { reveal_strlit(""); }
                assert(unknown_status_message(t@) =~= "알 수 없는 status: "@ + t@ + ""@);
                Err(f)
            },
        },
    }
}

fn read_priority(s: &Option<String>) -> (r: Result<Option<IssuePriority>, Failure>)
    ensures
        match r {
            Ok(v) => priority_of(*s) == Some(v),
            Err(Failure::Other(m)) => priority_of(*s) is None && m@ == unknown_priority_message(s->Some_0@),
            Err(_) => false,
        },
{
    match s {
        None => Ok(None),
        Some(t) => match IssuePriority::parse(t.as_str()) {
            Some(v) => Ok(Some(v)),
            None => {
                let f = message("알 수 없는 priority: ", t.as_str(), "");
                proof { reveal_strlit(""); }
                assert(unknown_priority_message(t@) =~= "알 수 없는 priority: "@ + t@ + ""@);
                Err(f)
            },
        },
    }
}

fn acting(cmd_agent: Option<String>, global: &str) -> (r: String)
    ensures
        r@ == acting_agent(cmd_agent, global@),
{
    match cmd_agent {
        Some(a) => a,
        None => String::from_str(global),
    }
}

/// Turns an `issue` command into its request; `global_agent` is the agent
/// given before the command group (`user` by default). Refusals are those
/// of [`issue_request_refusal`].
pub fn issue_request(cmd: IssueCommand, global_agent: &str) -> (r: Result<IssueRequest, Failure>)
    ensures
        match r {
            Ok(req) => issue_request_refusal(cmd, global_agent@) is None && issue_request_is(cmd, global_agent@, req),
            Err(Failure::Other(m)) => issue_request_refusal(cmd, global_agent@) == Some(m@),
            Err(_) => false,
        },
{
    let ghost c = cmd;
    match cmd {
        IssueCommand::Create { epic, mission_id, sprint, title, goal, description } => {
            Ok(IssueRequest::Create(CreateIssueInput {
                epic_id: epic, mission_id, sprint_id: sprint, title, description, goal, priority: None,
            }))
        },
        IssueCommand::List { project, epic, mission, sprint, backlog_only, status, priority } => {
            let st = match read_status(&status) { Ok(v) => v, Err(e) => { return Err(e); } };
            let pr = match read_priority(&priority) { Ok(v) => v, Err(e) => { return Err(e); } };
            Ok(IssueRequest::List(IssueFilter {
                epic_id: epic,
                mission_id: mission,
                sprint_id: sprint,
                backlog_only,
                project_key: project,
                status: st,
                statuses: None,
                priority: pr,
                compact: None,
                limit: None,
                offset: None,
            }))
        },
        IssueCommand::Get { id, compact } => Ok(IssueRequest::Get { id, compact }),
        IssueCommand::Ready { id } => Ok(IssueRequest::Update {
            id,
            input: UpdateIssueInput {
                title: None, description: None, goal: None, status: Some(IssueStatus::Ready), priority: None, epic_id: None,
            },
        }),
        IssueCommand::Update { id, status, priority, title, goal, description } => {
            let st = match read_status(&status) { Ok(v) => v, Err(e) => { return Err(e); } };
            let pr = match read_priority(&priority) { Ok(v) => v, Err(e) => { return Err(e); } };
            Ok(IssueRequest::Update {
                id,
                input: UpdateIssueInput { title, description, goal, status: st, priority: pr, epic_id: None },
            })
        },
        IssueCommand::Link { source, target, link_type } => {
            match LinkType::parse(link_type.as_str()) {
                Some(lt) => Ok(IssueRequest::Link { source, target, link_type: lt }),
                None => {
                    let f = message("알 수 없는 link_type: ", link_type.as_str(), "");
                    proof { reveal_strlit(""); }
                assert(unknown_link_type_message(link_type@) =~= "알 수 없는 link_type: "@ + link_type@ + ""@);
                    Err(f)
                },
            }
        },
        IssueCommand::Unlink { link_id } => Ok(IssueRequest::Unlink { link_id }),
        IssueCommand::Claim { id, agent_id } => {
            let a = acting(agent_id, global_agent);
            if str_eq(a.as_str(), "user") {
                let f = message("issue claim 은 --agent-id 가 필요합니다 (글로벌 또는 서브커맨드)", "", "");
                proof {
                    reveal_strlit("");
                    assert(agent_required_message("claim"@) =~= "issue claim 은 --agent-id 가 필요합니다 (글로벌 또는 서브커맨드)"@ + ""@ + ""@) by {
                        reveal_strlit("issue ");
                        reveal_strlit("claim");
                        reveal_strlit(" 은 --agent-id 가 필요합니다 (글로벌 또는 서브커맨드)");
                        reveal_strlit("issue claim 은 --agent-id 가 필요합니다 (글로벌 또는 서브커맨드)");
                    }
                }
                Err(f)
            } else {
                Ok(IssueRequest::Claim { id, agent_id: a })
            }
        },
        IssueCommand::Release { id, agent_id, transition_to, force } => {
            let a = acting(agent_id, global_agent);
            if str_eq(a.as_str(), "user") {
                let f = message("issue release 은 --agent-id 가 필요합니다 (글로벌 또는 서브커맨드)", "", "");
                proof {
                    reveal_strlit("");
                    assert(agent_required_message("release"@) =~= "issue release 은 --agent-id 가 필요합니다 (글로벌 또는 서브커맨드)"@ + ""@ + ""@) by {
                        reveal_strlit("issue ");
                        reveal_strlit("release");
                        reveal_strlit(" 은 --agent-id 가 필요합니다 (글로벌 또는 서브커맨드)");
                        reveal_strlit("issue release 은 --agent-id 가 필요합니다 (글로벌 또는 서브커맨드)");
                    }
                }
                return Err(f);
            }
            let target = match IssueStatus::parse(transition_to.as_str()) {
                Some(IssueStatus::Ready) => Some(IssueStatus::Ready),
                Some(IssueStatus::Demo) => Some(IssueStatus::Demo),
                Some(IssueStatus::Required) => Some(IssueStatus::Required),
                _ => None,
            };
            match target {
                Some(t) => Ok(IssueRequest::Release { id, transition_to: t, agent_id: a, force }),
                None => {
                    let f = message("issue release --transition-to 는 ready/demo/required 만 허용 (받은 값: ", transition_to.as_str(), ")");
                    Err(f)
                },
            }
        },
        IssueCommand::SetSprint { id, sprint } => Ok(IssueRequest::SetSprint { id, sprint }),
        IssueCommand::Delete { id } => Ok(IssueRequest::Delete { id }),
    }
}

/// A request of the `note` command group.
#[derive(Clone, Debug)]
pub enum NoteRequest {
    Add(CreateNoteInput),
    List { issue_id: Option<i64>, task_id: Option<i64>, note_type: Option<NoteType>, include_resolved: bool, include_detail: bool },
    Resolve { id: i64, changed_by: String },
    Get { id: i64, compact: bool },
}

/// A note listing's type filter read back: every known type but
/// `evaluation`.
pub open spec fn filter_type_of(s: Seq<char>) -> Option<NoteType> {
    match NoteType::from_name(s) {
        Some(NoteType::Evaluation) => None,
        other => other,
    }
}

/// Why a `note` command is refused before reaching the tracker, if it is:
/// an unknown scope on add, an unknown type filter on list.
pub open spec fn note_request_refusal(cmd: NoteCommand) -> Option<Seq<char>> {
    match cmd {
        NoteCommand::Add { scope: Some(sc), .. } =>
            if NoteScope::from_name(sc@) is None { Some("알 수 없는 scope: "@ + sc@) } else { None },
        NoteCommand::List { note_type: Some(t), .. } =>
            if filter_type_of(t@) is None { Some("알 수 없는 note_type: "@ + t@) } else { None },
        _ => None,
    }
}

/// The request an accepted `note` command makes: a new note takes its type
/// leniently (unknown types are context) and the global agent when it names
/// none; resolving is done by the global agent.
pub open spec fn note_request_is(cmd: NoteCommand, global: Seq<char>, r: NoteRequest) -> bool {
    match cmd {
        NoteCommand::Add { issue, task, note_type, summary, detail, scope, scope_target_id, project_key, author, agent_id } =>
            r matches NoteRequest::Add(n) && n.issue_id == issue && n.task_id == task
                && n.note_type == note_type_or_context(note_type@) && n.summary == summary && n.detail == detail
                && n.author == author && n.scope_target_id == scope_target_id && n.project_key == project_key
                && n.scope == (match scope { Some(sc) => NoteScope::from_name(sc@), None => None })
                && (match agent_id { Some(a) => n.agent_id == Some(a), None => n.agent_id matches Some(g) && g@ == global }),
        NoteCommand::List { issue, task, note_type, include_resolved, include_detail } =>
            r == NoteRequest::List {
                issue_id: issue,
                task_id: task,
                note_type: match note_type { Some(t) => filter_type_of(t@), None => None },
                include_resolved,
                include_detail,
            },
        NoteCommand::Resolve { id } => r matches NoteRequest::Resolve { id: rid, changed_by } && rid == id && changed_by@ == global,
        NoteCommand::Get { id, compact } => r == NoteRequest::Get { id, compact },
    }
}

/// Turns a `note` command into its request; see [`note_request_refusal`]
/// and [`note_request_is`].
pub fn note_request(cmd: NoteCommand, global_agent: &str) -> (r: Result<NoteRequest, Failure>)
    ensures
        match r {
            Ok(req) => note_request_refusal(cmd) is None && note_request_is(cmd, global_agent@, req),
            Err(Failure::Other(m)) => note_request_refusal(cmd) == Some(m@),
            Err(_) => false,
        },
{
    match cmd {
        NoteCommand::Add { issue, task, note_type, summary, detail, scope, scope_target_id, project_key, author, agent_id } => {
            let sc = match &scope {
                Some(t) => match NoteScope::parse(t.as_str()) {
                    Some(v) => Some(v),
                    None => {
                        proof { reveal_strlit(""); }
                        let f = message("알 수 없는 scope: ", t.as_str(), "");
                        assert(("알 수 없는 scope: "@ + t@) =~= "알 수 없는 scope: "@ + t@ + ""@);
                        return Err(f);
                    },
                },
                None => None,
            };
            let agent = match agent_id {
                Some(a) => Some(a),
                None => Some(String::from_str(global_agent)),
            };
            let nt = parse_note_type(note_type.as_str());
            Ok(NoteRequest::Add(CreateNoteInput {
                issue_id: issue,
                task_id: task,
                note_type: nt,
                summary,
                detail,
                author,
                agent_id: agent,
                scope: sc,
                scope_target_id,
                project_key,
            }))
        },
        NoteCommand::List { issue, task, note_type, include_resolved, include_detail } => {
            let nt = match &note_type {
                Some(t) => match NoteType::parse(t.as_str()) {
                    Some(NoteType::Evaluation) | None => {
                        proof { reveal_strlit(""); }
                        let f = message("알 수 없는 note_type: ", t.as_str(), "");
                        assert(("알 수 없는 note_type: "@ + t@) =~= "알 수 없는 note_type: "@ + t@ + ""@);
                        return Err(f);
                    },
                    Some(v) => Some(v),
                },
                None => None,
            };
            Ok(NoteRequest::List { issue_id: issue, task_id: task, note_type: nt, include_resolved, include_detail })
        },
        NoteCommand::Resolve { id } => Ok(NoteRequest::Resolve { id, changed_by: String::from_str(global_agent) }),
        NoteCommand::Get { id, compact } => Ok(NoteRequest::Get { id, compact }),
    }
}

} // verus!
