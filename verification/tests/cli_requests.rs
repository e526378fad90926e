use engram::cli::issue::IssueCommand;
use engram::cli::note::NoteCommand;
use engram::cli::output::Failure;
use engram::cli::requests::{issue_request, note_request, IssueRequest, NoteRequest};
use engram::enums::{IssueStatus, LinkType, NoteScope, NoteType};

fn refusal<T: std::fmt::Debug>(r: Result<T, Failure>) -> String {
    match r {
        Err(Failure::Other(m)) => m,
        other => panic!("expected a refusal, got {other:?}"),
    }
}

#[test]
fn claim_needs_an_agent() {
    let cmd = IssueCommand::Claim { id: 7, agent_id: None };
    assert_eq!(refusal(issue_request(cmd, "user")), "issue claim 은 --agent-id 가 필요합니다 (글로벌 또는 서브커맨드)");
    match issue_request(IssueCommand::Claim { id: 7, agent_id: None }, "bot@1").unwrap() {
        IssueRequest::Claim { id, agent_id } => assert_eq!((id, agent_id.as_str()), (7, "bot@1")),
        other => panic!("unexpected {other:?}"),
    }
    match issue_request(IssueCommand::Claim { id: 7, agent_id: Some("me".into()) }, "bot@1").unwrap() {
        IssueRequest::Claim { agent_id, .. } => assert_eq!(agent_id, "me"),
        other => panic!("unexpected {other:?}"),
    }
}

#[test]
fn release_checks_agent_then_target() {
    let r = issue_request(IssueCommand::Release { id: 1, agent_id: None, transition_to: "working".into(), force: false }, "user");
    assert_eq!(refusal(r), "issue release 은 --agent-id 가 필요합니다 (글로벌 또는 서브커맨드)");
    let r = issue_request(IssueCommand::Release { id: 1, agent_id: Some("a".into()), transition_to: "working".into(), force: false }, "user");
    assert_eq!(refusal(r), "issue release --transition-to 는 ready/demo/required 만 허용 (받은 값: working)");
    match issue_request(IssueCommand::Release { id: 1, agent_id: Some("a".into()), transition_to: "demo".into(), force: true }, "user").unwrap() {
        IssueRequest::Release { transition_to, force, .. } => assert_eq!((transition_to, force), (IssueStatus::Demo, true)),
        other => panic!("unexpected {other:?}"),
    }
}

#[test]
fn update_and_list_read_their_texts() {
    let cmd = IssueCommand::Update { id: 3, status: Some("bogus".into()), priority: Some("worse".into()), title: None, goal: None, description: None };
    assert_eq!(refusal(issue_request(cmd, "user")), "알 수 없는 status: bogus");
    let cmd = IssueCommand::List { project: None, epic: None, mission: None, sprint: None, backlog_only: false, status: None, priority: Some("worse".into()) };
    assert_eq!(refusal(issue_request(cmd, "user")), "알 수 없는 priority: worse");
    match issue_request(IssueCommand::Ready { id: 4 }, "user").unwrap() {
        IssueRequest::Update { id, input } => {
            assert_eq!(id, 4);
            assert_eq!(input.status, Some(IssueStatus::Ready));
        },
        other => panic!("unexpected {other:?}"),
    }
    match issue_request(IssueCommand::Link { source: 1, target: 2, link_type: "relates_to".into() }, "user").unwrap() {
        IssueRequest::Link { link_type, .. } => assert_eq!(link_type, LinkType::RelatesTo),
        other => panic!("unexpected {other:?}"),
    }
    assert_eq!(refusal(issue_request(IssueCommand::Link { source: 1, target: 2, link_type: "x".into() }, "user")), "알 수 없는 link_type: x");
}

#[test]
fn notes_take_the_global_agent_and_lenient_type() {
    let cmd = NoteCommand::Add {
        issue: 0,
        task: None,
        note_type: "evaluation".into(),
        summary: "s".into(),
        detail: None,
        scope: Some("epic".into()),
        scope_target_id: Some(4),
        project_key: None,
        author: None,
        agent_id: None,
    };
    match note_request(cmd, "leader@s").unwrap() {
        NoteRequest::Add(n) => {
            assert_eq!(n.note_type, NoteType::Context);
            assert_eq!(n.scope, Some(NoteScope::Epic));
            assert_eq!(n.agent_id.as_deref(), Some("leader@s"));
        },
        other => panic!("unexpected {other:?}"),
    }
    let bad = NoteCommand::List { issue: None, task: None, note_type: Some("evaluation".into()), include_resolved: false, include_detail: false };
    assert_eq!(refusal(note_request(bad, "u")), "알 수 없는 note_type: evaluation");
    match note_request(NoteCommand::Resolve { id: 2 }, "u").unwrap() {
        NoteRequest::Resolve { id, changed_by } => assert_eq!((id, changed_by.as_str()), (2, "u")),
        other => panic!("unexpected {other:?}"),
    }
}
