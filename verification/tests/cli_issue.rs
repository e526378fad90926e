use engram::cli::issue::{IssueCommand, parse_status, parse_release_transition, parse_priority, parse_link_type};
use engram::enums::{IssuePriority, IssueStatus, LinkType};
use engram::cli::args::CliError;

fn try_parse(args: &[&str]) -> Result<IssueCommand, CliError> {
    let argv: Vec<String> = args.iter().map(|s| s.to_string()).collect();
    IssueCommand::try_parse_from(&argv)
}

fn parse(args: &[&str]) -> IssueCommand {
    let mut argv: Vec<&str> = vec!["engram-test"];
    argv.extend_from_slice(args);
    try_parse(&argv).unwrap()
}

#[test]
fn issue_test_parse_update_with_status() {
    let cmd = parse(&["update", "1", "--status", "working"]);
    match cmd {
        IssueCommand::Update { id, status, .. } => {
            assert_eq!(id, 1);
            assert_eq!(status.as_deref(), Some("working"));
        }
        _ => panic!("Update 변형이 파싱되어야 함"),
    }
}

#[test]
fn issue_test_parse_create_full() {
    let cmd = parse(&["create", "--epic", "2", "--title", "Hello", "--goal", "MyGoal", "--description", "Desc"]);
    match cmd {
        IssueCommand::Create { epic, title, goal, description, .. } => {
            assert_eq!(epic, 2);
            assert_eq!(title, "Hello");
            assert_eq!(goal.as_deref(), Some("MyGoal"));
            assert_eq!(description.as_deref(), Some("Desc"));
        }
        _ => panic!("Create 변형이 파싱되어야 함"),
    }
}

#[test]
fn issue_test_parse_update_full() {
    let cmd = parse(&["update", "5", "--goal", "NewGoal", "--description", "NewDesc"]);
    match cmd {
        IssueCommand::Update { id, goal, description, .. } => {
            assert_eq!(id, 5);
            assert_eq!(goal.as_deref(), Some("NewGoal"));
            assert_eq!(description.as_deref(), Some("NewDesc"));
        }
        _ => panic!("Update 변형이 파싱되어야 함"),
    }
}

#[test]
fn test_parse_link_default_blocks() {
    let cmd = parse(&["link", "--source", "10", "--target", "20"]);
    match cmd {
        IssueCommand::Link { source, target, link_type } => {
            assert_eq!(source, 10);
            assert_eq!(target, 20);
            assert_eq!(link_type, "blocks", "기본 link_type은 blocks");
        }
        _ => panic!("Link 변형이 파싱되어야 함"),
    }
}

#[test]
fn test_parse_unlink() {
    let cmd = parse(&["unlink", "--link-id", "7"]);
    match cmd {
        IssueCommand::Unlink { link_id } => assert_eq!(link_id, 7),
        _ => panic!("Unlink 변형이 파싱되어야 함"),
    }
}

#[test]
fn test_parse_status_helpers() {
    assert_eq!(parse_status("working").unwrap(), IssueStatus::Working);
    assert!(parse_status("nonsense").is_err());
    assert_eq!(parse_priority("critical").unwrap(), IssuePriority::Critical);
    assert_eq!(parse_link_type("relates_to").unwrap(), LinkType::RelatesTo);
}

#[test]
fn test_parse_claim() {
    let cmd = parse(&["claim", "7", "--agent-id", "me@sess-1"]);
    match cmd {
        IssueCommand::Claim { id, agent_id } => {
            assert_eq!(id, 7);
            assert_eq!(agent_id.as_deref(), Some("me@sess-1"));
        }
        _ => panic!("Claim 변형이 파싱되어야 함"),
    }
}

#[test]
fn test_parse_claim_without_agent_id() {
    let cmd = parse(&["claim", "7"]);
    match cmd {
        IssueCommand::Claim { id, agent_id } => {
            assert_eq!(id, 7);
            assert_eq!(agent_id, None);
        }
        _ => panic!("Claim 변형이 파싱되어야 함"),
    }
}

#[test]
fn test_parse_release_with_force() {
    let cmd = parse(&[
        "release", "7", "--agent-id", "me@s", "--transition-to", "demo", "--force",
    ]);
    match cmd {
        IssueCommand::Release { id, agent_id, transition_to, force } => {
            assert_eq!(id, 7);
            assert_eq!(agent_id.as_deref(), Some("me@s"));
            assert_eq!(transition_to, "demo");
            assert!(force);
        }
        _ => panic!("Release 변형이 파싱되어야 함"),
    }
}

#[test]
fn test_parse_release_transition_helper() {
    assert_eq!(parse_release_transition("ready").unwrap(),    IssueStatus::Ready);
    assert_eq!(parse_release_transition("demo").unwrap(),     IssueStatus::Demo);
    assert_eq!(parse_release_transition("required").unwrap(), IssueStatus::Required);
    assert!(parse_release_transition("working").is_err());
    assert!(parse_release_transition("finished").is_err());
}

#[test]
fn test_parse_set_sprint_with_value() {
    let cmd = parse(&["set-sprint", "5", "--sprint", "3"]);
    match cmd {
        IssueCommand::SetSprint { id, sprint } => {
            assert_eq!(id, 5);
            assert_eq!(sprint, Some(3));
        }
        _ => panic!("SetSprint 변형이 파싱되어야 함"),
    }
}

#[test]
fn issue_test_parse_set_sprint_to_backlog() {
    let cmd = parse(&["set-sprint", "5"]);
    match cmd {
        IssueCommand::SetSprint { id, sprint } => {
            assert_eq!(id, 5);
            assert_eq!(sprint, None);
        }
        _ => panic!("SetSprint 변형이 파싱되어야 함"),
    }
}

#[test]
fn issue_test_parse_delete() {
    let cmd = parse(&["delete", "9"]);
    match cmd {
        IssueCommand::Delete { id } => assert_eq!(id, 9),
        _ => panic!("Delete 변형이 파싱되어야 함"),
    }
}

#[test]
fn test_parse_list_full_filters() {
    let cmd = parse(&[
        "list", "--project", "engram", "--epic", "4",
        "--sprint", "2", "--backlog-only",
        "--status", "ready", "--priority", "high",
    ]);
    match cmd {
        IssueCommand::List { project, epic, sprint, backlog_only, status, priority, .. } => {
            assert_eq!(project.as_deref(), Some("engram"));
            assert_eq!(epic, Some(4));
            assert_eq!(sprint, Some(2));
            assert!(backlog_only);
            assert_eq!(status.as_deref(), Some("ready"));
            assert_eq!(priority.as_deref(), Some("high"));
        }
        _ => panic!("List 변형이 파싱되어야 함"),
    }
}

#[test]
fn test_parse_list_with_mission() {
    let cmd = parse(&["list", "--mission", "7"]);
    match cmd {
        IssueCommand::List { mission, .. } => {
            assert_eq!(mission, Some(7), "--mission 옵션이 파싱되어야 함");
        }
        _ => panic!("List 변형이 파싱되어야 함"),
    }
}

#[test]
fn test_parse_list_mission_default_none() {
    let cmd = parse(&["list", "--project", "proj"]);
    match cmd {
        IssueCommand::List { mission, .. } => {
            assert_eq!(mission, None, "--mission 미지정 시 None이어야 함");
        }
        _ => panic!("List 변형이 파싱되어야 함"),
    }
}
