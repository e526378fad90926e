use engram::cli::mission::{MissionCommand, parse_mission_status};
use engram::enums::{MissionStatus};
use engram::cli::args::CliError;

fn try_parse(args: &[&str]) -> Result<MissionCommand, CliError> {
    let argv: Vec<String> = args.iter().map(|s| s.to_string()).collect();
    MissionCommand::try_parse_from(&argv)
}

fn parse(args: &[&str]) -> MissionCommand {
    let mut argv: Vec<&str> = vec!["engram-test"];
    argv.extend_from_slice(args);
    try_parse(&argv).unwrap()
}

#[test]
fn test_parse_create_minimal() {
    let cmd = parse(&["create", "--title", "M6 Mission"]);
    match cmd {
        MissionCommand::Create { title, description, jira_key, sprint } => {
            assert_eq!(title, "M6 Mission");
            assert!(description.is_none());
            assert!(jira_key.is_none());
            assert!(sprint.is_none());
        }
        _ => panic!("Create 변형이 파싱되어야 함"),
    }
}

#[test]
fn mission_test_parse_create_full() {
    let cmd = parse(&[
        "create", "--title", "Full Mission",
        "--description", "Desc",
        "--jira-key", "PROJ-1",
        "--sprint", "3",
    ]);
    match cmd {
        MissionCommand::Create { title, description, jira_key, sprint } => {
            assert_eq!(title, "Full Mission");
            assert_eq!(description.as_deref(), Some("Desc"));
            assert_eq!(jira_key.as_deref(), Some("PROJ-1"));
            assert_eq!(sprint, Some(3));
        }
        _ => panic!("Create 변형이 파싱되어야 함"),
    }
}

#[test]
fn test_parse_list_defaults() {
    let cmd = parse(&["list"]);
    match cmd {
        MissionCommand::List { sprint, include_completed } => {
            assert!(sprint.is_none());
            assert!(!include_completed);
        }
        _ => panic!("List 변형이 파싱되어야 함"),
    }
}

#[test]
fn mission_test_parse_list_with_filters() {
    let cmd = parse(&["list", "--sprint", "2", "--include-completed"]);
    match cmd {
        MissionCommand::List { sprint, include_completed } => {
            assert_eq!(sprint, Some(2));
            assert!(include_completed);
        }
        _ => panic!("List 변형이 파싱되어야 함"),
    }
}

#[test]
fn mission_test_parse_get() {
    let cmd = parse(&["get", "7"]);
    match cmd {
        MissionCommand::Get { id } => assert_eq!(id, 7),
        _ => panic!("Get 변형이 파싱되어야 함"),
    }
}

#[test]
fn mission_test_parse_update_status() {
    let cmd = parse(&["update", "5", "--status", "completed"]);
    match cmd {
        MissionCommand::Update { id, status, .. } => {
            assert_eq!(id, 5);
            assert_eq!(status.as_deref(), Some("completed"));
        }
        _ => panic!("Update 변형이 파싱되어야 함"),
    }
}

#[test]
fn mission_test_parse_update_full() {
    let cmd = parse(&[
        "update", "5",
        "--title", "New Title",
        "--jira-key", "X-99",
        "--sprint", "4",
    ]);
    match cmd {
        MissionCommand::Update { id, title, jira_key, sprint, .. } => {
            assert_eq!(id, 5);
            assert_eq!(title.as_deref(), Some("New Title"));
            assert_eq!(jira_key.as_deref(), Some("X-99"));
            assert_eq!(sprint, Some(4));
        }
        _ => panic!("Update 변형이 파싱되어야 함"),
    }
}

#[test]
fn mission_test_parse_delete() {
    let cmd = parse(&["delete", "12"]);
    match cmd {
        MissionCommand::Delete { id } => assert_eq!(id, 12),
        _ => panic!("Delete 변형이 파싱되어야 함"),
    }
}

#[test]
fn test_parse_get_tree_by_id() {
    let cmd = parse(&["get-tree", "3"]);
    match cmd {
        MissionCommand::GetTree { id, jira_key } => {
            assert_eq!(id, 3);
            assert!(jira_key.is_none());
        }
        _ => panic!("GetTree 변형이 파싱되어야 함"),
    }
}

#[test]
fn test_parse_get_tree_by_jira_key() {
    let cmd = parse(&["get-tree", "0", "--jira-key", "PROJ-10"]);
    match cmd {
        MissionCommand::GetTree { jira_key, .. } => {
            assert_eq!(jira_key.as_deref(), Some("PROJ-10"));
        }
        _ => panic!("GetTree 변형이 파싱되어야 함"),
    }
}

#[test]
fn mission_test_parse_set_sprint() {
    let cmd = parse(&["set-sprint", "--mission-id", "8", "--sprint", "2"]);
    match cmd {
        MissionCommand::SetSprint { mission_id, sprint } => {
            assert_eq!(mission_id, 8);
            assert_eq!(sprint, Some(2));
        }
        _ => panic!("SetSprint 변형이 파싱되어야 함"),
    }
}

#[test]
fn mission_test_parse_set_sprint_to_backlog() {
    let cmd = parse(&["set-sprint", "--mission-id", "8"]);
    match cmd {
        MissionCommand::SetSprint { mission_id, sprint } => {
            assert_eq!(mission_id, 8);
            assert!(sprint.is_none());
        }
        _ => panic!("SetSprint 변형이 파싱되어야 함"),
    }
}

#[test]
fn test_parse_mission_status_helper() {
    assert_eq!(parse_mission_status("active").unwrap(), MissionStatus::Active);
    assert_eq!(parse_mission_status("completed").unwrap(), MissionStatus::Completed);
    assert_eq!(parse_mission_status("cancelled").unwrap(), MissionStatus::Cancelled);
    assert!(parse_mission_status("invalid").is_err());
}
