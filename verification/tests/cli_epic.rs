use engram::cli::epic::{EpicCommand, parse_epic_status};
use engram::enums::{EpicStatus};
use engram::cli::args::CliError;

fn try_parse(args: &[&str]) -> Result<EpicCommand, CliError> {
    let argv: Vec<String> = args.iter().map(|s| s.to_string()).collect();
    EpicCommand::try_parse_from(&argv)
}

#[test]
fn epic_test_parse_update_status() {
    let w = try_parse(&["x", "update", "5", "--status", "completed"]).unwrap();
    match w {
        EpicCommand::Update { id, status, .. } => {
            assert_eq!(id, 5);
            assert_eq!(status.as_deref(), Some("completed"));
        }
        _ => panic!("Update 변형이 파싱되어야 함"),
    }
}

#[test]
fn test_parse_epic_status_helper() {
    assert_eq!(parse_epic_status("active").unwrap(), EpicStatus::Active);
    assert!(parse_epic_status("garbage").is_err());
}

#[test]
fn epic_test_parse_delete() {
    let w = try_parse(&["x", "delete", "12"]).unwrap();
    match w {
        EpicCommand::Delete { id } => assert_eq!(id, 12),
        _ => panic!("Delete 변형이 파싱되어야 함"),
    }
}

#[test]
fn test_parse_list_with_status() {
    let w = try_parse(&["x", "list", "--project", "engram", "--status", "active"]).unwrap();
    match w {
        EpicCommand::List { project, status, .. } => {
            assert_eq!(project.as_deref(), Some("engram"));
            assert_eq!(status.as_deref(), Some("active"));
        }
        _ => panic!("List 변형이 파싱되어야 함"),
    }
}

#[test]
fn epic_test_parse_set_sprint() {
    let w = try_parse(&["x", "set-sprint", "--epic-id", "8", "--sprint", "3"]).unwrap();
    match w {
        EpicCommand::SetSprint { epic_id, sprint } => {
            assert_eq!(epic_id, 8);
            assert_eq!(sprint, Some(3));
        }
        _ => panic!("SetSprint 변형이 파싱되어야 함"),
    }
}

#[test]
fn epic_test_parse_set_sprint_to_backlog() {
    let w = try_parse(&["x", "set-sprint", "--epic-id", "8"]).unwrap();
    match w {
        EpicCommand::SetSprint { epic_id, sprint } => {
            assert_eq!(epic_id, 8);
            assert!(sprint.is_none());
        }
        _ => panic!("SetSprint 변형이 파싱되어야 함"),
    }
}
