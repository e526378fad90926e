use engram::cli::sprint::{SprintCommand};
use engram::cli::args::CliError;

fn try_parse(args: &[&str]) -> Result<SprintCommand, CliError> {
    let argv: Vec<String> = args.iter().map(|s| s.to_string()).collect();
    SprintCommand::try_parse_from(&argv)
}

#[test]
fn test_parse_create() {
    let w = try_parse(&["x", "create", "--name", "Sprint #1"]).unwrap();
    match w {
        SprintCommand::Create { name, .. } => assert_eq!(name, "Sprint #1"),
        _ => panic!("Create 변형이 파싱되어야 함"),
    }
}

#[test]
fn sprint_test_parse_update_with_status() {
    let w = try_parse(&["x", "update", "1", "--status", "active"]).unwrap();
    match w {
        SprintCommand::Update { id, status, .. } => {
            assert_eq!(id, 1);
            assert_eq!(status.as_deref(), Some("active"));
        }
        _ => panic!("Update 변형이 파싱되어야 함"),
    }
}

#[test]
fn test_parse_current_and_list() {
    assert!(matches!(
        try_parse(&["x", "current"]).unwrap(),
        SprintCommand::Current
    ));
    assert!(matches!(
        try_parse(&["x", "list"]).unwrap(),
        SprintCommand::List
    ));
}
