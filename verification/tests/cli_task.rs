use engram::cli::task::{TaskCommand, parse_task_status};
use engram::enums::{TaskStatus};
use engram::cli::args::CliError;

fn try_parse(args: &[&str]) -> Result<TaskCommand, CliError> {
    let argv: Vec<String> = args.iter().map(|s| s.to_string()).collect();
    TaskCommand::try_parse_from(&argv)
}

#[test]
fn task_test_parse_update_status() {
    let w = try_parse(&["x", "update", "3", "--status", "working"]).unwrap();
    match w {
        TaskCommand::Update { id, status, .. } => {
            assert_eq!(id, 3);
            assert_eq!(status.as_deref(), Some("working"));
        }
        _ => panic!("Update 변형이 파싱되어야 함"),
    }
}

#[test]
fn test_parse_insert_after() {
    let w = try_parse(&
        ["x", "insert-after", "--issue", "1", "--after", "5", "--title", "discovered"]
    ).unwrap();
    match w {
        TaskCommand::InsertAfter { issue, after_task_id, title } => {
            assert_eq!(issue, 1);
            assert_eq!(after_task_id, 5);
            assert_eq!(title, "discovered");
        }
        _ => panic!("InsertAfter 변형이 파싱되어야 함"),
    }
}

#[test]
fn test_parse_task_status_helper() {
    assert_eq!(parse_task_status("ready").unwrap(), TaskStatus::Ready);
    assert!(parse_task_status("xx").is_err());
}
