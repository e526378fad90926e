use engram::cli::board::{BoardCommand};
use engram::cli::args::CliError;

fn try_parse(args: &[&str]) -> Result<BoardCommand, CliError> {
    let argv: Vec<String> = args.iter().map(|s| s.to_string()).collect();
    BoardCommand::try_parse_from(&argv)
}

#[test]
fn test_parse_status_with_project() {
    let w = try_parse(&["x", "status", "--project", "engram"]).unwrap();
    match w {
        BoardCommand::Status { project, .. } => assert_eq!(project.as_deref(), Some("engram")),
    }
}

#[test]
fn test_parse_status_no_project() {
    let w = try_parse(&["x", "status"]).unwrap();
    match w {
        BoardCommand::Status { project, .. } => assert_eq!(project, None),
    }
}

#[test]
fn test_parse_status_with_flags() {
    let w = try_parse(&["x", "status", "--compact", "--no-chains"]).unwrap();
    match w {
        BoardCommand::Status { compact, no_chains, .. } => {
            assert!(compact);
            assert!(no_chains);
        }
    }
}
