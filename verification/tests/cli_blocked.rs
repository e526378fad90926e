use engram::cli::blocked::{BlockedCommand};
use engram::cli::args::CliError;

fn try_parse(args: &[&str]) -> Result<BlockedCommand, CliError> {
    let argv: Vec<String> = args.iter().map(|s| s.to_string()).collect();
    BlockedCommand::try_parse_from(&argv)
}

#[test]
fn test_parse_list_requires_project() {
    let w = try_parse(&["x", "list", "--project", "engram"]).unwrap();
    match w {
        BlockedCommand::List { project } => assert_eq!(project, "engram"),
    }
}

#[test]
fn test_parse_list_missing_project_fails() {
    assert!(try_parse(&["x", "list"]).is_err());
}
