use engram::cli::stalled::{StalledArgs, parse_stalled_status};
use engram::enums::{IssueStatus};
use engram::cli::args::CliError;

fn try_parse(args: &[&str]) -> Result<StalledArgs, CliError> {
    let argv: Vec<String> = args.iter().map(|s| s.to_string()).collect();
    StalledArgs::try_parse_from(&argv)
}

#[test]
fn test_parse_threshold_required() {
    let w = try_parse(&["x", "--threshold-minutes", "10"]).unwrap();
    assert_eq!(w.threshold_minutes, 10);
    assert_eq!(w.status, "working", "기본 status=working");
    assert_eq!(w.project, None);
}

#[test]
fn test_parse_with_project_and_status() {
    let w = try_parse(&[
        "x", "--threshold-minutes", "30", "--status", "ready", "--project", "engram",
    ]).unwrap();
    assert_eq!(w.threshold_minutes, 30);
    assert_eq!(w.status, "ready");
    assert_eq!(w.project.as_deref(), Some("engram"));
}

#[test]
fn test_parse_stalled_status_helper() {
    assert_eq!(parse_stalled_status("working").unwrap(), IssueStatus::Working);
    assert!(parse_stalled_status("bogus").is_err());
}
