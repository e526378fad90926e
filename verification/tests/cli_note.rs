use engram::cli::note::{NoteCommand, parse_note_type_filter, parse_scope};
use engram::enums::{NoteScope, NoteType};
use engram::cli::args::CliError;

fn try_parse(args: &[&str]) -> Result<NoteCommand, CliError> {
    let argv: Vec<String> = args.iter().map(|s| s.to_string()).collect();
    NoteCommand::try_parse_from(&argv)
}

#[test]
fn note_test_parse_get() {
    let w = try_parse(&["x", "get", "42"]).unwrap();
    match w {
        NoteCommand::Get { id, .. } => assert_eq!(id, 42),
        _ => panic!("Get 변형이 파싱되어야 함"),
    }
}

#[test]
fn test_parse_add_with_type() {
    let w = try_parse(&
        ["x", "add", "--issue", "1", "--type", "caveat", "--summary", "주의"]
    ).unwrap();
    match w {
        NoteCommand::Add { issue, note_type, summary, .. } => {
            assert_eq!(issue, 1);
            assert_eq!(note_type, "caveat");
            assert_eq!(summary, "주의");
        }
        _ => panic!("Add 변형이 파싱되어야 함"),
    }
}

#[test]
fn test_parse_add_broadcast_epic_scope() {
    let w = try_parse(&[
        "x", "add", "--type", "decision", "--summary", "ADR-X",
        "--scope", "epic", "--scope-target-id", "4",
        "--agent-id", "leader@s",
    ]).unwrap();
    match w {
        NoteCommand::Add { issue, scope, scope_target_id, agent_id, .. } => {
            assert_eq!(issue, 0, "broadcast scope 면 --issue 생략 시 0");
            assert_eq!(scope.as_deref(), Some("epic"));
            assert_eq!(scope_target_id, Some(4));
            assert_eq!(agent_id.as_deref(), Some("leader@s"));
        }
        _ => panic!("Add 변형이 파싱되어야 함"),
    }
}

#[test]
fn note_test_parse_list_with_filters() {
    let w = try_parse(&[
        "x", "list", "--issue", "5", "--type", "caveat", "--include-resolved",
    ]).unwrap();
    match w {
        NoteCommand::List { issue, note_type, include_resolved, .. } => {
            assert_eq!(issue, Some(5));
            assert_eq!(note_type.as_deref(), Some("caveat"));
            assert!(include_resolved);
        }
        _ => panic!("List 변형이 파싱되어야 함"),
    }
}

#[test]
fn test_parse_note_type_filter_helper() {
    assert!(matches!(parse_note_type_filter("comment").unwrap(), NoteType::Comment));
    assert!(matches!(parse_note_type_filter("context").unwrap(), NoteType::Context));
    assert!(parse_note_type_filter("bogus").is_err());
}

#[test]
fn test_parse_scope_helper() {
    assert!(matches!(parse_scope("project").unwrap(), NoteScope::Project));
    assert!(matches!(parse_scope("epic").unwrap(),    NoteScope::Epic));
    assert!(parse_scope("bogus").is_err());
}
