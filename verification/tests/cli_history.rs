use engram::cli::history::{HistoryCommand, parse_entity_type};
use engram::enums::{EntityType};
use engram::cli::args::CliError;

fn try_parse(args: &[&str]) -> Result<HistoryCommand, CliError> {
    let argv: Vec<String> = args.iter().map(|s| s.to_string()).collect();
    HistoryCommand::try_parse_from(&argv)
}

#[test]
fn test_parse_recent_defaults() {
    let w = try_parse(&["x", "recent"]).unwrap();
    match w {
        HistoryCommand::Recent { limit, since_minutes } => {
            assert_eq!(limit, 20, "기본 limit=20");
            assert_eq!(since_minutes, None);
        }
        _ => panic!("Recent 변형이 파싱되어야 함"),
    }
}

#[test]
fn test_parse_recent_with_filters() {
    let w = try_parse(&
        ["x", "recent", "--limit", "20", "--since-minutes", "5"]
    ).unwrap();
    match w {
        HistoryCommand::Recent { limit, since_minutes } => {
            assert_eq!(limit, 20);
            assert_eq!(since_minutes, Some(5));
        }
        _ => panic!("Recent 변형이 파싱되어야 함"),
    }
}

#[test]
fn test_parse_for() {
    let w = try_parse(&
        ["x", "for", "--entity-type", "issue", "--entity-id", "12"]
    ).unwrap();
    match w {
        HistoryCommand::For { entity_type, entity_id } => {
            assert_eq!(entity_type, "issue");
            assert_eq!(entity_id, 12);
        }
        _ => panic!("For 변형이 파싱되어야 함"),
    }
}

#[test]
fn test_parse_by_agent_default_limit() {
    let w = try_parse(&
        ["x", "by-agent", "--agent-id", "leader@s"]
    ).unwrap();
    match w {
        HistoryCommand::ByAgent { agent_id, limit } => {
            assert_eq!(agent_id, "leader@s");
            assert_eq!(limit, 50, "기본 limit=50");
        }
        _ => panic!("ByAgent 변형이 파싱되어야 함"),
    }
}

#[test]
fn test_parse_entity_type_helper() {
    assert!(matches!(parse_entity_type("epic").unwrap(),   EntityType::Epic));
    assert!(matches!(parse_entity_type("sprint").unwrap(), EntityType::Sprint));
    assert!(parse_entity_type("bogus").is_err());
}
