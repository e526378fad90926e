use engram::cli::args::{CliErrorKind};
use engram::cli::issue::IssueCommand;
use engram::cli::note::parse_note_type;
use engram::cli::stalled::StalledArgs;
use engram::cli::values::{parse_i64_text, parse_u32_text};
use engram::cli::{unescape_newlines, unescape_newlines_opt, Cli, Command};
use engram::enums::{NoteType, OutputMode};

fn argv(args: &[&str]) -> Vec<String> {
    args.iter().map(|s| s.to_string()).collect()
}

#[test]
fn numbers_follow_the_integer_grammar() {
    assert_eq!(parse_i64_text("42"), Some(42));
    assert_eq!(parse_i64_text("+7"), Some(7));
    assert_eq!(parse_i64_text("-9223372036854775808"), Some(i64::MIN));
    assert_eq!(parse_i64_text("9223372036854775807"), Some(i64::MAX));
    assert_eq!(parse_i64_text("9223372036854775808"), None);
    assert_eq!(parse_i64_text(""), None);
    assert_eq!(parse_i64_text("-"), None);
    assert_eq!(parse_i64_text("1x"), None);
    assert_eq!(parse_u32_text("4294967295"), Some(u32::MAX));
    assert_eq!(parse_u32_text("4294967296"), None);
    assert_eq!(parse_u32_text("-0"), None);
    assert_eq!(parse_u32_text("+3"), Some(3));
}

#[test]
fn argument_errors() {
    let e = IssueCommand::try_parse_from(&argv(&["x", "get"])).unwrap_err();
    assert_eq!(e.kind, CliErrorKind::MissingRequired);
    let e = IssueCommand::try_parse_from(&argv(&["x", "get", "abc"])).unwrap_err();
    assert_eq!((e.kind, e.arg.as_str()), (CliErrorKind::InvalidNumber, "abc"));
    let e = IssueCommand::try_parse_from(&argv(&["x", "get", "1", "2"])).unwrap_err();
    assert_eq!(e.kind, CliErrorKind::UnexpectedPositional);
    let e = IssueCommand::try_parse_from(&argv(&["x", "get", "1", "--bogus"])).unwrap_err();
    assert_eq!(e.kind, CliErrorKind::UnknownArgument);
    let e = IssueCommand::try_parse_from(&argv(&["x", "update", "1", "--title", "a", "--title", "b"])).unwrap_err();
    assert_eq!((e.kind, e.arg.as_str()), (CliErrorKind::Duplicate, "title"));
    let e = IssueCommand::try_parse_from(&argv(&["x", "update", "1", "--title"])).unwrap_err();
    assert_eq!(e.kind, CliErrorKind::MissingValue);
    let e = IssueCommand::try_parse_from(&argv(&["x", "get", "1", "--compact=yes"])).unwrap_err();
    assert_eq!(e.kind, CliErrorKind::UnexpectedValue);
    let e = IssueCommand::try_parse_from(&argv(&["x", "frobnicate"])).unwrap_err();
    assert_eq!(e.kind, CliErrorKind::UnknownSubcommand);
    let e = IssueCommand::try_parse_from(&argv(&["x"])).unwrap_err();
    assert_eq!(e.kind, CliErrorKind::MissingSubcommand);
    let e = IssueCommand::try_parse_from(&argv(&["x", "get", "--help"])).unwrap_err();
    assert_eq!(e.kind, CliErrorKind::HelpRequested);
}

#[test]
fn inline_values_and_double_dash() {
    match IssueCommand::try_parse_from(&argv(&["x", "update", "--title=a=b", "--", "5"])).unwrap() {
        IssueCommand::Update { id, title, .. } => {
            assert_eq!(id, 5);
            assert_eq!(title.as_deref(), Some("a=b"));
        },
        other => panic!("unexpected {other:?}"),
    }
    let s = StalledArgs::try_parse_from(&argv(&["x", "--threshold-minutes=15"])).unwrap();
    assert_eq!(s.threshold_minutes, 15);
    assert!(StalledArgs::try_parse_from(&argv(&["x"])).is_err());
}

#[test]
fn whole_command_line_with_globals() {
    let cli = Cli::try_parse_from(&argv(&["engram", "--agent-id", "bot@1", "session", "restore", "--project", "p", "--json"])).unwrap();
    assert!(cli.json);
    assert_eq!(cli.agent_id, "bot@1");
    assert_eq!(cli.mode, OutputMode::Normal);
    match cli.command {
        Command::Session(_) => {},
        other => panic!("unexpected {other:?}"),
    }
    let cli = Cli::try_parse_from(&argv(&["engram", "--mode", "agent", "stalled", "--threshold-minutes", "10"])).unwrap();
    assert!(!cli.json);
    assert_eq!(cli.agent_id, "user");
    assert_eq!(cli.mode, OutputMode::Agent);
    match cli.command {
        Command::Stalled(s) => assert_eq!((s.threshold_minutes, s.status.as_str()), (10, "working")),
        other => panic!("unexpected {other:?}"),
    }
    match Cli::try_parse_from(&argv(&["engram", "snapshot-text"])).unwrap().command {
        Command::SnapshotText { project } => assert_eq!(project, None),
        other => panic!("unexpected {other:?}"),
    }
    assert_eq!(Cli::try_parse_from(&argv(&["engram"])).unwrap_err().kind, CliErrorKind::MissingSubcommand);
    assert_eq!(Cli::try_parse_from(&argv(&["engram", "nope"])).unwrap_err().kind, CliErrorKind::UnknownSubcommand);
    assert_eq!(Cli::try_parse_from(&argv(&["engram", "--mode", "loud", "sprint", "list"])).unwrap_err().kind, CliErrorKind::InvalidValue);
}

#[test]
fn helpers() {
    assert_eq!(unescape_newlines("a\\nb".to_string()), "a\nb");
    assert_eq!(unescape_newlines_opt(None), None);
    assert_eq!(unescape_newlines_opt(Some("x\\ny".into())).as_deref(), Some("x\ny"));
    assert_eq!(parse_note_type("decision"), NoteType::Decision);
    assert_eq!(parse_note_type("whatever"), NoteType::Context);
    assert_eq!(parse_note_type("evaluation"), NoteType::Context);
}
