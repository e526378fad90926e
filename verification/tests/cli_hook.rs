use engram::cli::hook::{HookCommand};
use engram::cli::args::CliError;

fn try_parse(args: &[&str]) -> Result<HookCommand, CliError> {
    let argv: Vec<String> = args.iter().map(|s| s.to_string()).collect();
    HookCommand::try_parse_from(&argv)
}

#[test]
fn test_parse_install_uninstall() {
    assert!(matches!(
        try_parse(&["x", "install"]).unwrap(),
        HookCommand::Install
    ));
    assert!(matches!(
        try_parse(&["x", "uninstall"]).unwrap(),
        HookCommand::Uninstall
    ));
}

#[test]
fn test_parse_post_session_check_with_project() {
    let w = try_parse(&["x", "post-session-check", "--project", "p1"]).unwrap();
    match w {
        HookCommand::PostSessionCheck { project } => {
            assert_eq!(project.as_deref(), Some("p1"));
        }
        _ => panic!("PostSessionCheck 변형이 파싱되어야 함"),
    }
}
