use engram::cli::output::{classify_error, error_exit_code, error_text, Failure, OutputFormat};
use engram::Error;

#[test]
fn test_classify_validation() {
    let e = Failure::Core(Error::Validation("bad".into()));
    let (code, msg) = classify_error(&e);
    assert_eq!(code, "validation");
    assert_eq!(msg, "bad");
    assert_eq!(error_exit_code(&e), 2);
}

#[test]
fn test_classify_not_found() {
    let e = Failure::Core(Error::NotFound("epic:99".into()));
    let (code, _) = classify_error(&e);
    assert_eq!(code, "not_found");
    assert_eq!(error_exit_code(&e), 3);
}

#[test]
fn test_classify_invalid_transition() {
    let e = Failure::Core(Error::InvalidTransition("cas refused".into()));
    let (code, _) = classify_error(&e);
    assert_eq!(code, "invalid_transition");
    assert_eq!(error_exit_code(&e), 4);
}

#[test]
fn test_classify_other_anyhow() {
    let e = Failure::Other("io thing".into());
    let (code, _) = classify_error(&e);
    assert_eq!(code, "internal");
    assert_eq!(error_exit_code(&e), 1);
}

#[test]
fn test_output_format_from_flags() {
    assert_eq!(OutputFormat::from_flags(true), OutputFormat::Json);
    assert_eq!(OutputFormat::from_flags(false), OutputFormat::Pretty);
}

#[test]
fn classify_conflict_is_a_refused_transition() {
    let e = Failure::Core(Error::Conflict("issue 3 is held by a".into()));
    let (code, msg) = classify_error(&e);
    assert_eq!(code, "invalid_transition");
    assert_eq!(msg, "issue 3 is held by a");
    assert_eq!(error_exit_code(&e), 4);
}

#[test]
fn classify_storage_failure_is_labelled() {
    let e = Failure::Core(Error::Db("disk full".into()));
    let (code, msg) = classify_error(&e);
    assert_eq!(code, "internal");
    assert_eq!(msg, "Database error: disk full");
    assert_eq!(error_exit_code(&e), 1);
    assert_eq!(error_text(&e), "error[internal]: Database error: disk full");
}
