use engram::models::projection_keeps;

#[test]
fn projection_keeps_only_named_fields() {
    let none: Vec<String> = vec![];
    assert!(projection_keeps(&none, "anything"));
    let fields = vec!["id".to_string(), "title".to_string()];
    assert!(projection_keeps(&fields, "id"));
    assert!(projection_keeps(&fields, "title"));
    assert!(!projection_keeps(&fields, "description"));
    assert!(!projection_keeps(&fields, "ti"));
}
