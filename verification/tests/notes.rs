use engram::enums::{NoteScope, NoteType};
use engram::models::CreateNoteInput;
use engram::notes::{default_note_scope, place_note, place_notes, EPIC_SCOPE_MESSAGE, ISSUE_SCOPE_MESSAGE, PROJECT_SCOPE_MESSAGE, TASK_SCOPE_MESSAGE};
use engram::Error;

fn input(issue_id: i64, task_id: Option<i64>, scope: Option<NoteScope>) -> CreateNoteInput {
    CreateNoteInput {
        issue_id,
        task_id,
        note_type: NoteType::Caveat,
        summary: "s".into(),
        detail: None,
        author: None,
        agent_id: None,
        scope,
        scope_target_id: None,
        project_key: None,
    }
}

fn refusal(r: Result<engram::notes::NotePlacement, Error>) -> String {
    match r {
        Err(Error::Validation(m)) => m,
        other => panic!("expected a refusal, got {other:?}"),
    }
}

#[test]
fn scope_defaults_to_issue_or_task() {
    let p = place_note(&input(5, None, None)).unwrap();
    assert_eq!(p.scope, NoteScope::Issue);
    assert_eq!(p.issue_id, Some(5));
    assert_eq!(p.scope_target_id, Some(5));
    assert_eq!(p.author, "agent");
    let t = place_note(&input(5, Some(8), None)).unwrap();
    assert_eq!(t.scope, NoteScope::Task);
    assert_eq!(t.scope_target_id, Some(8));
    assert_eq!(default_note_scope(), NoteScope::Issue);
}

#[test]
fn broadcast_scopes_store_no_issue() {
    let mut i = input(0, None, Some(NoteScope::Epic));
    i.scope_target_id = Some(4);
    let p = place_note(&i).unwrap();
    assert_eq!(p.issue_id, None);
    assert_eq!(p.scope_target_id, Some(4));
    let mut j = input(0, None, Some(NoteScope::Project));
    j.project_key = Some("engram".into());
    j.author = Some("user".into());
    let q = place_note(&j).unwrap();
    assert_eq!(q.project_key.as_deref(), Some("engram"));
    assert_eq!(q.scope_target_id, None);
    assert_eq!(q.author, "user");
}

#[test]
fn missing_fields_are_refused() {
    assert_eq!(refusal(place_note(&input(0, None, None))), ISSUE_SCOPE_MESSAGE);
    assert_eq!(refusal(place_note(&input(3, None, Some(NoteScope::Task)))), TASK_SCOPE_MESSAGE);
    assert_eq!(refusal(place_note(&input(0, None, Some(NoteScope::Project)))), PROJECT_SCOPE_MESSAGE);
    assert_eq!(refusal(place_note(&input(0, None, Some(NoteScope::Epic)))), EPIC_SCOPE_MESSAGE);
    assert!(ISSUE_SCOPE_MESSAGE.contains("\"scope\":\"issue\""));
}

#[test]
fn a_batch_is_all_or_nothing() {
    let ok = vec![input(1, None, None), input(2, Some(3), None)];
    let placed = place_notes(&ok).unwrap();
    assert_eq!(placed.len(), 2);
    assert_eq!(placed[1].scope, NoteScope::Task);
    let bad = vec![input(1, None, None), input(0, None, None), input(0, None, Some(NoteScope::Project))];
    assert_eq!(refusal(place_notes(&bad).map(|mut v| v.remove(0))), ISSUE_SCOPE_MESSAGE);
}
