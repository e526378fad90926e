use engram::enums::{EntityType, EpicStatus, MissionStatus, SprintStatus, TaskStatus};
use engram::models::{UpdateEpicInput, UpdateMissionInput, UpdateSprintInput, UpdateTaskInput};
use engram::records::{
    contains_text, epic_delete_history, epic_sprint_history, epic_update_history, jira_key_write_error,
    mission_delete_check, mission_update_history, not_found, note_resolve_history, plan_sprint_update,
    task_test_check_history, task_update_history,
};
use engram::Error;

#[test]
fn epic_update_logs_changed_fields_in_order() {
    let input = UpdateEpicInput {
        title: Some("New".into()),
        description: None,
        status: Some(EpicStatus::Completed),
        mission_id: Some(4),
        sprint_id: None,
        update_sprint_id: true,
    };
    let rows = epic_update_history(9, &input, "agent-a", Some(2));
    let fields: Vec<&str> = rows.iter().map(|h| h.field.as_str()).collect();
    assert_eq!(fields, vec!["title", "status", "mission_id", "sprint_id"]);
    assert_eq!(rows[1].new_value.as_deref(), Some("completed"));
    assert_eq!(rows[2].new_value.as_deref(), Some("4"));
    assert_eq!(rows[3].old_value.as_deref(), Some("2"));
    assert_eq!(rows[3].new_value.as_deref(), Some("null"));
    assert!(rows.iter().all(|h| h.entity_type == EntityType::Epic && h.entity_id == 9 && h.changed_by == "agent-a"));
}

#[test]
fn moving_an_epic_to_its_own_sprint_logs_nothing() {
    assert!(epic_sprint_history(1, Some(3), Some(3), "u").is_empty());
    let rows = epic_sprint_history(1, None, Some(3), "u");
    assert_eq!(rows.len(), 1);
    assert_eq!(rows[0].old_value.as_deref(), Some("null"));
    assert_eq!(rows[0].new_value.as_deref(), Some("3"));
}

#[test]
fn epic_delete_keeps_the_title() {
    let h = epic_delete_history(5, "Old epic", "user");
    assert_eq!(h.field, "deleted");
    assert_eq!(h.old_value.as_deref(), Some("Old epic"));
    assert_eq!(h.new_value, None);
}

#[test]
fn mission_update_logs_new_values() {
    let input = UpdateMissionInput {
        title: None,
        description: Some("d".into()),
        jira_key: Some("K-1".into()),
        status: Some(MissionStatus::Cancelled),
        sprint_id: None,
    };
    let rows = mission_update_history(3, &input, "x");
    let fields: Vec<&str> = rows.iter().map(|h| h.field.as_str()).collect();
    assert_eq!(fields, vec!["description", "jira_key", "status"]);
    assert_eq!(rows[2].new_value.as_deref(), Some("cancelled"));
    assert!(rows.iter().all(|h| h.old_value.is_none() && h.entity_type == EntityType::Mission));
}

#[test]
fn duplicate_jira_key_is_a_validation_error() {
    match jira_key_write_error("PROJ-1", "error returned from database: UNIQUE constraint failed: missions.jira_key") {
        Error::Validation(m) => assert_eq!(m, "jira_key 'PROJ-1' already exists"),
        other => panic!("unexpected {other:?}"),
    }
    match jira_key_write_error("PROJ-1", "disk I/O error") {
        Error::Db(m) => assert_eq!(m, "disk I/O error"),
        other => panic!("unexpected {other:?}"),
    }
    assert!(contains_text("abc", "bc"));
    assert!(!contains_text("abc", "cd"));
    assert!(contains_text("abc", ""));
}

#[test]
fn mission_with_epics_cannot_be_deleted() {
    assert!(mission_delete_check(4, 0).is_ok());
    match mission_delete_check(4, 2) {
        Err(Error::Validation(m)) => assert_eq!(m, "mission:4 has 2 child epics, cannot delete"),
        other => panic!("unexpected {other:?}"),
    }
}

#[test]
fn not_found_names_kind_and_id() {
    match not_found("epic", 99) {
        Error::NotFound(m) => assert_eq!(m, "epic:99"),
        other => panic!("unexpected {other:?}"),
    }
}

#[test]
fn activating_a_sprint_demotes_the_others() {
    let table = vec![(1, SprintStatus::Active), (2, SprintStatus::Planning), (3, SprintStatus::Active), (4, SprintStatus::Active)];
    let input = UpdateSprintInput { name: Some("S4".into()), goal: None, status: Some(SprintStatus::Active), start_date: None, end_date: None };
    let plan = plan_sprint_update(4, &input, &table, "user");
    assert_eq!(plan.demoted, vec![1, 3]);
    let rows: Vec<(i64, &str, Option<&str>, Option<&str>)> = plan
        .history
        .iter()
        .map(|h| (h.entity_id, h.field.as_str(), h.old_value.as_deref(), h.new_value.as_deref()))
        .collect();
    assert_eq!(rows, vec![
        (1, "status", Some("active"), Some("planning")),
        (3, "status", Some("active"), Some("planning")),
        (4, "status", None, Some("active")),
        (4, "name", None, Some("S4")),
    ]);
    let after: Vec<(i64, SprintStatus)> = table
        .iter()
        .map(|(id, st)| if *id == 4 { (*id, SprintStatus::Active) } else if plan.demoted.contains(id) { (*id, SprintStatus::Planning) } else { (*id, *st) })
        .collect();
    assert_eq!(after.iter().filter(|(_, s)| *s == SprintStatus::Active).count(), 1);
}

#[test]
fn other_sprint_updates_demote_nobody() {
    let table = vec![(1, SprintStatus::Active)];
    let input = UpdateSprintInput { name: None, goal: None, status: Some(SprintStatus::Completed), start_date: None, end_date: None };
    let plan = plan_sprint_update(1, &input, &table, "user");
    assert!(plan.demoted.is_empty());
    assert_eq!(plan.history.len(), 1);
    assert_eq!(plan.history[0].new_value.as_deref(), Some("completed"));
}

#[test]
fn task_rows_and_flags() {
    let rows = task_update_history(2, &UpdateTaskInput { title: Some("T".into()), description: Some("d".into()), goal: None, status: Some(TaskStatus::Finished) }, "user");
    let fields: Vec<&str> = rows.iter().map(|h| h.field.as_str()).collect();
    assert_eq!(fields, vec!["status", "title"]);
    assert_eq!(rows[0].new_value.as_deref(), Some("finished"));
    let r = note_resolve_history(8, "a");
    assert_eq!((r.old_value.as_deref(), r.new_value.as_deref()), (Some("false"), Some("true")));
    assert_eq!(r.entity_type, EntityType::Note);
    let c = task_test_check_history(3, false, "a");
    assert_eq!(c.field, "task_test.checked");
    assert_eq!((c.old_value.as_deref(), c.new_value.as_deref()), (Some("true"), Some("false")));
}
