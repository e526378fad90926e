use engram::enums::{EpicStatus, IssuePriority, IssueStatus, NoteScope, NoteType, TaskSource, TaskStatus};
use engram::models::{Epic, Issue, NextTask, Note, StalledIssue};
use engram::render::{
    board_text, compact_epics, compact_field, stalled_text, description_excerpt, epic_list_text, format_agent_epic_text, format_agent_note_text,
    next_task_reason, next_task_text, note_batch_text, note_list_text, task_list_text, TaskLine, EMPTY_NOTE_BATCH_TEXT,
};

fn epic(id: i64, description: Option<String>) -> Epic {
    Epic {
        id,
        project_key: "engram".into(),
        mission_id: Some(2),
        sprint_id: None,
        title: format!("Epic {id}"),
        description,
        status: EpicStatus::Active,
        created_at: "c".into(),
        updated_at: "u".into(),
        ready_to_complete: None,
    }
}

fn note(id: i64, resolved: bool) -> Note {
    Note {
        id,
        issue_id: Some(3),
        task_id: None,
        note_type: NoteType::Caveat,
        summary: format!("sum {id}"),
        detail: Some("more".into()),
        author: "agent".into(),
        agent_id: None,
        resolved,
        scope: NoteScope::Issue,
        scope_target_id: Some(3),
        project_key: None,
        created_at: "c".into(),
        resolved_at: None,
        updated_at: "u".into(),
    }
}

#[test]
fn epic_agent_text() {
    let t = format_agent_epic_text(&epic(4, None));
    assert_eq!(
        t,
        "=== EPIC SPECIFICATION ===\nID: #4\nProject Key: engram\nMission ID: 2\nSprint ID: None\nTitle: Epic 4\nStatus: active\nCreated At: c\nUpdated At: u\n\n[Description]\nNone\n=========================="
    );
}

#[test]
fn epic_list_text_lines() {
    assert_eq!(epic_list_text(&vec![]), "=== EPIC LIST ===\n- None\n==================");
    assert_eq!(
        epic_list_text(&vec![epic(1, None), epic(2, None)]),
        "=== EPIC LIST ===\n- #1 (active): Epic 1\n- #2 (active): Epic 2\n=================="
    );
}

#[test]
fn compact_cuts_long_descriptions() {
    let long = "x".repeat(250);
    let out = compact_epics(vec![epic(1, Some(long)), epic(2, Some("short".into()))]);
    assert_eq!(out[0].description.as_ref().unwrap().chars().count(), 203);
    assert!(out[0].description.as_ref().unwrap().ends_with("..."));
    assert_eq!(out[1].description.as_deref(), Some("short"));
    assert_eq!(compact_field(Some("가".repeat(201))).unwrap().chars().count(), 203);
    assert_eq!(compact_field(Some("가".repeat(200))).unwrap().chars().count(), 200);
    assert_eq!(description_excerpt(&"y".repeat(101)), format!("{}...", "y".repeat(100)));
    assert_eq!(description_excerpt("short"), "short");
}

#[test]
fn task_and_next_task_texts() {
    let t = task_list_text(&vec![TaskLine { id: 7, status: TaskStatus::Ready, source: TaskSource::AgentDiscovered, title: "Do".into() }]);
    assert_eq!(t, "=== TASK LIST ===\n- #7 (ready, source:agent_discovered): Do\n==================");
    assert_eq!(next_task_reason(1, 0), "priority_ord:1 + status_ord:0");
    assert_eq!(next_task_text(&None), "=== NEXT TASK ===\nNo ready tasks available.\n=================");
    let n = NextTask {
        task_id: 1,
        task_title: "T".into(),
        issue_id: 2,
        issue_title: "I".into(),
        epic_id: 3,
        epic_title: "E".into(),
        project_key: "p".into(),
        reason: "r".into(),
    };
    assert_eq!(
        next_task_text(&Some(n)),
        "=== NEXT TASK ===\nTask ID: #1\nTask Title: T\nIssue ID: #2\nIssue Title: I\nEpic ID: #3\nEpic Title: E\nProject Key: p\nReason: r\n================="
    );
}

#[test]
fn note_texts() {
    let notes = vec![note(1, false), note(2, true)];
    assert_eq!(
        note_list_text(&notes, 5, true, true),
        "=== NOTE REF LIST ===\n#1 [caveat] sum 1\n#2 [caveat] sum 2\nTotal: 5 | Has More: true\n===================="
    );
    assert_eq!(
        note_list_text(&notes, 2, false, false),
        "=== NOTE LIST ===\n- #1 (caveat): sum 1\n- #2 ([Resolved] caveat): sum 2\nTotal: 2 | Has More: false\n================="
    );
    assert_eq!(note_list_text(&vec![], 0, false, false), "=== NOTE LIST ===\n- None\nTotal: 0 | Has More: false\n=================");
    let one = format_agent_note_text(&note(1, false));
    assert_eq!(one, "note #1\nissue: 3\ntype: caveat\nresolved: false\ncreated: c\nupdated: u\nsummary: sum 1\ndetail: more\n");
    assert_eq!(note_batch_text(&vec![note(1, false)]), format!("=== NOTE BATCH ===\n{one}\n\n===================="));
    assert_eq!(EMPTY_NOTE_BATCH_TEXT, "=== NOTE BATCH ===\nNo notes specified.\n====================");
}

fn board_issue(id: i64, status: IssueStatus, title: &str) -> Issue {
    Issue {
        id,
        epic_id: 1,
        mission_id: None,
        sprint_id: Some(1),
        title: title.into(),
        description: None,
        goal: None,
        status,
        priority: IssuePriority::High,
        assigned_agent: None,
        created_at: "c".into(),
        updated_at: "u".into(),
    }
}

#[test]
fn board_agent_text_lists_every_row() {
    assert_eq!(board_text("S1", &vec![]), "=== BOARD STATUS ===\nSprint: S1\n- None\n====================");
    let rows = vec![
        ("alpha".to_string(), board_issue(3, IssueStatus::Working, "Test Issue for Tasks")),
        ("beta".to_string(), board_issue(5, IssueStatus::Ready, "Other")),
    ];
    assert_eq!(
        board_text("S1", &rows),
        "=== BOARD STATUS ===\nSprint: S1\n- [alpha] #3 (working, high): Test Issue for Tasks\n- [beta] #5 (ready, high): Other\n===================="
    );
}

#[test]
fn stalled_agent_text_lists_every_issue() {
    assert_eq!(stalled_text(&vec![]), "=== STALLED ISSUES ===\n- None\n======================");
    let s = StalledIssue {
        id: 9,
        title: "Working Issue".into(),
        project_key: "test-project".into(),
        status: IssueStatus::Working,
        priority: IssuePriority::Medium,
        entered_status_at: "t".into(),
        minutes_in_status: 125,
    };
    assert_eq!(
        stalled_text(&vec![s]),
        "=== STALLED ISSUES ===\n- #9 [test-project] Working Issue (working, 125 min)\n======================"
    );
}
