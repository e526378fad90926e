use engram::enums::{IssueStatus, NoteType, OutputMode};
use engram::models::IssueFilter;
use engram::query::{
    active_missions_sql, active_workers_sql, apply_pagination, blocked_chains_sql, board_rows_sql, retrospective_list_sql,
    session_caveats_sql, working_tasks_sql, NOTE_COLUMNS, NOTE_COLUMNS_NO_DETAIL, RETRO_COLUMNS, board_counts_sql, epic_list_sql, issue_list_query, issue_select_columns, mission_list_sql,
    next_task_sql, note_list_mode_filter, note_list_query, page_has_more, stalled_sql, NoteListFilter, SqlArg, EPIC_COLUMNS,
    ISSUE_COLUMNS, MISSION_COLUMNS,
};

fn filter() -> IssueFilter {
    IssueFilter {
        epic_id: None,
        mission_id: None,
        sprint_id: None,
        backlog_only: false,
        project_key: None,
        status: None,
        statuses: None,
        priority: None,
        compact: None,
        limit: None,
        offset: None,
    }
}

fn marks(s: &str) -> usize {
    s.chars().filter(|c| *c == '?').count()
}

#[test]
fn pagination_defaults_and_bounds() {
    assert_eq!(apply_pagination(None, None), (50, 0));
    assert_eq!(apply_pagination(Some(0), Some(-3)), (1, 0));
    assert_eq!(apply_pagination(Some(1000), Some(7)), (200, 7));
    assert_eq!(apply_pagination(Some(3), Some(6)), (3, 6));
    assert!(page_has_more(1, 2, 5));
    assert!(!page_has_more(6, 1, 7));
    assert!(page_has_more(3, 3, 7));
}

#[test]
fn issue_listing_conditions_and_values() {
    let mut f = filter();
    f.epic_id = Some(4);
    f.sprint_id = Some(2);
    f.project_key = Some("engram".into());
    f.status = Some(IssueStatus::Ready);
    f.statuses = Some(vec![IssueStatus::Working, IssueStatus::Ready]);
    f.limit = Some(3);
    let q = issue_list_query(&f);
    assert_eq!(
        q.count_sql,
        "SELECT COUNT(DISTINCT i.id) FROM issues i JOIN epics e ON i.epic_id = e.id WHERE 1=1  AND i.epic_id = ? AND e.sprint_id = ? AND e.project_key = ? AND i.status IN (?,?)"
    );
    assert_eq!(marks(&q.count_sql), q.args.len());
    assert_eq!(marks(&q.items_sql), q.args.len() + 2);
    let args: Vec<String> = q.args.iter().map(|a| match a { SqlArg::Int(n) => n.to_string(), SqlArg::Text(t) => t.clone() }).collect();
    assert_eq!(args, vec!["4", "2", "engram", "ready", "working"]);
    assert_eq!((q.limit, q.offset), (3, 0));
    assert!(q.items_sql.starts_with(&format!("SELECT {ISSUE_COLUMNS} FROM issues i")));
    assert!(q.items_sql.ends_with(" ORDER BY i.id DESC LIMIT ? OFFSET ?"));
}

#[test]
fn backlog_wins_over_sprint() {
    let mut f = filter();
    f.backlog_only = true;
    f.sprint_id = Some(9);
    f.compact = Some(true);
    let q = issue_list_query(&f);
    assert!(q.count_sql.ends_with(" AND e.sprint_id IS NULL"));
    assert!(q.args.is_empty());
    assert!(q.items_sql.contains("COUNT(DISTINCT n.id) AS note_count"));
    assert!(q.items_sql.contains(" GROUP BY i.id, e.mission_id, e.sprint_id"));
    assert_eq!(issue_select_columns(false), ISSUE_COLUMNS);
    assert!(issue_select_columns(true).contains("SUBSTR(i.description, 1, 200)"));
}

fn note_filter() -> NoteListFilter {
    NoteListFilter {
        issue_id: None,
        task_id: None,
        note_type: None,
        note_types: None,
        include_resolved: true,
        include_detail: false,
        project_key: None,
        sprint_id: None,
        epic_id: None,
        rollup: None,
        limit: None,
        offset: None,
        compact: None,
        updated_after: None,
    }
}

#[test]
fn note_listing_with_rollup_binds_the_epic_three_times() {
    let mut f = note_filter();
    f.issue_id = Some(1);
    f.note_types = Some(vec![NoteType::Caveat, NoteType::Decision]);
    f.include_resolved = false;
    f.epic_id = Some(7);
    f.rollup = Some(true);
    let q = note_list_query(&f);
    assert_eq!(marks(&q.count_sql), q.args.len());
    assert_eq!(q.args.len(), 6);
    assert!(q.count_sql.starts_with("SELECT COUNT(*) FROM notes n"));
    assert!(q.count_sql.contains(" AND n.note_type IN (?,?)"));
    assert!(q.count_sql.contains(" AND n.resolved = 0"));
    assert!(q.items_sql.contains("NULL AS detail"));
}

#[test]
fn compact_modes_drop_the_detail() {
    let mut f = note_filter();
    f.include_detail = true;
    let g = note_list_mode_filter(f.clone(), OutputMode::Agent);
    assert!(!g.include_detail);
    assert_eq!(g.compact, Some(true));
    let q = note_list_query(&g);
    assert!(q.items_sql.contains("SUBSTR(n.detail, 1, 200)"));
    let h = note_list_mode_filter(f, OutputMode::Normal);
    assert!(h.include_detail);
    assert_eq!(h.compact, None);
}

#[test]
fn note_listing_with_every_condition_binds_every_mark() {
    let mut f = note_filter();
    f.issue_id = Some(1);
    f.task_id = Some(2);
    f.note_type = Some(NoteType::Context);
    f.note_types = Some(vec![NoteType::Caveat]);
    f.project_key = Some("engram".to_string());
    f.sprint_id = Some(3);
    f.epic_id = Some(4);
    f.updated_after = Some("2024-01-01".to_string());
    let q = note_list_query(&f);
    assert_eq!(marks(&q.count_sql), q.args.len());
    assert_eq!(q.args.len(), 8);
    let args: Vec<String> = q.args.iter().map(|a| match a { SqlArg::Int(n) => format!("i{n}"), SqlArg::Text(t) => format!("t{t}") }).collect();
    assert_eq!(args, vec!["i1", "i2", "tcontext", "tcaveat", "tengram", "i3", "i4", "t2024-01-01"]);
}

#[test]
fn store_queries_follow_their_filters() {
    let q = next_task_sql(true, true);
    assert!(q.ends_with(" AND e.project_key = ? AND i.id = ? ORDER BY priority_ord ASC, status_ord ASC, i.created_at ASC LIMIT 1"));
    assert_eq!(marks(&q), 2);
    assert_eq!(marks(&next_task_sql(false, false)), 0);
    let q = stalled_sql(true);
    assert_eq!(marks(&q), 4);
    assert!(q.contains("WHERE i.status = ? AND e.project_key = ? GROUP BY"));
    assert_eq!(marks(&stalled_sql(false)), 3);
    assert!(board_counts_sql(false).ends_with("WHERE e.sprint_id = ? GROUP BY e.project_key ORDER BY e.project_key"));
    assert!(blocked_chains_sql(true).ends_with(" AND be.project_key = ?"));
    assert_eq!(
        epic_list_sql(true, false, true, true),
        format!("SELECT {EPIC_COLUMNS} FROM epics WHERE 1=1 AND project_key = ? AND status != 'completed' AND sprint_id IS NULL ORDER BY id DESC")
    );
    assert_eq!(
        epic_list_sql(false, true, false, true),
        format!("SELECT {EPIC_COLUMNS} FROM epics WHERE 1=1 AND sprint_id = ? ORDER BY id DESC")
    );
    assert_eq!(
        mission_list_sql(false, false, true),
        format!("SELECT {MISSION_COLUMNS} FROM missions WHERE 1=1 AND status = 'active' AND sprint_id = ? ORDER BY id DESC")
    );
    assert_eq!(
        mission_list_sql(true, false, false),
        format!("SELECT {MISSION_COLUMNS} FROM missions WHERE 1=1 AND status = ? ORDER BY id DESC")
    );
}

#[test]
fn session_queries_follow_their_filters() {
    let q = session_caveats_sql(0, false, false);
    assert_eq!(
        q,
        format!("SELECT {NOTE_COLUMNS} FROM notes WHERE resolved = 0 AND ((scope = 'sprint' AND scope_target_id = ?) OR (scope = 'epic' AND scope_target_id IN (NULL))) ORDER BY created_at DESC")
    );
    let q = session_caveats_sql(3, true, false);
    assert!(q.contains("scope_target_id IN (?,?,?)) OR (scope = 'project' AND project_key = ?)) ORDER BY"));
    assert_eq!(marks(&q), 5);
    let c = session_caveats_sql(1, false, true);
    assert!(c.starts_with(&format!("SELECT {NOTE_COLUMNS_NO_DETAIL} FROM notes")));
    assert!(c.contains("NULL AS detail"));
    assert!(!session_caveats_sql(1, false, false).contains("NULL AS detail"));
    assert_eq!(marks(&active_workers_sql(true)), 2);
    assert!(active_workers_sql(false).ends_with("AND e.sprint_id = ? ORDER BY i.updated_at ASC"));
    assert_eq!(marks(&active_missions_sql(true)), 1);
    assert_eq!(marks(&active_missions_sql(false)), 0);
    assert!(working_tasks_sql(true).ends_with("WHERE t.status = 'working' AND e.project_key = ?"));
    assert!(board_rows_sql(true).starts_with(&format!("SELECT {ISSUE_COLUMNS}, e.project_key AS proj FROM issues")));
    assert_eq!(
        retrospective_list_sql(true, true),
        format!("SELECT {RETRO_COLUMNS} FROM retrospectives WHERE 1=1 AND project_key = ? AND sprint_id = ? ORDER BY id DESC LIMIT ?")
    );
}
