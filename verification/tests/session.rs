use engram::enums::{IssuePriority, IssueStatus, TaskStatus};
use engram::models::Issue;
use engram::session::{
    board_from_rows, compact_snapshots, current_task_index, group_by_epic, restore_epics, size_guard, size_warning_text, project_board, session_end_result, session_warnings,
    tally_epic, BoardCounts, ScopeCheck, TaskBrief,
};

fn issue(id: i64, epic_id: i64, status: IssueStatus) -> Issue {
    Issue {
        id,
        epic_id,
        mission_id: None,
        sprint_id: Some(1),
        title: format!("issue {id}"),
        description: None,
        goal: None,
        status,
        priority: IssuePriority::Medium,
        assigned_agent: None,
        created_at: format!("2024-01-0{id}"),
        updated_at: "2024-02-01".to_string(),
    }
}

#[test]
fn groups_follow_first_appearance_of_each_epic() {
    let issues = vec![
        issue(1, 10, IssueStatus::Ready),
        issue(2, 20, IssueStatus::Working),
        issue(3, 10, IssueStatus::Finished),
        issue(4, 30, IssueStatus::Required),
        issue(5, 20, IssueStatus::Demo),
    ];
    let groups = group_by_epic(issues);
    let keys: Vec<i64> = groups.iter().map(|g| g.0).collect();
    assert_eq!(keys, vec![10, 20, 30]);
    let ids: Vec<Vec<i64>> = groups.iter().map(|g| g.1.iter().map(|i| i.id).collect()).collect();
    assert_eq!(ids, vec![vec![1, 3], vec![2, 5], vec![4]]);
    let total: usize = groups.iter().map(|g| g.1.len()).sum();
    assert_eq!(total, 5);
}

#[test]
fn empty_sprint_has_no_groups() {
    assert!(group_by_epic(Vec::new()).is_empty());
}

#[test]
fn tally_counts_each_status_once() {
    let issues = vec![
        issue(1, 7, IssueStatus::Finished),
        issue(2, 7, IssueStatus::Working),
        issue(3, 7, IssueStatus::Demo),
        issue(4, 7, IssueStatus::Ready),
        issue(5, 7, IssueStatus::Required),
        issue(6, 7, IssueStatus::Cancelled),
    ];
    let t = tally_epic(7, issues);
    assert_eq!(t.progress.done, 1);
    assert_eq!(t.progress.in_progress, 2);
    assert_eq!(t.progress.todo, 1);
    assert_eq!(t.progress.total, 6);
    assert_eq!(t.drafts.len(), 1);
    assert_eq!(t.drafts[0].id, 5);
    assert_eq!(t.drafts[0].epic_id, 7);
    assert_eq!(t.drafts[0].title, "issue 5");
    assert_eq!(t.drafts[0].created_at, "2024-01-05");
    let active: Vec<i64> = t.active.iter().map(|i| i.id).collect();
    assert_eq!(active, vec![2, 3, 4]);
    let cancelled = 1;
    assert_eq!(
        t.progress.done + t.progress.in_progress + t.progress.todo + t.drafts.len() as u32 + cancelled,
        t.progress.total
    );
}

#[test]
fn compact_snapshot_uses_counts_and_blockers() {
    let active = vec![issue(1, 7, IssueStatus::Ready), issue(2, 7, IssueStatus::Working)];
    let tasks = vec![(1, 3), (2, 5)];
    let notes = vec![(2, 1)];
    let links = vec![(2, 9), (1, 8), (2, 11)];
    let snaps = compact_snapshots(active, &tasks, &notes, &links);
    assert_eq!(snaps.len(), 2);
    assert_eq!(snaps[0].issue.id, 1);
    assert_eq!(snaps[0].task_count, 3);
    assert_eq!(snaps[0].note_count, 0);
    assert_eq!(snaps[0].blocked_by_ids, vec![8]);
    assert_eq!(snaps[1].task_count, 5);
    assert_eq!(snaps[1].note_count, 1);
    assert_eq!(snaps[1].blocked_by_ids, vec![9, 11]);
}

#[test]
fn warnings_name_drafts_and_expanded_scope() {
    let checks = vec![
        ScopeCheck { issue_id: 3, issue_title: "Login".into(), discovered: 3, total: 4 },
        ScopeCheck { issue_id: 4, issue_title: "Half".into(), discovered: 1, total: 2 },
        ScopeCheck { issue_id: 5, issue_title: "None".into(), discovered: 0, total: 0 },
    ];
    let (warnings, ids) = session_warnings(2, &checks);
    assert_eq!(warnings.len(), 2);
    assert_eq!(warnings[0], "미승인 draft 이슈 2건이 있습니다. 승인 또는 취소가 필요합니다.");
    assert_eq!(warnings[1], "스코프 팽창 감지: 이슈 #3 'Login' 태스크의 75%가 agent_discovered (3/4건)");
    assert_eq!(ids, vec![3]);
}

#[test]
fn no_drafts_no_draft_warning() {
    let (warnings, ids) = session_warnings(0, &Vec::new());
    assert!(warnings.is_empty());
    assert!(ids.is_empty());
}

#[test]
fn session_end_warns_for_missing_context() {
    let tasks = vec![
        TaskBrief { id: 1, title: "t1".into(), issue_id: 10, issue_title: "Alpha".into() },
        TaskBrief { id: 2, title: "t2".into(), issue_id: 11, issue_title: "Beta".into() },
    ];
    let r = session_end_result(tasks, &vec![true, false]);
    assert!(!r.ok);
    assert_eq!(r.in_progress_tasks.len(), 2);
    assert_eq!(r.warnings, vec!["이슈 'Beta': context note가 없습니다. 다음 세션 인수인계를 위해 기록을 남겨주세요.".to_string()]);
    let clean = session_end_result(
        vec![TaskBrief { id: 1, title: "t1".into(), issue_id: 10, issue_title: "Alpha".into() }],
        &vec![true],
    );
    assert!(clean.ok);
    assert!(clean.warnings.is_empty());
}

#[test]
fn board_groups_by_project_and_status() {
    let rows = vec![
        ("b".to_string(), issue(1, 1, IssueStatus::Ready)),
        ("a".to_string(), issue(2, 2, IssueStatus::Working)),
        ("b".to_string(), issue(3, 1, IssueStatus::Ready)),
        ("b".to_string(), issue(4, 1, IssueStatus::Cancelled)),
    ];
    let boards = board_from_rows(rows);
    assert_eq!(boards.len(), 2);
    assert_eq!(boards[0].project_key, "b");
    assert_eq!(boards[0].ready.iter().map(|i| i.id).collect::<Vec<_>>(), vec![1, 3]);
    assert_eq!(boards[0].cancelled.len(), 1);
    assert!(boards[0].working.is_empty());
    assert_eq!(boards[1].project_key, "a");
    assert_eq!(boards[1].working.len(), 1);
}

#[test]
fn project_board_takes_counts_as_u32() {
    let b = project_board(BoardCounts {
        project_key: "p".into(),
        required: 1,
        ready: 2,
        working: 3,
        demo: 4,
        finished: 5,
        cancelled: 6,
        total: 21,
    });
    assert_eq!((b.required, b.ready, b.working, b.demo, b.finished, b.cancelled, b.total), (1, 2, 3, 4, 5, 6, 21));
    assert_eq!(b.project_key, "p");
}

#[test]
fn current_task_is_the_first_ready_one() {
    assert_eq!(current_task_index(&vec![]), None);
    assert_eq!(current_task_index(&vec![TaskStatus::Finished, TaskStatus::Working]), None);
    assert_eq!(
        current_task_index(&vec![TaskStatus::Finished, TaskStatus::Ready, TaskStatus::Ready]),
        Some(1)
    );
}

#[test]
fn restore_keeps_finished_issues_out_of_the_active_list() {
    let issues = vec![
        issue(2, 10, IssueStatus::Finished),
        issue(1, 10, IssueStatus::Ready),
        issue(3, 20, IssueStatus::Required),
    ];
    let (epics, drafts) = restore_epics(issues);
    assert_eq!(epics.len(), 2);
    assert_eq!(epics[0].epic_id, 10);
    assert_eq!(epics[0].progress.done, 1);
    assert_eq!(epics[0].progress.total, 2);
    let active: Vec<i64> = epics[0].active.iter().map(|i| i.id).collect();
    assert_eq!(active, vec![1]);
    assert_eq!(epics[1].epic_id, 20);
    assert!(epics[1].active.is_empty());
    assert_eq!(drafts.len(), 1);
    assert_eq!((drafts[0].id, drafts[0].epic_id), (3, 20));
}

#[test]
fn size_guard_keeps_the_epics_that_fit() {
    let g = size_guard(100, &vec![50, 50, 50], &vec![2, 3, 4], 1000);
    assert_eq!((g.kept, g.truncated, g.truncated_count), (3, false, None));
    // 100 + 50 = 150 fits; + 1 + 50 = 201 does not.
    let g = size_guard(100, &vec![50, 50, 50], &vec![2, 3, 4], 200);
    assert_eq!((g.kept, g.truncated, g.truncated_count), (1, true, Some(4 + 5)));
    let g = size_guard(400, &vec![10], &vec![30], 300);
    assert_eq!((g.kept, g.truncated, g.truncated_count), (0, true, Some(31)));
    assert_eq!(size_warning_text(300, 31), "세션 스냅샷이 크기 제한(300자)을 넘어 31개 항목을 생략했습니다.");
}

#[test]
fn board_shows_each_issue_once() {
    let rows = vec![
        ("a".to_string(), issue(1, 10, IssueStatus::Ready)),
        ("b".to_string(), issue(2, 20, IssueStatus::Working)),
        ("a".to_string(), issue(3, 10, IssueStatus::Finished)),
    ];
    let boards = board_from_rows(rows);
    for id in [1, 2, 3] {
        let n: usize = boards
            .iter()
            .map(|b| {
                [&b.required, &b.ready, &b.working, &b.demo, &b.finished, &b.cancelled]
                    .iter()
                    .map(|col| col.iter().filter(|i| i.id == id).count())
                    .sum::<usize>()
            })
            .sum();
        assert_eq!(n, 1);
    }
}
