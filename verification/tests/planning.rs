use engram::enums::{EpicStatus, IssuePriority, IssueStatus, MissionStatus};
use engram::models::{Epic, Issue, Mission};
use engram::planning::{copy_issue, mission_tree, planning_item, planning_keeps, planning_queue_sql};

fn issue(id: i64, epic_id: i64) -> Issue {
    Issue {
        id,
        epic_id,
        mission_id: Some(1),
        sprint_id: None,
        title: format!("i{id}"),
        description: Some("d".repeat(120)),
        goal: None,
        status: IssueStatus::Ready,
        priority: IssuePriority::High,
        assigned_agent: None,
        created_at: "c".into(),
        updated_at: "u".into(),
    }
}

fn epic(id: i64) -> Epic {
    Epic {
        id,
        project_key: "p".into(),
        mission_id: Some(1),
        sprint_id: None,
        title: format!("e{id}"),
        description: None,
        status: EpicStatus::Active,
        created_at: "c".into(),
        updated_at: "u".into(),
        ready_to_complete: None,
    }
}

#[test]
fn tree_puts_each_issue_under_its_epic() {
    let mission = Mission { id: 1, jira_key: None, title: "M".into(), description: None, status: MissionStatus::Active, sprint_id: None, created_at: "c".into(), updated_at: "u".into() };
    let issues = vec![issue(1, 10), issue(2, 20), issue(3, 10)];
    let tree = mission_tree(mission, vec![epic(10), epic(20), epic(30)], &issues, None);
    let shape: Vec<(i64, Vec<i64>)> = tree.epics.iter().map(|e| (e.epic.id, e.issues.iter().map(|i| i.id).collect())).collect();
    assert_eq!(shape, vec![(10, vec![1, 3]), (20, vec![2]), (30, vec![])]);
    assert_eq!(copy_issue(&issues[0]).title, "i1");
}

#[test]
fn planning_queue_entries() {
    assert!(planning_keeps(&None, IssueStatus::Ready));
    assert!(planning_keeps(&Some(vec![IssueStatus::Ready]), IssueStatus::Ready));
    assert!(!planning_keeps(&Some(vec![IssueStatus::Working]), IssueStatus::Ready));
    let item = planning_item(issue(4, 10), vec![2, 3], 1);
    assert_eq!(item.description_excerpt.as_deref(), Some(format!("{}...", "d".repeat(100)).as_str()));
    assert_eq!(item.blockers, vec![2, 3]);
    assert_eq!(item.existing_context_note_count, 1);
    assert!(planning_queue_sql(true).contains(" AND e.sprint_id = ?"));
    assert!(planning_queue_sql(false).contains(" AND e.sprint_id IS NULL"));
}
