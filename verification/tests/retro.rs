use engram::enums::{EntityType, IssueStatus, NoteType};
use engram::models::{History, Retrospective, UpdateRetrospectiveInput};
use engram::retro::{
    action_item_issue, action_item_note, merge_action_item, merge_retrospective, retro_list_limit, retro_mission_description,
    retro_mission_title, retro_not_found, retro_report, retro_sprint_label, ActionItemFields, RetroIssueFacts,
};
use engram::Error;

fn history(field: &str) -> History {
    History {
        id: 1,
        entity_type: EntityType::Issue,
        entity_id: 1,
        field: field.into(),
        old_value: Some("ready".into()),
        new_value: Some("working".into()),
        changed_by: "a".into(),
        created_at: "t1".into(),
    }
}

#[test]
fn report_totals_timelines_and_expansions() {
    let facts = vec![
        RetroIssueFacts { issue_id: 1, title: "A".into(), status: IssueStatus::Finished, history: vec![history("status")], planned: 1, discovered: 3 },
        RetroIssueFacts { issue_id: 2, title: "B".into(), status: IssueStatus::Ready, history: vec![], planned: 2, discovered: 0 },
        RetroIssueFacts { issue_id: 3, title: "C".into(), status: IssueStatus::Working, history: vec![], planned: 0, discovered: 0 },
    ];
    let r = retro_report(9, "Sprint 9".into(), facts);
    assert_eq!(r.total_issues, 3);
    assert_eq!(r.finished_issues, 1);
    assert_eq!(r.issue_timelines.len(), 1);
    assert_eq!(r.issue_timelines[0].issue_id, 1);
    assert_eq!(r.issue_timelines[0].transitions[0].field, "status");
    assert_eq!(r.issue_timelines[0].transitions[0].changed_at, "t1");
    assert_eq!(r.scope_expansions.len(), 1);
    let e = &r.scope_expansions[0];
    assert_eq!((e.issue_id, e.planned, e.discovered, e.expansion_rate), (1, 1, 3, 75));
    assert!(r.scope_expansions.iter().all(|e| e.expansion_rate >= 1 && e.expansion_rate <= 100));
}

#[test]
fn listing_limit_is_capped() {
    assert_eq!(retro_list_limit(50), 50);
    assert_eq!(retro_list_limit(500), 100);
}

#[test]
fn updates_keep_absent_fields() {
    let current = Retrospective {
        id: 1,
        project_key: "p".into(),
        title: "Old".into(),
        content: "body".into(),
        sprint_id: Some(2),
        mission_id: None,
        epic_id: None,
        agent_id: None,
        created_at: "c".into(),
        updated_at: "u".into(),
    };
    let m = merge_retrospective(current, UpdateRetrospectiveInput { title: Some("New".into()), content: None, sprint_id: None, mission_id: Some(5), epic_id: None });
    assert_eq!(m.title, "New");
    assert_eq!(m.content, "body");
    assert_eq!(m.sprint_id, Some(2));
    assert_eq!(m.mission_id, Some(5));
    let cur = ActionItemFields { title: "t".into(), description: Some("d".into()), status: "open".into(), linked_issue_id: None, linked_note_id: Some(4) };
    let upd = ActionItemFields { title: String::new(), description: None, status: "done".into(), linked_issue_id: Some(8), linked_note_id: None };
    let a = merge_action_item(cur, upd, false, true);
    assert_eq!((a.title.as_str(), a.description.as_deref(), a.status.as_str(), a.linked_issue_id, a.linked_note_id), ("t", Some("d"), "done", Some(8), Some(4)));
}

#[test]
fn action_items_become_issues_with_a_context_note() {
    assert_eq!(retro_mission_title("Sprint 1"), "retro-Sprint 1");
    assert_eq!(retro_mission_description("Sprint 1"), "Sprint 1 회고 액션 아이템 전용 미션");
    assert_eq!(retro_sprint_label("Retro", None), "Retro");
    assert_eq!(retro_sprint_label("Retro", Some(None)), "sprint");
    assert_eq!(retro_sprint_label("Retro", Some(Some("S1".into()))), "S1");
    let i = action_item_issue(6, 12, "Fix it".into(), None);
    assert_eq!(i.epic_id, 6);
    assert_eq!(i.goal.as_deref(), Some("회고 Retrospective #12 액션아이템에서 자동 변환됨"));
    let n = action_item_note(30, 12, "engram".into(), "Fix it", Some("agent-1".into()));
    assert_eq!(n.note_type, NoteType::Context);
    assert_eq!(n.summary, "회고 #12 Action Item에서 자동 생성됨");
    assert_eq!(n.detail.as_deref(), Some("원문 액션 제목: Fix it"));
    assert_eq!(n.author.as_deref(), Some("agent-1"));
    assert_eq!(n.project_key.as_deref(), Some("engram"));
    match retro_not_found("Retrospective", 3) {
        Error::NotFound(m) => assert_eq!(m, "Retrospective #3 not found"),
        other => panic!("unexpected {other:?}"),
    }
}
