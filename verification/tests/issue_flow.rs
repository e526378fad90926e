use engram::enums::{IssuePriority, IssueStatus};
use engram::issue_flow::{plan_issue_cancel, plan_issue_claim, plan_issue_finish, plan_issue_release, plan_issue_update, IssueFacts};
use engram::models::UpdateIssueInput;
use engram::Error;

fn facts(status: IssueStatus, holder: Option<&str>) -> IssueFacts {
    IssueFacts { status, assigned_agent: holder.map(String::from) }
}

fn update(status: Option<IssueStatus>) -> UpdateIssueInput {
    UpdateIssueInput { title: None, description: None, goal: None, status, priority: None, epic_id: None }
}

fn conflict<T>(r: Result<T, Error>) -> String {
    match r {
        Err(Error::Conflict(m)) => m,
        Err(e) => panic!("unexpected error {e:?}"),
        Ok(_) => panic!("expected a conflict"),
    }
}

#[test]
fn claim_takes_a_ready_issue_once() {
    let mv = plan_issue_claim(5, &facts(IssueStatus::Ready, None), "a", &vec![]).unwrap();
    assert_eq!(mv.next.status, IssueStatus::Working);
    assert_eq!(mv.next.assigned_agent.as_deref(), Some("a"));
    assert_eq!(mv.history.len(), 1);
    assert_eq!(mv.history[0].old_value.as_deref(), Some("ready"));
    let again = plan_issue_claim(5, &mv.next, "a", &vec![]).unwrap();
    assert!(again.history.is_empty());
    assert_eq!(
        conflict(plan_issue_claim(5, &mv.next, "b", &vec![])),
        "issue:5 is already held by another agent (current: status=Working, assigned_agent=Some(\"a\"))"
    );
    assert_eq!(
        conflict(plan_issue_claim(5, &facts(IssueStatus::Ready, None), "a", &vec![2, 3])),
        "이슈 #5은(는) 블로킹 이슈 [#2, #3]이(가) demo 또는 finished 상태가 될 때까지 작업이 불가합니다."
    );
}

#[test]
fn release_respects_the_hold() {
    let held = facts(IssueStatus::Working, Some("a"));
    assert_eq!(
        conflict(plan_issue_release(7, &held, IssueStatus::Demo, "b", false)),
        "issue:7 is held by 'a', cannot be released by 'b' (use force=true to override)"
    );
    let mv = plan_issue_release(7, &held, IssueStatus::Demo, "b", true).unwrap();
    assert_eq!(mv.next.status, IssueStatus::Demo);
    assert_eq!(mv.next.assigned_agent, None);
    let again = plan_issue_claim(7, &facts(IssueStatus::Ready, None), "b", &vec![]);
    assert!(again.is_ok());
}

#[test]
fn only_the_user_closes_issues() {
    match plan_issue_update(1, &update(Some(IssueStatus::Finished)), "agent", IssueStatus::Demo, &vec![]) {
        Err(Error::Validation(m)) => assert!(m.contains("현재 호출자: agent")),
        _ => panic!("expected a refusal"),
    }
    match plan_issue_finish(1, &facts(IssueStatus::Working, None), "user") {
        Err(Error::Conflict(m)) => assert_eq!(m, "demo 상태의 이슈만 finished 로 전이할 수 있습니다 (현재 상태: Working)"),
        _ => panic!("expected a conflict"),
    }
    let fin = plan_issue_finish(1, &facts(IssueStatus::Demo, None), "user").unwrap();
    assert_eq!(fin.next.status, IssueStatus::Finished);
    match plan_issue_cancel(1, &fin.next, "why", "user") {
        Err(Error::Conflict(m)) => assert_eq!(m, "이미 finished 로 종결된 이슈는 cancelled 로 전이할 수 없습니다"),
        _ => panic!("expected a conflict"),
    }
    let c = plan_issue_cancel(2, &facts(IssueStatus::Ready, None), "dup", "user").unwrap();
    assert_eq!(c.history[1].field, "cancel_reason");
    assert_eq!(c.history[1].new_value.as_deref(), Some("dup"));
}

#[test]
fn update_rows_and_blockers() {
    let mut input = update(Some(IssueStatus::Ready));
    input.priority = Some(IssuePriority::High);
    input.title = Some("T".into());
    let plan = plan_issue_update(3, &input, "a", IssueStatus::Working, &vec![9]).unwrap();
    assert!(plan.clear_assignment);
    let fields: Vec<&str> = plan.history.iter().map(|h| h.field.as_str()).collect();
    assert_eq!(fields, vec!["status", "priority", "title"]);
    assert_eq!(plan.history[0].old_value.as_deref(), Some("working"));
    assert!(plan_issue_update(3, &update(Some(IssueStatus::Working)), "a", IssueStatus::Ready, &vec![9]).is_err());
    assert!(IssueStatus::Ready.can_transition_to(&IssueStatus::Finished));
    assert_eq!(IssuePriority::Critical.order_value(), 0);
    assert_eq!(IssuePriority::Low.order_value(), 3);
}
