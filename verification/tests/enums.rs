use engram::enums::{IssuePriority, IssueStatus, SprintStatus};

#[test]
fn test_sprint_status_all_match() {
    for s in SprintStatus::ALL {
        let name: String = serde_json::from_str(&format!("\"{}\"", s))
            .expect(&format!("failed to deserialize status: {}", s));
        let status = SprintStatus::parse(&name)
            .expect(&format!("failed to deserialize status: {}", s));
        let serialized = serde_json::to_string(status.as_str()).unwrap();
        assert_eq!(serialized, format!("\"{}\"", s));
    }
}

#[test]
fn issue_status_names_round_trip() {
    for st in [IssueStatus::Required, IssueStatus::Ready, IssueStatus::Working,
               IssueStatus::Demo, IssueStatus::Finished, IssueStatus::Cancelled] {
        assert_eq!(IssueStatus::parse(st.as_str()), Some(st));
    }
    assert_eq!(IssueStatus::parse("Working"), None);
}

#[test]
fn priority_names() {
    assert_eq!(IssuePriority::Critical.as_str(), "critical");
    assert_eq!(IssuePriority::parse("low"), Some(IssuePriority::Low));
}
