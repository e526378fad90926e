//! Views that gather records for planning: a mission's tree of epics and
//! issues, and the review queue of a project's sprint or backlog.
use vstd::prelude::*;
use crate::enums::{IssuePriority, IssueStatus};
use crate::models::{opt_view, Epic, EpicWithIssues, Issue, Mission, MissionTree};
use crate::query::ISSUE_COLUMNS;
use crate::session::keep;
use crate::text::{push_str, truncate_chars, truncate_with_ellipsis};

verus! {

fn copy_text(s: &Option<String>) -> (r: Option<String>)
    ensures
        r == *s,
{
    match s {
        Some(t) => Some(t.clone()),
        None => None,
    }
}

/// An exact copy of an issue.
pub fn copy_issue(i: &Issue) -> (r: Issue)
    ensures
        r == *i,
{
    Issue {
        id: i.id,
        epic_id: i.epic_id,
        mission_id: i.mission_id,
        sprint_id: i.sprint_id,
        title: i.title.clone(),
        description: copy_text(&i.description),
        goal: copy_text(&i.goal),
        status: i.status,
        priority: i.priority,
        assigned_agent: copy_text(&i.assigned_agent),
        created_at: i.created_at.clone(),
        updated_at: i.updated_at.clone(),
    }
}

/// The issues of `issues` that belong to epic `e`, in order.
pub open spec fn epic_issues(issues: Seq<Issue>, e: i64) -> Seq<Issue> {
    keep(issues, |x: Issue| x.epic_id == e)
}

fn issues_of(issues: &Vec<Issue>, e: i64) -> (r: Vec<Issue>)
    ensures
        r@ == epic_issues(issues@, e),
{
    let mut out: Vec<Issue> = Vec::new();
    let mut k: usize = 0;
    while k < issues.len()
        invariant
            k <= issues@.len(),
            out@ == epic_issues(issues@.take(k as int), e),
        decreases issues@.len() - k,
    {
        assert(issues@.take(k + 1).drop_last() =~= issues@.take(k as int));
        if issues[k].epic_id == e {
            out.push(copy_issue(&issues[k]));
        }
        k = k + 1;
    }
    assert(issues@.take(k as int) =~= issues@);
    out
}

/// A mission's tree: each of its epics, in order, with the mission's issues
/// that belong to that epic, in order.
pub fn mission_tree(mission: Mission, epics: Vec<Epic>, issues: &Vec<Issue>, sprint_name: Option<String>) -> (r: MissionTree)
    ensures
        r.mission == mission,
        r.sprint_name == sprint_name,
        r.epics@.len() == epics@.len(),
        forall|j: int| 0 <= j < epics@.len() ==> (#[trigger] r.epics@[j]).epic == epics@[j]
            && r.epics@[j].issues@ == epic_issues(issues@, epics@[j].id),
{
    let ghost s = epics@;
    let n = epics.len();
    let mut rest = epics;
    let mut out: Vec<EpicWithIssues> = Vec::new();
    let mut i: usize = 0;
    while rest.len() > 0
        invariant
            s.len() == n,
            i <= n,
            rest@ == s.skip(i as int),
            out@.len() == i,
            forall|j: int| 0 <= j < i ==> (#[trigger] out@[j]).epic == s[j]
                && out@[j].issues@ == epic_issues(issues@, s[j].id),
        decreases rest.len(),
    {
        let e = rest.remove(0);
        assert(e == s[i as int]);
        let list = issues_of(issues, e.id);
        out.push(EpicWithIssues { epic: e, issues: list });
        i = i + 1;
        assert(rest@ =~= s.skip(i as int));
    }
    MissionTree { mission, epics: out, sprint_name }
}

/// An issue of the planning review queue.
#[derive(Clone, Debug)]
pub struct IssuePlanningItem {
    pub id: i64,
    pub title: String,
    pub status: IssueStatus,
    pub priority: IssuePriority,
    /// The first 100 characters of the description, with `...` when cut.
    pub description_excerpt: Option<String>,
    /// The issues that block this one.
    pub blockers: Vec<i64>,
    pub existing_context_note_count: i64,
    pub updated_at: String,
}

/// The planning review queue of a project's sprint (or backlog).
#[derive(Clone, Debug)]
pub struct IssuePlanningSnapshot {
    pub sprint_id: Option<i64>,
    pub sprint_name: Option<String>,
    pub issues: Vec<IssuePlanningItem>,
}

/// Whether the queue keeps an issue of status `s`: every status when no
/// list is given, else only the listed ones.
pub fn planning_keeps(statuses: &Option<Vec<IssueStatus>>, s: IssueStatus) -> (r: bool)
    ensures
        r == (match statuses { Some(v) => v@.contains(s), None => true }),
{
    match statuses {
        None => true,
        Some(v) => status_listed(v, s),
    }
}

fn status_listed(v: &Vec<IssueStatus>, s: IssueStatus) -> (r: bool)
    ensures
        r == v@.contains(s),
{
    let mut k: usize = 0;
    while k < v.len()
        invariant
            k <= v@.len(),
            forall|j: int| 0 <= j < k ==> v@[j] != s,
        decreases v@.len() - k,
    {
        if v[k] == s {
            assert(v@[k as int] == s);
            return true;
        }
        k = k + 1;
    }
    false
}

/// The queue entry of an issue, with its blockers and its number of
/// context notes.
pub fn planning_item(issue: Issue, blockers: Vec<i64>, context_notes: i64) -> (r: IssuePlanningItem)
    ensures
        r.id == issue.id,
        r.title == issue.title,
        r.status == issue.status,
        r.priority == issue.priority,
        opt_view(r.description_excerpt) == (match issue.description {
            Some(d) => Some(truncate_with_ellipsis(d@, 100)),
            None => None,
        }),
        r.blockers == blockers,
        r.existing_context_note_count == context_notes,
        r.updated_at == issue.updated_at,
{
    let excerpt = match &issue.description {
        Some(d) => Some(truncate_chars(d.as_str(), 100)),
        None => None,
    };
    IssuePlanningItem {
        id: issue.id,
        title: issue.title,
        status: issue.status,
        priority: issue.priority,
        description_excerpt: excerpt,
        blockers,
        existing_context_note_count: context_notes,
        updated_at: issue.updated_at,
    }
}

/// The query of the planning queue: a project's issues in a sprint, or in
/// its backlog when there is no sprint; newest first.
pub open spec fn planning_queue_sql_text(has_sprint: bool) -> Seq<char> {
    "SELECT "@ + ISSUE_COLUMNS@ + " FROM issues i JOIN epics e ON i.epic_id = e.id WHERE e.project_key = ?"@
        + (if has_sprint { " AND e.sprint_id = ?"@ } else { " AND e.sprint_id IS NULL"@ })
        + " ORDER BY i.id DESC"@
}

/// The query of the planning queue; see [`planning_queue_sql_text`].
pub fn planning_queue_sql(has_sprint: bool) -> (r: String)
    ensures
        r@ == planning_queue_sql_text(has_sprint),
{
    let mut s = String::from_str("SELECT ");
    push_str(&mut s, ISSUE_COLUMNS);
    push_str(&mut s, " FROM issues i JOIN epics e ON i.epic_id = e.id WHERE e.project_key = ?");
    if has_sprint {
        push_str(&mut s, " AND e.sprint_id = ?");
    } else {
        push_str(&mut s, " AND e.sprint_id IS NULL");
    }
    push_str(&mut s, " ORDER BY i.id DESC");
    s
}

} // verus!
