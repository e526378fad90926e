//! The records of the tracker: sprints, missions, epics, issues, notes,
//! history rows and the inputs that create or change them.
//!
//! Text fields are `String`s; contracts speak of them through their views
//! (`Seq<char>`). Records whose data includes a fractional ordering key
//! (tasks, retrospective action items) are not held here.
use vstd::prelude::*;
use crate::enums::{EntityType, EpicStatus, IssuePriority, IssueStatus, LinkType, MissionStatus, NoteScope, NoteType, SprintStatus, TaskSource, TaskStatus};

verus! {

/// The view of an optional text.
pub open spec fn opt_view(o: Option<String>) -> Option<Seq<char>> {
    match o {
        Some(s) => Some(s@),
        None => None,
    }
}

/// An epic: a body of work inside a project, optionally tied to a mission
/// and a sprint (no sprint means backlog).
#[derive(Clone, Debug)]
pub struct Epic {
    pub id: i64,
    pub project_key: String,
    pub mission_id: Option<i64>,
    pub sprint_id: Option<i64>,
    pub title: String,
    pub description: Option<String>,
    pub status: EpicStatus,
    pub created_at: String,
    pub updated_at: String,
    pub ready_to_complete: Option<bool>,
}

/// Fields of a new epic.
#[derive(Clone, Debug)]
pub struct CreateEpicInput {
    pub project_key: String,
    pub mission_id: Option<i64>,
    pub sprint_id: Option<i64>,
    pub title: String,
    pub description: Option<String>,
}

/// Changes to an epic; `None` leaves a field alone. The sprint changes only
/// when `update_sprint_id` is set (then `sprint_id == None` means backlog).
#[derive(Clone, Debug)]
pub struct UpdateEpicInput {
    pub title: Option<String>,
    pub description: Option<String>,
    pub status: Option<EpicStatus>,
    pub mission_id: Option<i64>,
    pub sprint_id: Option<i64>,
    pub update_sprint_id: bool,
}

/// One row of the change log.
#[derive(Clone, Debug)]
pub struct History {
    pub id: i64,
    pub entity_type: EntityType,
    pub entity_id: i64,
    pub field: String,
    pub old_value: Option<String>,
    pub new_value: Option<String>,
    pub changed_by: String,
    pub created_at: String,
}

/// A change-log row to be written.
#[derive(Clone, Debug)]
pub struct CreateHistoryInput {
    pub entity_type: EntityType,
    pub entity_id: i64,
    pub field: String,
    pub old_value: Option<String>,
    pub new_value: Option<String>,
    pub changed_by: String,
}

/// The mathematical content of a change-log row.
pub struct HistoryView {
    pub entity_type: EntityType,
    pub entity_id: int,
    pub field: Seq<char>,
    pub old_value: Option<Seq<char>>,
    pub new_value: Option<Seq<char>>,
    pub changed_by: Seq<char>,
}

impl View for CreateHistoryInput {
    type V = HistoryView;

    open spec fn view(&self) -> HistoryView {
        HistoryView {
            entity_type: self.entity_type,
            entity_id: self.entity_id as int,
            field: self.field@,
            old_value: opt_view(self.old_value),
            new_value: opt_view(self.new_value),
            changed_by: self.changed_by@,
        }
    }
}

/// The views of a list of change-log rows.
pub open spec fn history_views(v: Seq<CreateHistoryInput>) -> Seq<HistoryView> {
    Seq::new(v.len(), |i: int| v[i]@)
}

/// Appends a change-log row to a list of rows to be written.
pub fn push_history(v: &mut Vec<CreateHistoryInput>, h: CreateHistoryInput)
    ensures
        history_views(final(v)@) == history_views(old(v)@).push(h@),
{
    let ghost before = v@;
    v.push(h);
    assert(history_views(v@) =~= history_views(before).push(h@));
}

/// Builds a change-log row; its view is exactly the given parts.
pub fn history_entry(
    entity_type: EntityType,
    entity_id: i64,
    field: &str,
    old_value: Option<String>,
    new_value: Option<String>,
    changed_by: &str,
) -> (h: CreateHistoryInput)
    ensures
        h@ == (HistoryView {
            entity_type,
            entity_id: entity_id as int,
            field: field@,
            old_value: opt_view(old_value),
            new_value: opt_view(new_value),
            changed_by: changed_by@,
        }),
{
    CreateHistoryInput {
        entity_type,
        entity_id,
        field: String::from_str(field),
        old_value,
        new_value,
        changed_by: String::from_str(changed_by),
    }
}

/// An issue. Its mission and sprint are those of its epic.
#[derive(Clone, Debug)]
pub struct Issue {
    pub id: i64,
    pub epic_id: i64,
    pub mission_id: Option<i64>,
    pub sprint_id: Option<i64>,
    pub title: String,
    pub description: Option<String>,
    pub goal: Option<String>,
    pub status: IssueStatus,
    pub priority: IssuePriority,
    pub assigned_agent: Option<String>,
    pub created_at: String,
    pub updated_at: String,
}

/// An issue that has stayed in its status for a while: how long, in whole
/// minutes, since it entered it.
#[derive(Clone, Debug)]
pub struct StalledIssue {
    pub id: i64,
    pub title: String,
    pub project_key: String,
    pub status: IssueStatus,
    pub priority: IssuePriority,
    pub entered_status_at: String,
    pub minutes_in_status: i64,
}

/// A typed relation `source -> target` between two issues.
#[derive(Clone, Debug)]
pub struct IssueLink {
    pub id: i64,
    pub source_id: i64,
    pub target_id: i64,
    pub link_type: LinkType,
    pub created_at: String,
}

/// Fields of a new issue.
#[derive(Clone, Debug)]
pub struct CreateIssueInput {
    pub epic_id: i64,
    pub mission_id: Option<i64>,
    pub sprint_id: Option<i64>,
    pub title: String,
    pub description: Option<String>,
    pub goal: Option<String>,
    pub priority: Option<IssuePriority>,
}

/// Changes to an issue; `None` leaves a field alone.
#[derive(Clone, Debug)]
pub struct UpdateIssueInput {
    pub title: Option<String>,
    pub description: Option<String>,
    pub goal: Option<String>,
    pub status: Option<IssueStatus>,
    pub priority: Option<IssuePriority>,
    pub epic_id: Option<i64>,
}

/// Filter of an issue listing. `backlog_only` wins over `sprint_id`.
#[derive(Clone, Debug)]
pub struct IssueFilter {
    pub epic_id: Option<i64>,
    pub mission_id: Option<i64>,
    pub sprint_id: Option<i64>,
    pub backlog_only: bool,
    pub project_key: Option<String>,
    pub status: Option<IssueStatus>,
    pub statuses: Option<Vec<IssueStatus>>,
    pub priority: Option<IssuePriority>,
    pub compact: Option<bool>,
    pub limit: Option<i64>,
    pub offset: Option<i64>,
}

/// A mission: a goal that spans epics, possibly over several sprints.
#[derive(Clone, Debug)]
pub struct Mission {
    pub id: i64,
    pub jira_key: Option<String>,
    pub title: String,
    pub description: Option<String>,
    pub status: MissionStatus,
    pub sprint_id: Option<i64>,
    pub created_at: String,
    pub updated_at: String,
}

/// Fields of a new mission.
#[derive(Clone, Debug)]
pub struct CreateMissionInput {
    pub title: String,
    pub description: Option<String>,
    pub jira_key: Option<String>,
    pub sprint_id: Option<i64>,
}

/// Changes to a mission; `None` leaves a field alone.
#[derive(Clone, Debug)]
pub struct UpdateMissionInput {
    pub title: Option<String>,
    pub description: Option<String>,
    pub jira_key: Option<String>,
    pub status: Option<MissionStatus>,
    pub sprint_id: Option<i64>,
}

/// Filter of a mission listing: an explicit status, or active only unless
/// `include_completed`.
#[derive(Clone, Debug)]
pub struct MissionFilter {
    pub sprint_id: Option<i64>,
    pub status: Option<MissionStatus>,
    pub include_completed: bool,
}

/// An epic with the issues that belong to it.
#[derive(Clone, Debug)]
pub struct EpicWithIssues {
    pub epic: Epic,
    pub issues: Vec<Issue>,
}

/// A mission with its epics and their issues.
#[derive(Clone, Debug)]
pub struct MissionTree {
    pub mission: Mission,
    pub epics: Vec<EpicWithIssues>,
    pub sprint_name: Option<String>,
}

/// A note attached to an issue or task, or broadcast to a project, sprint or epic.
#[derive(Clone, Debug)]
pub struct Note {
    pub id: i64,
    pub issue_id: Option<i64>,
    pub task_id: Option<i64>,
    pub note_type: NoteType,
    pub summary: String,
    pub detail: Option<String>,
    pub author: String,
    pub agent_id: Option<String>,
    pub resolved: bool,
    pub scope: NoteScope,
    pub scope_target_id: Option<i64>,
    pub project_key: Option<String>,
    pub created_at: String,
    pub resolved_at: Option<String>,
    pub updated_at: String,
}

/// The summary line of a note.
#[derive(Clone, Debug)]
pub struct NoteSummary {
    pub id: i64,
    pub note_type: NoteType,
    pub summary: String,
    pub task_id: Option<i64>,
    pub resolved: bool,
}

/// Fields of a new note. `issue_id` is required (> 0) for issue and task
/// scope; broadcast scopes ignore it.
#[derive(Clone, Debug)]
pub struct CreateNoteInput {
    pub issue_id: i64,
    pub task_id: Option<i64>,
    pub note_type: NoteType,
    pub summary: String,
    pub detail: Option<String>,
    pub author: Option<String>,
    pub agent_id: Option<String>,
    pub scope: Option<NoteScope>,
    pub scope_target_id: Option<i64>,
    pub project_key: Option<String>,
}

/// A written retrospective.
#[derive(Clone, Debug)]
pub struct Retrospective {
    pub id: i64,
    pub project_key: String,
    pub title: String,
    pub content: String,
    pub sprint_id: Option<i64>,
    pub mission_id: Option<i64>,
    pub epic_id: Option<i64>,
    pub agent_id: Option<String>,
    pub created_at: String,
    pub updated_at: String,
}

/// Changes to a retrospective; `None` keeps the current value.
#[derive(Clone, Debug)]
pub struct UpdateRetrospectiveInput {
    pub title: Option<String>,
    pub content: Option<String>,
    pub sprint_id: Option<i64>,
    pub mission_id: Option<i64>,
    pub epic_id: Option<i64>,
}

/// A sprint.
#[derive(Clone, Debug)]
pub struct Sprint {
    pub id: i64,
    pub name: String,
    pub goal: Option<String>,
    pub status: SprintStatus,
    pub start_date: Option<String>,
    pub end_date: Option<String>,
    pub created_at: String,
    pub updated_at: String,
}

/// Fields of a new sprint.
#[derive(Clone, Debug)]
pub struct CreateSprintInput {
    pub name: String,
    pub goal: Option<String>,
    pub start_date: Option<String>,
    pub end_date: Option<String>,
}

/// Changes to a sprint; `None` leaves a field alone.
#[derive(Clone, Debug)]
pub struct UpdateSprintInput {
    pub name: Option<String>,
    pub goal: Option<String>,
    pub status: Option<SprintStatus>,
    pub start_date: Option<String>,
    pub end_date: Option<String>,
}

/// Fields of a new task; `after_task_id == None` appends it.
#[derive(Clone, Debug)]
pub struct CreateTaskInput {
    pub issue_id: i64,
    pub title: String,
    pub description: Option<String>,
    pub goal: Option<String>,
    pub after_task_id: Option<i64>,
    pub source: Option<TaskSource>,
}

/// Changes to a task; `None` leaves a field alone.
#[derive(Clone, Debug)]
pub struct UpdateTaskInput {
    pub title: Option<String>,
    pub description: Option<String>,
    pub goal: Option<String>,
    pub status: Option<TaskStatus>,
}

/// The task an agent should pick up next, with the reason for the choice.
#[derive(Clone, Debug)]
pub struct NextTask {
    pub task_id: i64,
    pub task_title: String,
    pub issue_id: i64,
    pub issue_title: String,
    pub epic_id: i64,
    pub epic_title: String,
    pub project_key: String,
    pub reason: String,
}

/// A checklist item of a task.
#[derive(Clone, Debug)]
pub struct TaskTest {
    pub id: i64,
    pub task_id: i64,
    pub label: String,
    pub checked: bool,
    pub created_at: String,
    pub checked_at: Option<String>,
}

/// Whether a field named `key` survives a projection onto `fields`: every
/// field does when no field is named, else only the named ones.
pub fn projection_keeps(fields: &Vec<String>, key: &str) -> (r: bool)
    ensures
        r == (fields@.len() == 0 || exists|i: int| 0 <= i < fields@.len() && (#[trigger] fields@[i])@ == key@),
{
    if fields.len() == 0 {
        return true;
    }
    let mut k: usize = 0;
    while k < fields.len()
        invariant
            k <= fields@.len(),
            forall|i: int| 0 <= i < k ==> (#[trigger] fields@[i])@ != key@,
        decreases fields@.len() - k,
    {
        if crate::text::str_eq(fields[k].as_str(), key) {
            return true;
        }
        k = k + 1;
    }
    false
}

/// One page of a listing and whether more items follow it.
#[derive(Clone, Debug)]
pub struct PaginatedResponse<T> {
    pub items: Vec<T>,
    pub total: i64,
    pub has_more: bool,
}

/// An answer either as structured data or as agent text.
#[derive(Clone, Debug)]
pub enum CoreResponse<T> {
    Json(T),
    Text(String),
}

} // verus!
