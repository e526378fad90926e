//! The retrospective of a sprint: each issue's timeline of changes, the
//! issues whose scope grew through discovered tasks, and the totals; and the
//! bookkeeping of retrospective documents and their action items.
use vstd::prelude::*;
use crate::enums::{IssueStatus, NoteType};
use crate::models::{opt_view, CreateIssueInput, CreateNoteInput, History, Retrospective, UpdateRetrospectiveInput};
use crate::text::{int_decimal, push_i64, push_str};

verus! {

/// One change of an issue, as shown in its timeline.
#[derive(Clone, Debug)]
pub struct StatusTransition {
    pub field: String,
    pub old_value: Option<String>,
    pub new_value: Option<String>,
    pub changed_at: String,
}

/// The changes of one issue, oldest first.
#[derive(Clone, Debug)]
pub struct IssueTimeline {
    pub issue_id: i64,
    pub title: String,
    pub transitions: Vec<StatusTransition>,
}

/// An issue some of whose tasks were discovered while working on it.
#[derive(Clone, Debug)]
pub struct ScopeExpansion {
    pub issue_id: i64,
    pub title: String,
    pub planned: u32,
    pub discovered: u32,
    /// Discovered tasks as a whole percentage of all tasks, rounded down.
    pub expansion_rate: u32,
}

/// The retrospective report of a sprint.
#[derive(Clone, Debug)]
pub struct RetroReport {
    pub sprint_id: i64,
    pub sprint_name: String,
    pub issue_timelines: Vec<IssueTimeline>,
    pub scope_expansions: Vec<ScopeExpansion>,
    pub total_issues: u32,
    pub finished_issues: u32,
}

/// What the report needs of one sprint issue: its change log and its task
/// counts by origin.
#[derive(Clone, Debug)]
pub struct RetroIssueFacts {
    pub issue_id: i64,
    pub title: String,
    pub status: IssueStatus,
    pub history: Vec<History>,
    pub planned: i64,
    pub discovered: i64,
}

/// The transition shown for a change-log row.
pub open spec fn transition_of(h: History) -> StatusTransition {
    StatusTransition { field: h.field, old_value: h.old_value, new_value: h.new_value, changed_at: h.created_at }
}

/// The discovered share of an issue's tasks, in whole percent.
pub open spec fn expansion_rate_of(f: RetroIssueFacts) -> int {
    (f.discovered * 100) / (f.planned + f.discovered)
}

/// An issue with tasks, some of them discovered.
pub open spec fn expanded(f: RetroIssueFacts) -> bool {
    f.planned + f.discovered > 0 && expansion_rate_of(f) > 0
}

/// The task counts of an issue, as counted by the store, and within what
/// the report's arithmetic can hold: the discovered count scaled to percent
/// and the sum of both counts fit an `i64`.
pub open spec fn facts_bounded(f: RetroIssueFacts) -> bool {
    0 <= f.planned && 0 <= f.discovered <= i64::MAX / 100 && f.planned + f.discovered <= i64::MAX
}

/// The scope expansions of `fs`, in order.
pub open spec fn scope_expansions_of(fs: Seq<RetroIssueFacts>) -> Seq<ScopeExpansion>
    decreases fs.len(),
{
    if fs.len() == 0 {
        Seq::empty()
    } else if expanded(fs.last()) {
        let f = fs.last();
        scope_expansions_of(fs.drop_last()).push(ScopeExpansion {
            issue_id: f.issue_id,
            title: f.title,
            planned: f.planned as u32,
            discovered: f.discovered as u32,
            expansion_rate: expansion_rate_of(f) as u32,
        })
    } else {
        scope_expansions_of(fs.drop_last())
    }
}

/// The issues of `fs` with at least one change, in order.
pub open spec fn timeline_issues(fs: Seq<RetroIssueFacts>) -> Seq<RetroIssueFacts>
    decreases fs.len(),
{
    if fs.len() == 0 {
        Seq::empty()
    } else if fs.last().history@.len() > 0 {
        timeline_issues(fs.drop_last()).push(fs.last())
    } else {
        timeline_issues(fs.drop_last())
    }
}

/// The finished issues of `fs`.
pub open spec fn finished_count(fs: Seq<RetroIssueFacts>) -> nat
    decreases fs.len(),
{
    if fs.len() == 0 {
        0
    } else {
        finished_count(fs.drop_last()) + (if fs.last().status == IssueStatus::Finished { 1nat } else { 0nat })
    }
}

/// A timeline matches the facts of its issue: same issue, one transition
/// per change-log row in order.
pub open spec fn timeline_matches(t: IssueTimeline, f: RetroIssueFacts) -> bool {
    &&& t.issue_id == f.issue_id
    &&& t.title == f.title
    &&& t.transitions@.len() == f.history@.len()
    &&& forall|k: int| 0 <= k < f.history@.len() ==> t.transitions@[k] == transition_of(#[trigger] f.history@[k])
}

fn timeline_of(issue_id: i64, title: String, history: Vec<History>) -> (t: IssueTimeline)
    ensures
        t.issue_id == issue_id,
        t.title == title,
        t.transitions@.len() == history@.len(),
        forall|k: int| 0 <= k < history@.len() ==> t.transitions@[k] == transition_of(#[trigger] history@[k]),
{
    let ghost s = history@;
    let n = history.len();
    let mut rest = history;
    let mut out: Vec<StatusTransition> = Vec::new();
    let mut i: usize = 0;
    while rest.len() > 0
        invariant
            s.len() == n,
            i <= n,
            rest@ == s.skip(i as int),
            out@.len() == i,
            forall|k: int| 0 <= k < i ==> out@[k] == transition_of(#[trigger] s[k]),
        decreases rest.len(),
    {
        let h = rest.remove(0);
        assert(h == s[i as int]);
        let History { id: _, entity_type: _, entity_id: _, field, old_value, new_value, changed_by: _, created_at } = h;
        out.push(StatusTransition { field, old_value, new_value, changed_at: created_at });
        i = i + 1;
        assert(rest@ =~= s.skip(i as int));
    }
    IssueTimeline { issue_id, title, transitions: out }
}

/// Assembles the retrospective report of a sprint from its issues in order:
/// the totals, a timeline for each issue with changes, and a scope
/// expansion for each issue with discovered tasks.
pub fn retro_report(sprint_id: i64, sprint_name: String, issues: Vec<RetroIssueFacts>) -> (r: RetroReport)
    requires
        issues@.len() <= u32::MAX,
        forall|i: int| 0 <= i < issues@.len() ==> facts_bounded(#[trigger] issues@[i]),
    ensures
        r.sprint_id == sprint_id,
        r.sprint_name == sprint_name,
        r.total_issues == issues@.len(),
        r.finished_issues == finished_count(issues@),
        r.scope_expansions@ == scope_expansions_of(issues@),
        r.issue_timelines@.len() == timeline_issues(issues@).len(),
        forall|j: int| 0 <= j < r.issue_timelines@.len() ==> timeline_matches(#[trigger] r.issue_timelines@[j], timeline_issues(issues@)[j]),
{
    let ghost s = issues@;
    let n = issues.len();
    let mut rest = issues;
    let mut finished: u32 = 0;
    let mut timelines: Vec<IssueTimeline> = Vec::new();
    let mut expansions: Vec<ScopeExpansion> = Vec::new();
    let mut i: usize = 0;
    while rest.len() > 0
        invariant
            s.len() == n,
            n <= u32::MAX,
            i <= n,
            rest@ == s.skip(i as int),
            forall|k: int| 0 <= k < s.len() ==> facts_bounded(#[trigger] s[k]),
            finished == finished_count(s.take(i as int)),
            finished <= i,
            expansions@ == scope_expansions_of(s.take(i as int)),
            timelines@.len() == timeline_issues(s.take(i as int)).len(),
            forall|j: int| 0 <= j < timelines@.len() ==> timeline_matches(#[trigger] timelines@[j], timeline_issues(s.take(i as int))[j]),
        decreases rest.len(),
    {
        let ghost pre = s.take(i as int);
        let f = rest.remove(0);
        assert(f == s[i as int]);
        assert(facts_bounded(f));
        assert(s.take(i + 1).drop_last() =~= pre);
        assert(s.take(i + 1).last() == f);
        if f.status == IssueStatus::Finished {
            finished = finished + 1;
        }
        let total = f.planned + f.discovered;
        if total > 0 {
            let rate = f.discovered * 100 / total;
            if rate > 0 {
                expansions.push(ScopeExpansion {
                    issue_id: f.issue_id,
                    title: f.title.clone(),
                    planned: f.planned as u32,
                    discovered: f.discovered as u32,
                    expansion_rate: rate as u32,
                });
            }
        }
        let ghost fv = f;
        let ghost old_timelines = timelines@;
        let RetroIssueFacts { issue_id, title, status: _, history, planned: _, discovered: _ } = f;
        if history.len() > 0 {
            let t = timeline_of(issue_id, title, history);
            timelines.push(t);
            assert forall|j: int| 0 <= j < timelines@.len() implies timeline_matches(#[trigger] timelines@[j], timeline_issues(s.take(i + 1))[j]) by {
                if j < old_timelines.len() {
                    assert(timelines@[j] == old_timelines[j]);
                }
            }
        }
        i = i + 1;
        assert(rest@ =~= s.skip(i as int));
    }
    assert(s.take(i as int) =~= s);
    RetroReport {
        sprint_id,
        sprint_name,
        issue_timelines: timelines,
        scope_expansions: expansions,
        total_issues: n as u32,
        finished_issues: finished,
    }
}

/// The timelines of a report are those of the sprint issues with at least
/// one change, in order, and no others.
pub proof fn law_timelines_cover_changed_issues(fs: Seq<RetroIssueFacts>)
    ensures
        timeline_issues(fs) == fs.filter(|f: RetroIssueFacts| f.history@.len() > 0),
    decreases fs.len(),
{
    reveal(Seq::filter);
    if fs.len() > 0 {
        law_timelines_cover_changed_issues(fs.drop_last());
    }
}

/// The scope expansions of a report name, in order, the sprint issues with
/// tasks of which a whole percent or more were discovered, and no others.
pub proof fn law_expansions_name_issues_with_discovered_tasks(fs: Seq<RetroIssueFacts>)
    ensures
        scope_expansions_of(fs).map_values(|x: ScopeExpansion| x.issue_id)
            == fs.filter(|f: RetroIssueFacts| f.planned + f.discovered > 0
                && (f.discovered * 100) / (f.planned + f.discovered) > 0).map_values(|f: RetroIssueFacts| f.issue_id),
    decreases fs.len(),
{
    reveal(Seq::filter);
    let p = |f: RetroIssueFacts| f.planned + f.discovered > 0 && (f.discovered * 100) / (f.planned + f.discovered) > 0;
    if fs.len() > 0 {
        let d = fs.drop_last();
        law_expansions_name_issues_with_discovered_tasks(d);
        if expanded(fs.last()) {
            let e = scope_expansions_of(d);
            let x = scope_expansions_of(fs).last();
            assert(scope_expansions_of(fs) == e.push(x));
            assert(e.push(x).map_values(|x: ScopeExpansion| x.issue_id)
                =~= e.map_values(|x: ScopeExpansion| x.issue_id).push(x.issue_id));
            assert(d.filter(p).push(fs.last()).map_values(|f: RetroIssueFacts| f.issue_id)
                =~= d.filter(p).map_values(|f: RetroIssueFacts| f.issue_id).push(fs.last().issue_id));
        }
    } else {
        assert(scope_expansions_of(fs).map_values(|x: ScopeExpansion| x.issue_id) =~= Seq::<i64>::empty());
        assert(fs.filter(p).map_values(|f: RetroIssueFacts| f.issue_id) =~= Seq::<i64>::empty());
    }
}

/// The finished count of a report counts the sprint issues whose status is
/// finished, and no others.
pub proof fn law_finished_count_counts_finished_issues(fs: Seq<RetroIssueFacts>)
    ensures
        finished_count(fs) == fs.filter(|f: RetroIssueFacts| f.status == IssueStatus::Finished).len(),
    decreases fs.len(),
{
    reveal(Seq::filter);
    if fs.len() > 0 {
        law_finished_count_counts_finished_issues(fs.drop_last());
    }
}

/// Every scope expansion of a report names an issue with tasks, at a rate
/// between 1 and 100 percent.
pub proof fn law_expansion_rates_are_percentages(fs: Seq<RetroIssueFacts>)
    requires
        forall|i: int| 0 <= i < fs.len() ==> facts_bounded(#[trigger] fs[i]),
    ensures
        forall|j: int| 0 <= j < scope_expansions_of(fs).len() ==>
            1 <= (#[trigger] scope_expansions_of(fs)[j]).expansion_rate <= 100,
    decreases fs.len(),
{
    if fs.len() > 0 {
        let d = fs.drop_last();
        assert forall|i: int| 0 <= i < d.len() implies facts_bounded(#[trigger] d[i]) by {
            assert(d[i] == fs[i]);
        }
        law_expansion_rates_are_percentages(d);
        let f = fs.last();
        assert(facts_bounded(fs[fs.len() - 1]));
        if expanded(f) {
            let t = f.planned + f.discovered;
            assert(f.discovered * 100 <= t * 100) by (nonlinear_arith)
                requires f.discovered <= t;
            assert((f.discovered * 100) / t <= 100) by (nonlinear_arith)
                requires f.discovered * 100 <= t * 100, t > 0;
            let r = expansion_rate_of(f);
            assert(1 <= r <= 100);
            assert((r as u32) as int == r);
            let e = scope_expansions_of(fs);
            assert(e == scope_expansions_of(d).push(e.last()));
            assert(e.last().expansion_rate == r as u32);
        }
    }
}

/// The row limit of a retrospective listing: the requested one, at most 100.
pub fn retro_list_limit(limit: u32) -> (r: i64)
    ensures
        r == (if limit < 100 { limit as int } else { 100 }),
{
    if limit < 100 { limit as i64 } else { 100 }
}

/// The fields a retrospective keeps after an update: each given value, else
/// the current one.
#[derive(Clone, Debug)]
pub struct RetrospectiveFields {
    pub title: String,
    pub content: String,
    pub sprint_id: Option<i64>,
    pub mission_id: Option<i64>,
    pub epic_id: Option<i64>,
}

/// Merges an update into a retrospective: given values win, absent ones
/// keep the current values.
pub fn merge_retrospective(current: Retrospective, input: UpdateRetrospectiveInput) -> (r: RetrospectiveFields)
    ensures
        r.title == (match input.title { Some(t) => t, None => current.title }),
        r.content == (match input.content { Some(c) => c, None => current.content }),
        r.sprint_id == (match input.sprint_id { Some(v) => Some(v), None => current.sprint_id }),
        r.mission_id == (match input.mission_id { Some(v) => Some(v), None => current.mission_id }),
        r.epic_id == (match input.epic_id { Some(v) => Some(v), None => current.epic_id }),
{
    RetrospectiveFields {
        title: match input.title { Some(t) => t, None => current.title },
        content: match input.content { Some(c) => c, None => current.content },
        sprint_id: match input.sprint_id { Some(v) => Some(v), None => current.sprint_id },
        mission_id: match input.mission_id { Some(v) => Some(v), None => current.mission_id },
        epic_id: match input.epic_id { Some(v) => Some(v), None => current.epic_id },
    }
}

/// The fields of an action item other than its position.
#[derive(Clone, Debug)]
pub struct ActionItemFields {
    pub title: String,
    pub description: Option<String>,
    pub status: String,
    pub linked_issue_id: Option<i64>,
    pub linked_note_id: Option<i64>,
}

/// Merges an update into an action item: given values win, absent ones keep
/// the current values.
pub fn merge_action_item(current: ActionItemFields, update: ActionItemFields, has_title: bool, has_status: bool) -> (r: ActionItemFields)
    ensures
        r.title == (if has_title { update.title } else { current.title }),
        r.description == (match update.description { Some(d) => Some(d), None => current.description }),
        r.status == (if has_status { update.status } else { current.status }),
        r.linked_issue_id == (match update.linked_issue_id { Some(v) => Some(v), None => current.linked_issue_id }),
        r.linked_note_id == (match update.linked_note_id { Some(v) => Some(v), None => current.linked_note_id }),
{
    ActionItemFields {
        title: if has_title { update.title } else { current.title },
        description: match update.description { Some(d) => Some(d), None => current.description },
        status: if has_status { update.status } else { current.status },
        linked_issue_id: match update.linked_issue_id { Some(v) => Some(v), None => current.linked_issue_id },
        linked_note_id: match update.linked_note_id { Some(v) => Some(v), None => current.linked_note_id },
    }
}

/// The title of the epic that collects a retrospective's action items.
pub const RETRO_EPIC_TITLE: &'static str = "Retrospective Action Items";

/// The description of that epic.
pub const RETRO_EPIC_DESCRIPTION: &'static str = "회고에서 생성된 액션 아이템 이슈 집합";

/// The title of the mission that collects a sprint's action items.
pub open spec fn retro_mission_title_text(sprint_name: Seq<char>) -> Seq<char> {
    "retro-"@ + sprint_name
}

/// The description of that mission.
pub open spec fn retro_mission_description_text(sprint_name: Seq<char>) -> Seq<char> {
    sprint_name + " 회고 액션 아이템 전용 미션"@
}

/// The title of the mission that collects a sprint's action items.
pub fn retro_mission_title(sprint_name: &str) -> (r: String)
    ensures
        r@ == retro_mission_title_text(sprint_name@),
{
    let mut s = String::from_str("retro-");
    push_str(&mut s, sprint_name);
    s
}

/// The description of the mission that collects a sprint's action items.
pub fn retro_mission_description(sprint_name: &str) -> (r: String)
    ensures
        r@ == retro_mission_description_text(sprint_name@),
{
    let mut s = String::from_str(sprint_name);
    push_str(&mut s, " 회고 액션 아이템 전용 미션");
    s
}

/// The sprint name a retrospective's action items are filed under: the
/// name of its sprint (or `sprint` when that sprint cannot be read), or the
/// retrospective's title when it has no sprint.
pub fn retro_sprint_label(retro_title: &str, sprint_name: Option<Option<String>>) -> (r: String)
    ensures
        r@ == (match sprint_name {
            Some(Some(n)) => n@,
            Some(None) => "sprint"@,
            None => retro_title@,
        }),
{
    match sprint_name {
        Some(Some(n)) => n,
        Some(None) => String::from_str("sprint"),
        None => String::from_str(retro_title),
    }
}

/// The goal of an issue made from an action item.
pub open spec fn action_issue_goal(retro_id: i64) -> Seq<char> {
    "회고 Retrospective #"@ + int_decimal(retro_id as int) + " 액션아이템에서 자동 변환됨"@
}

/// The issue made from an action item: in the retrospective epic, with the
/// item's title and description and a goal naming the retrospective.
pub fn action_item_issue(epic_id: i64, retro_id: i64, title: String, description: Option<String>) -> (r: CreateIssueInput)
    ensures
        r.epic_id == epic_id,
        r.mission_id is None,
        r.sprint_id is None,
        r.title == title,
        r.description == description,
        opt_view(r.goal) == Some(action_issue_goal(retro_id)),
        r.priority is None,
{
    let mut goal = String::from_str("회고 Retrospective #");
    push_i64(&mut goal, retro_id);
    push_str(&mut goal, " 액션아이템에서 자동 변환됨");
    CreateIssueInput { epic_id, mission_id: None, sprint_id: None, title, description, goal: Some(goal), priority: None }
}

/// The summary of the context note attached to such an issue.
pub open spec fn action_note_summary(retro_id: i64) -> Seq<char> {
    "회고 #"@ + int_decimal(retro_id as int) + " Action Item에서 자동 생성됨"@
}

/// The detail of that note.
pub open spec fn action_note_detail(item_title: Seq<char>) -> Seq<char> {
    "원문 액션 제목: "@ + item_title
}

/// The context note attached to an issue made from an action item.
pub fn action_item_note(issue_id: i64, retro_id: i64, project_key: String, item_title: &str, agent_id: Option<String>) -> (r: CreateNoteInput)
    ensures
        r.issue_id == issue_id,
        r.task_id is None,
        r.note_type == NoteType::Context,
        r.summary@ == action_note_summary(retro_id),
        opt_view(r.detail) == Some(action_note_detail(item_title@)),
        r.author == agent_id,
        r.agent_id == agent_id,
        r.scope is None,
        r.scope_target_id is None,
        r.project_key == Some(project_key),
{
    let mut summary = String::from_str("회고 #");
    push_i64(&mut summary, retro_id);
    push_str(&mut summary, " Action Item에서 자동 생성됨");
    let mut detail = String::from_str("원문 액션 제목: ");
    push_str(&mut detail, item_title);
    let author = match &agent_id { Some(a) => Some(a.clone()), None => None };
    CreateNoteInput {
        issue_id,
        task_id: None,
        note_type: NoteType::Context,
        summary,
        detail: Some(detail),
        author,
        agent_id,
        scope: None,
        scope_target_id: None,
        project_key: Some(project_key),
    }
}

/// The message of a missing retrospective record (`Retrospective` or
/// `RetroActionItem`).
pub fn retro_not_found(kind: &str, id: i64) -> (r: crate::Error)
    ensures
        r matches crate::Error::NotFound(m) && m@ == kind@ + " #"@ + int_decimal(id as int) + " not found"@,
{
    let mut m = String::from_str(kind);
    push_str(&mut m, " #");
    push_i64(&mut m, id);
    push_str(&mut m, " not found");
    crate::Error::NotFound(m)
}

} // verus!
