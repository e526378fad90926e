//! The rules of an issue's life: who may move it to which status, when a
//! blocker stops it, how claiming and releasing hand it between agents, and
//! which change-log rows each change leaves.
//!
//! Each operation is split in two: the application reads the stored issue
//! (and its open blockers), hands what it read to a decision function here,
//! and then writes what the decision says.
use vstd::prelude::*;
use crate::Error;
use crate::enums::{EntityType, IssuePriority, IssueStatus};
use crate::models::{opt_view, history_entry, history_views, push_history, CreateHistoryInput, HistoryView, UpdateIssueInput};
use crate::text::{i64_to_string, int_decimal, push_i64, push_str, str_eq};

verus! {

/// The caller name reserved for the human user.
pub open spec fn is_user(by: Seq<char>) -> bool {
    by == "user"@
}

/// A change-log row about an issue.
pub open spec fn issue_row(
    field: Seq<char>,
    id: int,
    old: Option<Seq<char>>,
    new: Option<Seq<char>>,
    by: Seq<char>,
) -> HistoryView {
    HistoryView { entity_type: EntityType::Issue, entity_id: id, field, old_value: old, new_value: new, changed_by: by }
}

/// Statuses that only the user may set directly.
pub open spec fn user_only_status(s: IssueStatus) -> bool {
    s is Finished || s is Cancelled
}

/// Whether the demo gate refuses a requested status for this caller.
pub open spec fn demo_gate_refuses(requested: Option<IssueStatus>, by: Seq<char>) -> bool {
    match requested {
        Some(s) => user_only_status(s) && !is_user(by),
        None => false,
    }
}

/// Whether open blockers refuse a requested status.
pub open spec fn blockers_refuse(requested: Option<IssueStatus>, open_blockers: Seq<i64>) -> bool {
    match requested {
        Some(s) => needs_unblocked(s) && open_blockers.len() > 0,
        None => false,
    }
}

/// Whether moving from `current` to the requested status leaves working.
pub open spec fn leaves_working(current: IssueStatus, requested: Option<IssueStatus>) -> bool {
    match requested {
        Some(s) => current is Working && !(s is Working),
        None => false,
    }
}

/// Statuses an issue cannot enter while an open issue blocks it.
pub open spec fn needs_unblocked(s: IssueStatus) -> bool {
    s is Working || s is Demo || s is Finished
}

/// Every status may follow every status: the board lets cards move both ways.
/// The recommended flow (required, ready, working, demo, finished) is a
/// convention for agents, not a rule of the library.
pub open spec fn transition_allowed(from: IssueStatus, to: IssueStatus) -> bool {
    true
}

impl IssueStatus {
    /// Whether an issue may move from this status to `next`: always.
    pub fn can_transition_to(&self, next: &IssueStatus) -> (r: bool)
        ensures
            r == transition_allowed(*self, *next),
            r,
    {
        true
    }
}

impl IssuePriority {
    /// Sort key of a priority: critical 0, high 1, medium 2, low 3.
    pub open spec fn order(self) -> int {
        match self {
            IssuePriority::Critical => 0,
            IssuePriority::High => 1,
            IssuePriority::Medium => 2,
            IssuePriority::Low => 3,
        }
    }

    /// The sort key used to pick the next task (lower comes first).
    pub fn order_value(&self) -> (r: u8)
        ensures
            r as int == self.order(),
    {
        match self {
            IssuePriority::Critical => 0,
            IssuePriority::High => 1,
            IssuePriority::Medium => 2,
            IssuePriority::Low => 3,
        }
    }
}

/// The comma-separated list `#a, #b, ...` of issue ids.
pub open spec fn hash_id_list(ids: Seq<i64>) -> Seq<char>
    decreases ids.len(),
{
    if ids.len() == 0 {
        Seq::empty()
    } else if ids.len() == 1 {
        seq!['#'] + int_decimal(ids[0] as int)
    } else {
        hash_id_list(ids.drop_last()) + ", #"@ + int_decimal(ids.last() as int)
    }
}

fn hash_id_list_string(ids: &Vec<i64>) -> (s: String)
    ensures
        s@ == hash_id_list(ids@),
{
    let mut s = String::new();
    let mut i: usize = 0;
    while i < ids.len()
        invariant
            i <= ids.len(),
            s@ == hash_id_list(ids@.take(i as int)),
        decreases ids.len() - i,
    {
        let ghost before = s@;
        if i > 0 {
            push_str(&mut s, ", #");
        } else {
            crate::text::push_char(&mut s, '#');
        }
        push_i64(&mut s, ids[i]);
        proof {
            let t = ids@.take(i + 1);
            assert(t.drop_last() =~= ids@.take(i as int));
            if i == 0 {
                assert(before =~= Seq::<char>::empty());
                assert(s@ =~= seq!['#'] + int_decimal(t[0] as int));
            } else {
                assert(s@ =~= before + ", #"@ + int_decimal(t.last() as int));
            }
        }
        i = i + 1;
    }
    assert(ids@.take(ids.len() as int) =~= ids@);
    s
}

/// Message of the refusal to let a blocked issue start or finish.
pub open spec fn blocked_message(id: i64, blockers: Seq<i64>) -> Seq<char> {
    "이슈 #"@ + int_decimal(id as int) + "은(는) 블로킹 이슈 ["@ + hash_id_list(blockers)
        + "]이(가) demo 또는 finished 상태가 될 때까지 작업이 불가합니다."@
}

fn blocked_error(id: i64, blockers: &Vec<i64>) -> (e: Error)
    ensures
        e matches Error::Conflict(m) && m@ == blocked_message(id, blockers@),
{
    let mut m = String::from_str("이슈 #");
    push_i64(&mut m, id);
    push_str(&mut m, "은(는) 블로킹 이슈 [");
    let list = hash_id_list_string(blockers);
    push_str(&mut m, list.as_str());
    push_str(&mut m, "]이(가) demo 또는 finished 상태가 될 때까지 작업이 불가합니다.");
    Error::Conflict(m)
}

/// Message of the refusal to let anyone but the user finish or cancel directly.
pub open spec fn demo_gate_message(by: Seq<char>) -> Seq<char> {
    "finished/cancelled 전이는 사용자(agent_id=\"user\")만 가능합니다 (현재 호출자: "@ + by
        + "). agent_demo_gate 규칙 참조"@
}

/// The first check of an issue update, made before the issue is read: only
/// the user may set `finished` or `cancelled` through a plain update.
pub fn issue_update_gate(input: &UpdateIssueInput, changed_by: &str) -> (r: Result<(), Error>)
    ensures
        r is Err <==> demo_gate_refuses(input.status, changed_by@),
        r matches Err(e) ==> (e matches Error::Validation(m) && m@ == demo_gate_message(changed_by@)),
{
    match input.status {
        Some(s) => {
            if (matches!(s, IssueStatus::Finished) || matches!(s, IssueStatus::Cancelled))
                && !str_eq(changed_by, "user") {
                let mut m = String::from_str("finished/cancelled 전이는 사용자(agent_id=\"user\")만 가능합니다 (현재 호출자: ");
                push_str(&mut m, changed_by);
                push_str(&mut m, "). agent_demo_gate 규칙 참조");
                Err(Error::Validation(m))
            } else {
                Ok(())
            }
        },
        None => Ok(()),
    }
}

/// What an issue update writes: the new status (if any), whether the
/// assignment is dropped, and the change-log rows in order.
pub struct IssueUpdatePlan {
    pub status: Option<IssueStatus>,
    pub clear_assignment: bool,
    pub history: Vec<CreateHistoryInput>,
}

/// One change-log row recording the new value of `field`, or none when
/// the field is not changed.
pub open spec fn new_value_rows(
    entity_type: EntityType,
    field: Seq<char>,
    id: int,
    new: Option<Seq<char>>,
    by: Seq<char>,
) -> Seq<HistoryView> {
    match new {
        Some(v) => seq![HistoryView {
            entity_type,
            entity_id: id,
            field,
            old_value: None,
            new_value: Some(v),
            changed_by: by,
        }],
        None => Seq::empty(),
    }
}

/// Appends the row of [`new_value_rows`] to `v`.
pub fn push_new_value_row(
    v: &mut Vec<CreateHistoryInput>,
    entity_type: EntityType,
    field: &str,
    id: i64,
    new: Option<String>,
    by: &str,
)
    ensures
        history_views(final(v)@) == history_views(old(v)@) + new_value_rows(
            entity_type,
            field@,
            id as int,
            opt_view(new),
            by@,
        ),
{
    match new {
        Some(n) => {
            let ghost nv = n@;
            push_history(v, history_entry(entity_type, id, field, None, Some(n), by));
            assert(history_views(old(v)@).push(history_views(v@).last()) =~= history_views(old(v)@)
                + seq![history_views(v@).last()]);
        },
        None => {
            assert(history_views(old(v)@) + Seq::<HistoryView>::empty() =~= history_views(old(v)@));
        },
    }
}

/// The name of an optional status or priority as an optional text.
pub open spec fn opt_status_name(s: Option<IssueStatus>) -> Option<Seq<char>> {
    match s { Some(v) => Some(v.name()), None => None }
}

/// The name of an optional priority as an optional text.
pub open spec fn opt_priority_name(p: Option<IssuePriority>) -> Option<Seq<char>> {
    match p { Some(v) => Some(v.name()), None => None }
}

/// The decimal rendering of an optional id.
pub open spec fn opt_decimal(n: Option<i64>) -> Option<Seq<char>> {
    match n { Some(v) => Some(int_decimal(v as int)), None => None }
}

/// The status row of an issue update: old and new status names.
pub open spec fn status_rows(id: i64, requested: Option<IssueStatus>, by: Seq<char>, current: IssueStatus) -> Seq<HistoryView> {
    match requested {
        Some(s) => seq![issue_row("status"@, id as int, Some(current.name()), Some(s.name()), by)],
        None => Seq::empty(),
    }
}

/// The change-log rows of an issue update, in the order they are written:
/// status (with old and new value), then the new values of priority, title,
/// description, goal and epic.
pub open spec fn issue_update_rows(
    id: i64,
    input: UpdateIssueInput,
    by: Seq<char>,
    current: IssueStatus,
) -> Seq<HistoryView> {
    let i = id as int;
    status_rows(id, input.status, by, current)
        + new_value_rows(EntityType::Issue, "priority"@, i, opt_priority_name(input.priority), by)
        + new_value_rows(EntityType::Issue, "title"@, i, opt_view(input.title), by)
        + new_value_rows(EntityType::Issue, "description"@, i, opt_view(input.description), by)
        + new_value_rows(EntityType::Issue, "goal"@, i, opt_view(input.goal), by)
        + new_value_rows(EntityType::Issue, "epic_id"@, i, opt_decimal(input.epic_id), by)
}

fn opt_name_string(p: Option<IssuePriority>) -> (r: Option<String>)
    ensures
        opt_view(r) == opt_priority_name(p),
{
    match p {
        Some(v) => Some(String::from_str(v.as_str())),
        None => None,
    }
}

fn opt_decimal_string(n: Option<i64>) -> (r: Option<String>)
    ensures
        opt_view(r) == opt_decimal(n),
{
    match n {
        Some(v) => Some(i64_to_string(v)),
        None => None,
    }
}

/// Decides an issue update from the request, the caller, the issue's
/// current status and its open blockers (issues that block it and are not
/// demo, finished or cancelled).
///
/// - Finishing or cancelling is refused (`Validation`) unless the caller is
///   the user.
/// - Entering working, demo or finished is refused (`Conflict`) while any
///   blocker is open.
/// - Leaving working drops the assignment.
/// - Every changed field leaves one change-log row.
pub fn plan_issue_update(
    id: i64,
    input: &UpdateIssueInput,
    changed_by: &str,
    current: IssueStatus,
    open_blockers: &Vec<i64>,
) -> (r: Result<IssueUpdatePlan, Error>)
    ensures
        demo_gate_refuses(input.status, changed_by@) ==> (r matches Err(Error::Validation(m))
            && m@ == demo_gate_message(changed_by@)),
        !demo_gate_refuses(input.status, changed_by@) && blockers_refuse(input.status, open_blockers@)
            ==> (r matches Err(Error::Conflict(m)) && m@ == blocked_message(id, open_blockers@)),
        !demo_gate_refuses(input.status, changed_by@) && !blockers_refuse(input.status, open_blockers@)
            ==> (r matches Ok(plan) && plan.status == input.status
            && plan.clear_assignment == leaves_working(current, input.status)
            && history_views(plan.history@) == issue_update_rows(id, *input, changed_by@, current)),
        forall|h: Option<Seq<char>>| (r is Ok) == (#[trigger] update_next(
            IssueState { status: current, holder: h },
            input.status,
            changed_by@,
            open_blockers@,
        ) is Some),
{
    match issue_update_gate(input, changed_by) {
        Err(e) => { return Err(e); },
        Ok(()) => {},
    }
    let mut history: Vec<CreateHistoryInput> = Vec::new();
    let mut clear_assignment = false;
    match input.status {
        Some(s) => {
            if (matches!(s, IssueStatus::Working) || matches!(s, IssueStatus::Demo)
                || matches!(s, IssueStatus::Finished)) && open_blockers.len() > 0 {
                return Err(blocked_error(id, open_blockers));
            }
            clear_assignment = matches!(current, IssueStatus::Working) && !matches!(s, IssueStatus::Working);
            push_history(&mut history, history_entry(
                EntityType::Issue,
                id,
                "status",
                Some(String::from_str(current.as_str())),
                Some(String::from_str(s.as_str())),
                changed_by,
            ));
        },
        None => {},
    }
    assert(history_views(history@) =~= status_rows(id, input.status, changed_by@, current));
    push_new_value_row(&mut history, EntityType::Issue, "priority", id, opt_name_string(input.priority), changed_by);
    push_new_value_row(&mut history, EntityType::Issue, "title", id, input.title.clone(), changed_by);
    push_new_value_row(&mut history, EntityType::Issue, "description", id, input.description.clone(), changed_by);
    push_new_value_row(&mut history, EntityType::Issue, "goal", id, input.goal.clone(), changed_by);
    push_new_value_row(&mut history, EntityType::Issue, "epic_id", id, opt_decimal_string(input.epic_id), changed_by);
    Ok(IssueUpdatePlan { status: input.status, clear_assignment, history })
}

} // verus!

verus! {

/// What the decisions read of a stored issue: its status and the agent
/// holding it, if any.
pub struct IssueFacts {
    pub status: IssueStatus,
    pub assigned_agent: Option<String>,
}

/// The mathematical content of [`IssueFacts`].
pub struct IssueState {
    pub status: IssueStatus,
    pub holder: Option<Seq<char>>,
}

impl View for IssueFacts {
    type V = IssueState;

    open spec fn view(&self) -> IssueState {
        IssueState { status: self.status, holder: opt_view(self.assigned_agent) }
    }
}

impl IssueStatus {
    /// The variant name as `Debug` prints it (`Ready`, `Working`, ...).
    pub open spec fn debug_name(self) -> Seq<char> {
        match self {
            IssueStatus::Required => "Required"@,
            IssueStatus::Ready => "Ready"@,
            IssueStatus::Working => "Working"@,
            IssueStatus::Demo => "Demo"@,
            IssueStatus::Finished => "Finished"@,
            IssueStatus::Cancelled => "Cancelled"@,
        }
    }

    /// The variant name as `Debug` prints it.
    pub fn debug_str(&self) -> (r: &'static str)
        ensures
            r@ == self.debug_name(),
    {
        match self {
            IssueStatus::Required => "Required",
            IssueStatus::Ready => "Ready",
            IssueStatus::Working => "Working",
            IssueStatus::Demo => "Demo",
            IssueStatus::Finished => "Finished",
            IssueStatus::Cancelled => "Cancelled",
        }
    }
}

/// An optional agent name printed as `None` or `Some("name")`.
pub open spec fn holder_debug(h: Option<Seq<char>>) -> Seq<char> {
    match h {
        Some(a) => "Some(\""@ + a + "\")"@,
        None => "None"@,
    }
}

fn push_holder_debug(m: &mut String, h: &Option<String>)
    ensures
        final(m)@ == old(m)@ + holder_debug(opt_view(*h)),
{
    match h {
        Some(a) => {
            push_str(m, "Some(\"");
            push_str(m, a.as_str());
            push_str(m, "\")");
            assert(final(m)@ =~= old(m)@ + holder_debug(opt_view(*h)));
        },
        None => {
            push_str(m, "None");
        },
    }
}

/// Whether `agent` may take the issue: it is ready or working, and nobody
/// else holds it.
pub open spec fn claimable(s: IssueState, agent: Seq<char>) -> bool {
    (s.status is Ready || s.status is Working) && (s.holder is None || s.holder == Some(agent))
}

/// The issue after `agent` claims it, or `None` when the claim is refused
/// (an open blocker, or the issue is not claimable by this agent).
pub open spec fn claim_next(s: IssueState, agent: Seq<char>, blocked: bool) -> Option<IssueState> {
    if blocked || !claimable(s, agent) {
        None
    } else {
        Some(IssueState { status: IssueStatus::Working, holder: Some(agent) })
    }
}

/// The issue after `agent` releases it into status `to`, or `None` when
/// another agent holds it and `force` is not set.
pub open spec fn release_next(s: IssueState, agent: Seq<char>, to: IssueStatus, force: bool) -> Option<IssueState> {
    if !force && s.holder is Some && s.holder != Some(agent) {
        None
    } else {
        Some(IssueState { status: to, holder: None })
    }
}

/// The issue after the user finishes it: only the user, only from demo.
pub open spec fn finish_next(s: IssueState, by: Seq<char>) -> Option<IssueState> {
    if !is_user(by) || !(s.status is Demo) {
        None
    } else {
        Some(IssueState { status: IssueStatus::Finished, holder: None })
    }
}

/// The issue after the user cancels it: only the user, never once finished.
pub open spec fn cancel_next(s: IssueState, by: Seq<char>) -> Option<IssueState> {
    if !is_user(by) || s.status is Finished {
        None
    } else {
        Some(IssueState { status: IssueStatus::Cancelled, holder: None })
    }
}

/// The issue after a plain update of its status (`None` leaves it), or
/// `None` when the demo gate or an open blocker refuses it.
pub open spec fn update_next(s: IssueState, requested: Option<IssueStatus>, by: Seq<char>, open_blockers: Seq<i64>) -> Option<IssueState> {
    if demo_gate_refuses(requested, by) || blockers_refuse(requested, open_blockers) {
        None
    } else {
        match requested {
            Some(t) => Some(IssueState {
                status: t,
                holder: if leaves_working(s.status, requested) { None } else { s.holder },
            }),
            None => Some(s),
        }
    }
}

/// Message of a refused claim.
pub open spec fn held_message(id: i64, s: IssueState) -> Seq<char> {
    "issue:"@ + int_decimal(id as int) + " is already held by another agent (current: status="@
        + s.status.debug_name() + ", assigned_agent="@ + holder_debug(s.holder) + ")"@
}

/// Message of a refused release.
pub open spec fn release_refused_message(id: i64, holder: Seq<char>, agent: Seq<char>) -> Seq<char> {
    "issue:"@ + int_decimal(id as int) + " is held by '"@ + holder + "', cannot be released by '"@
        + agent + "' (use force=true to override)"@
}

/// A successful claim or release: the issue afterwards and the change-log
/// rows to write.
pub struct IssueMove {
    pub next: IssueFacts,
    pub history: Vec<CreateHistoryInput>,
}

/// The status row of a move, written only when the status changes.
pub open spec fn move_rows(id: i64, from: IssueStatus, to: IssueStatus, by: Seq<char>) -> Seq<HistoryView> {
    if from == to {
        Seq::empty()
    } else {
        seq![issue_row("status"@, id as int, Some(from.name()), Some(to.name()), by)]
    }
}

fn move_history(id: i64, from: IssueStatus, to: IssueStatus, by: &str) -> (v: Vec<CreateHistoryInput>)
    ensures
        history_views(v@) == move_rows(id, from, to, by@),
{
    let mut v: Vec<CreateHistoryInput> = Vec::new();
    if from != to {
        push_history(&mut v, history_entry(
            EntityType::Issue,
            id,
            "status",
            Some(String::from_str(from.as_str())),
            Some(String::from_str(to.as_str())),
            by,
        ));
    }
    assert(history_views(v@) =~= move_rows(id, from, to, by@));
    v
}

/// Decides a claim of issue `id` by `agent_id`, given the stored issue and
/// its open blockers. On success the issue is working and held by the
/// agent; the application writes that with a compare-and-set on the same
/// condition, so that a concurrent claim cannot slip in between.
pub fn plan_issue_claim(id: i64, current: &IssueFacts, agent_id: &str, open_blockers: &Vec<i64>) -> (r: Result<IssueMove, Error>)
    ensures
        open_blockers@.len() > 0 ==> (r matches Err(Error::Conflict(m)) && m@ == blocked_message(id, open_blockers@)),
        open_blockers@.len() == 0 && !claimable(current@, agent_id@) ==> (r matches Err(Error::Conflict(m))
            && m@ == held_message(id, current@)),
        r is Ok <==> claim_next(current@, agent_id@, open_blockers@.len() > 0) is Some,
        r matches Ok(mv) ==> Some(mv.next@) == claim_next(current@, agent_id@, false)
            && history_views(mv.history@) == move_rows(id, current.status, IssueStatus::Working, agent_id@),
{
    if open_blockers.len() > 0 {
        return Err(blocked_error(id, open_blockers));
    }
    let status_ok = matches!(current.status, IssueStatus::Ready) || matches!(current.status, IssueStatus::Working);
    let holder_ok = match &current.assigned_agent {
        None => true,
        Some(h) => str_eq(h.as_str(), agent_id),
    };
    if !(status_ok && holder_ok) {
        let mut m = String::from_str("issue:");
        push_i64(&mut m, id);
        push_str(&mut m, " is already held by another agent (current: status=");
        push_str(&mut m, current.status.debug_str());
        push_str(&mut m, ", assigned_agent=");
        push_holder_debug(&mut m, &current.assigned_agent);
        push_str(&mut m, ")");
        return Err(Error::Conflict(m));
    }
    let history = move_history(id, current.status, IssueStatus::Working, agent_id);
    Ok(IssueMove {
        next: IssueFacts { status: IssueStatus::Working, assigned_agent: Some(String::from_str(agent_id)) },
        history,
    })
}

/// Decides a release of issue `id` by `agent_id` into status
/// `transition_to`. Another agent's hold refuses it unless `force` is set.
/// A release always drops the hold.
pub fn plan_issue_release(
    id: i64,
    current: &IssueFacts,
    transition_to: IssueStatus,
    agent_id: &str,
    force: bool,
) -> (r: Result<IssueMove, Error>)
    ensures
        r is Ok <==> release_next(current@, agent_id@, transition_to, force) is Some,
        r matches Err(e) ==> (e matches Error::Conflict(m) && current@.holder matches Some(h)
            && m@ == release_refused_message(id, h, agent_id@)),
        r matches Ok(mv) ==> Some(mv.next@) == release_next(current@, agent_id@, transition_to, force)
            && history_views(mv.history@) == move_rows(id, current.status, transition_to, agent_id@),
{
    if !force {
        if let Some(holder) = &current.assigned_agent {
            if !str_eq(holder.as_str(), agent_id) {
                let mut m = String::from_str("issue:");
                push_i64(&mut m, id);
                push_str(&mut m, " is held by '");
                push_str(&mut m, holder.as_str());
                push_str(&mut m, "', cannot be released by '");
                push_str(&mut m, agent_id);
                push_str(&mut m, "' (use force=true to override)");
                return Err(Error::Conflict(m));
            }
        }
    }
    let history = move_history(id, current.status, transition_to, agent_id);
    Ok(IssueMove { next: IssueFacts { status: transition_to, assigned_agent: None }, history })
}

/// The first check of finishing, made before the issue is read.
pub fn issue_finish_gate(changed_by: &str) -> (r: Result<(), Error>)
    ensures
        r is Err <==> !is_user(changed_by@),
        r matches Err(e) ==> (e matches Error::Validation(m) && m@ == "issue_finish 는 사용자 전용입니다"@),
{
    if str_eq(changed_by, "user") {
        Ok(())
    } else {
        Err(Error::Validation(String::from_str("issue_finish 는 사용자 전용입니다")))
    }
}

/// Message of a refused finish.
pub open spec fn finish_refused_message(current: IssueStatus) -> Seq<char> {
    "demo 상태의 이슈만 finished 로 전이할 수 있습니다 (현재 상태: "@ + current.debug_name() + ")"@
}

/// Decides finishing issue `id`: only the user, only from demo. The issue
/// becomes finished and nobody holds it.
pub fn plan_issue_finish(id: i64, current: &IssueFacts, changed_by: &str) -> (r: Result<IssueMove, Error>)
    ensures
        r is Ok <==> finish_next(current@, changed_by@) is Some,
        !is_user(changed_by@) ==> (r matches Err(Error::Validation(m)) && m@ == "issue_finish 는 사용자 전용입니다"@),
        is_user(changed_by@) && !(current.status is Demo) ==> (r matches Err(Error::Conflict(m))
            && m@ == finish_refused_message(current.status)),
        r matches Ok(mv) ==> Some(mv.next@) == finish_next(current@, changed_by@)
            && history_views(mv.history@) == seq![issue_row("status"@, id as int, Some("demo"@), Some("finished"@), changed_by@)],
{
    match issue_finish_gate(changed_by) {
        Err(e) => { return Err(e); },
        Ok(()) => {},
    }
    if !matches!(current.status, IssueStatus::Demo) {
        let mut m = String::from_str("demo 상태의 이슈만 finished 로 전이할 수 있습니다 (현재 상태: ");
        push_str(&mut m, current.status.debug_str());
        push_str(&mut m, ")");
        return Err(Error::Conflict(m));
    }
    let mut history: Vec<CreateHistoryInput> = Vec::new();
    push_history(&mut history, history_entry(
        EntityType::Issue,
        id,
        "status",
        Some(String::from_str("demo")),
        Some(String::from_str("finished")),
        changed_by,
    ));
    assert(history_views(history@) =~= seq![issue_row("status"@, id as int, Some("demo"@), Some("finished"@), changed_by@)]);
    Ok(IssueMove { next: IssueFacts { status: IssueStatus::Finished, assigned_agent: None }, history })
}

/// The first check of cancelling, made before the issue is read.
pub fn issue_cancel_gate(changed_by: &str) -> (r: Result<(), Error>)
    ensures
        r is Err <==> !is_user(changed_by@),
        r matches Err(e) ==> (e matches Error::Validation(m) && m@ == "issue_cancel 은 사용자 전용입니다"@),
{
    if str_eq(changed_by, "user") {
        Ok(())
    } else {
        Err(Error::Validation(String::from_str("issue_cancel 은 사용자 전용입니다")))
    }
}

/// Decides cancelling issue `id` for `reason`: only the user, never once
/// finished. The change log records the status move and the reason.
pub fn plan_issue_cancel(id: i64, current: &IssueFacts, reason: &str, changed_by: &str) -> (r: Result<IssueMove, Error>)
    ensures
        r is Ok <==> cancel_next(current@, changed_by@) is Some,
        !is_user(changed_by@) ==> (r matches Err(Error::Validation(m)) && m@ == "issue_cancel 은 사용자 전용입니다"@),
        is_user(changed_by@) && current.status is Finished ==> (r matches Err(Error::Conflict(m))
            && m@ == "이미 finished 로 종결된 이슈는 cancelled 로 전이할 수 없습니다"@),
        r matches Ok(mv) ==> Some(mv.next@) == cancel_next(current@, changed_by@)
            && history_views(mv.history@) == seq![
                issue_row("status"@, id as int, Some(current.status.name()), Some("cancelled"@), changed_by@),
                issue_row("cancel_reason"@, id as int, None, Some(reason@), changed_by@),
            ],
{
    match issue_cancel_gate(changed_by) {
        Err(e) => { return Err(e); },
        Ok(()) => {},
    }
    if matches!(current.status, IssueStatus::Finished) {
        return Err(Error::Conflict(String::from_str("이미 finished 로 종결된 이슈는 cancelled 로 전이할 수 없습니다")));
    }
    let mut history: Vec<CreateHistoryInput> = Vec::new();
    push_history(&mut history, history_entry(
        EntityType::Issue,
        id,
        "status",
        Some(String::from_str(current.status.as_str())),
        Some(String::from_str("cancelled")),
        changed_by,
    ));
    push_history(&mut history, history_entry(
        EntityType::Issue,
        id,
        "cancel_reason",
        None,
        Some(String::from_str(reason)),
        changed_by,
    ));
    assert(history_views(history@) =~= seq![
        issue_row("status"@, id as int, Some(current.status.name()), Some("cancelled"@), changed_by@),
        issue_row("cancel_reason"@, id as int, None, Some(reason@), changed_by@),
    ]);
    Ok(IssueMove { next: IssueFacts { status: IssueStatus::Cancelled, assigned_agent: None }, history })
}

/// Once an agent has claimed an issue, no other agent can claim it, whether
/// or not a blocker appears in between.
pub proof fn law_claim_excludes_other_agents(s: IssueState, a: Seq<char>, b: Seq<char>, blocked: bool)
    requires
        claim_next(s, a, false) is Some,
        a != b,
    ensures
        claim_next(claim_next(s, a, false).unwrap(), b, blocked) is None,
{
}

/// Claiming an issue one already holds succeeds again, changes nothing and
/// writes no change-log row.
pub proof fn law_claim_is_idempotent(s: IssueState, a: Seq<char>, id: i64)
    requires
        claim_next(s, a, false) is Some,
    ensures
        claim_next(claim_next(s, a, false).unwrap(), a, false) == claim_next(s, a, false),
        move_rows(id, IssueStatus::Working, IssueStatus::Working, a) =~= Seq::<HistoryView>::empty(),
{
}

/// An issue held by one agent cannot be released by another unless the
/// release is forced; the holder itself, or a forced release, always
/// succeeds and leaves the issue unheld in the requested status.
pub proof fn law_release_respects_the_hold(s: IssueState, a: Seq<char>, b: Seq<char>, to: IssueStatus)
    requires
        s.holder == Some(a),
        a != b,
    ensures
        release_next(s, b, to, false) is None,
        release_next(s, b, to, true) == Some(IssueState { status: to, holder: None }),
        release_next(s, a, to, false) == Some(IssueState { status: to, holder: None }),
{
}

/// An issue released back to ready can be claimed by any agent.
pub proof fn law_released_issue_is_claimable(s: IssueState, a: Seq<char>, b: Seq<char>, force: bool)
    requires
        release_next(s, a, IssueStatus::Ready, force) is Some,
    ensures
        claim_next(release_next(s, a, IssueStatus::Ready, force).unwrap(), b, false)
            == Some(IssueState { status: IssueStatus::Working, holder: Some(b) }),
{
}

/// Only the user brings an issue to finished or cancelled: an agent's
/// finish or cancel is refused, and an agent's plain update never lands in
/// either status.
pub proof fn law_only_the_user_closes_issues(
    s: IssueState,
    by: Seq<char>,
    requested: Option<IssueStatus>,
    open_blockers: Seq<i64>,
)
    requires
        !is_user(by),
    ensures
        finish_next(s, by) is None,
        cancel_next(s, by) is None,
        update_next(s, requested, by, open_blockers) matches Some(t) ==> !user_only_status(t.status)
            || t.status == s.status,
{
}

/// While an issue has an open blocker it can neither be claimed nor moved
/// to working, demo or finished; it can still move to required or ready,
/// and the user can still cancel it.
pub proof fn law_blocked_issue_cannot_start(
    s: IssueState,
    agent: Seq<char>,
    by: Seq<char>,
    target: IssueStatus,
    open_blockers: Seq<i64>,
)
    requires
        open_blockers.len() > 0,
    ensures
        claim_next(s, agent, true) is None,
        needs_unblocked(target) ==> update_next(s, Some(target), by, open_blockers) is None,
        (target is Required || target is Ready) ==> update_next(s, Some(target), by, open_blockers) is Some,
        is_user(by) ==> update_next(s, Some(IssueStatus::Cancelled), by, open_blockers) is Some,
{
}

/// Moving a working issue to any other status drops its holder; other moves
/// keep it.
pub proof fn law_leaving_working_drops_the_holder(s: IssueState, t: IssueStatus, by: Seq<char>, open_blockers: Seq<i64>)
    requires
        update_next(s, Some(t), by, open_blockers) is Some,
    ensures
        s.status is Working && !(t is Working) ==> update_next(s, Some(t), by, open_blockers).unwrap().holder is None,
        !(s.status is Working && !(t is Working)) ==> update_next(s, Some(t), by, open_blockers).unwrap().holder == s.holder,
{
}

/// A finished issue is never cancelled, and only a demo issue is finished.
pub proof fn law_finish_and_cancel_are_final(s: IssueState, by: Seq<char>)
    ensures
        s.status is Finished ==> cancel_next(s, by) is None,
        finish_next(s, by) is Some ==> s.status is Demo,
{
}

} // verus!
