//! The change-log rows and refusals of edits to epics, missions, sprints,
//! tasks, notes and task checklists, and the single-active-sprint rule.
use vstd::prelude::*;
use crate::enums::{EntityType, EpicStatus, MissionStatus, SprintStatus, TaskStatus};
use crate::issue_flow::{new_value_rows, push_new_value_row};
use crate::models::{
    history_entry, history_views, opt_view, push_history, CreateHistoryInput, HistoryView, UpdateEpicInput,
    UpdateMissionInput, UpdateSprintInput, UpdateTaskInput,
};
use crate::text::{i64_to_string, int_decimal, push_i64, push_str, str_eq};
use crate::Error;

verus! {

/// The name of an optional epic status.
pub open spec fn opt_epic_status_name(s: Option<EpicStatus>) -> Option<Seq<char>> {
    match s { Some(v) => Some(v.name()), None => None }
}

/// The name of an optional mission status.
pub open spec fn opt_mission_status_name(s: Option<MissionStatus>) -> Option<Seq<char>> {
    match s { Some(v) => Some(v.name()), None => None }
}

/// The name of an optional task status.
pub open spec fn opt_task_status_name(s: Option<TaskStatus>) -> Option<Seq<char>> {
    match s { Some(v) => Some(v.name()), None => None }
}

/// The decimal rendering of an optional id.
pub open spec fn opt_id_text(n: Option<i64>) -> Option<Seq<char>> {
    match n { Some(v) => Some(int_decimal(v as int)), None => None }
}

/// A sprint id as stored in the change log: its decimal rendering, or
/// `null` for the backlog.
pub open spec fn sprint_text(n: Option<i64>) -> Seq<char> {
    match n { Some(v) => int_decimal(v as int), None => "null"@ }
}

/// The change-log row of moving an epic between sprints: none when the
/// sprint does not change.
pub open spec fn epic_sprint_rows(id: i64, current: Option<i64>, new: Option<i64>, by: Seq<char>) -> Seq<HistoryView> {
    if current == new {
        Seq::empty()
    } else {
        seq![HistoryView {
            entity_type: EntityType::Epic,
            entity_id: id as int,
            field: "sprint_id"@,
            old_value: Some(sprint_text(current)),
            new_value: Some(sprint_text(new)),
            changed_by: by,
        }]
    }
}

/// The change-log rows of an epic update, in the order they are written:
/// the new title, description, status and mission, then the sprint move
/// when the sprint is to be set (`current_sprint` is the stored one).
pub open spec fn epic_update_rows(id: i64, input: UpdateEpicInput, by: Seq<char>, current_sprint: Option<i64>) -> Seq<HistoryView> {
    let i = id as int;
    new_value_rows(EntityType::Epic, "title"@, i, opt_view(input.title), by)
        + new_value_rows(EntityType::Epic, "description"@, i, opt_view(input.description), by)
        + new_value_rows(EntityType::Epic, "status"@, i, opt_epic_status_name(input.status), by)
        + new_value_rows(EntityType::Epic, "mission_id"@, i, opt_id_text(input.mission_id), by)
        + (if input.update_sprint_id { epic_sprint_rows(id, current_sprint, input.sprint_id, by) } else { Seq::empty() })
}

fn sprint_text_of(n: Option<i64>) -> (r: String)
    ensures
        r@ == sprint_text(n),
{
    match n {
        Some(v) => i64_to_string(v),
        None => String::from_str("null"),
    }
}

fn push_rows_of_epic_sprint(v: &mut Vec<CreateHistoryInput>, id: i64, current: Option<i64>, new: Option<i64>, by: &str)
    ensures
        history_views(final(v)@) == history_views(old(v)@) + epic_sprint_rows(id, current, new, by@),
{
    if current != new {
        let h = history_entry(EntityType::Epic, id, "sprint_id", Some(sprint_text_of(current)), Some(sprint_text_of(new)), by);
        push_history(v, h);
        assert(history_views(old(v)@).push(h@) =~= history_views(old(v)@) + seq![h@]);
    } else {
        assert(history_views(old(v)@) + Seq::<HistoryView>::empty() =~= history_views(old(v)@));
    }
}

/// The change-log row of moving an epic from `current` to `new`; see
/// [`epic_sprint_rows`].
pub fn epic_sprint_history(id: i64, current: Option<i64>, new: Option<i64>, changed_by: &str) -> (r: Vec<CreateHistoryInput>)
    ensures
        history_views(r@) == epic_sprint_rows(id, current, new, changed_by@),
{
    let mut v: Vec<CreateHistoryInput> = Vec::new();
    push_rows_of_epic_sprint(&mut v, id, current, new, changed_by);
    assert(history_views(Seq::<CreateHistoryInput>::empty()) + epic_sprint_rows(id, current, new, changed_by@)
        =~= epic_sprint_rows(id, current, new, changed_by@));
    v
}

fn opt_text_of<'a>(s: &'a Option<String>) -> (r: Option<String>)
    ensures
        opt_view(r) == opt_view(*s),
{
    match s {
        Some(t) => Some(t.clone()),
        None => None,
    }
}

/// The change-log rows of an epic update; see [`epic_update_rows`].
pub fn epic_update_history(id: i64, input: &UpdateEpicInput, changed_by: &str, current_sprint: Option<i64>) -> (r: Vec<CreateHistoryInput>)
    ensures
        history_views(r@) == epic_update_rows(id, *input, changed_by@, current_sprint),
{
    let mut v: Vec<CreateHistoryInput> = Vec::new();
    push_new_value_row(&mut v, EntityType::Epic, "title", id, opt_text_of(&input.title), changed_by);
    push_new_value_row(&mut v, EntityType::Epic, "description", id, opt_text_of(&input.description), changed_by);
    let status = match input.status {
        Some(s) => Some(String::from_str(s.as_str())),
        None => None,
    };
    push_new_value_row(&mut v, EntityType::Epic, "status", id, status, changed_by);
    let mission = match input.mission_id {
        Some(m) => Some(i64_to_string(m)),
        None => None,
    };
    push_new_value_row(&mut v, EntityType::Epic, "mission_id", id, mission, changed_by);
    let ghost before_sprint = history_views(v@);
    if input.update_sprint_id {
        push_rows_of_epic_sprint(&mut v, id, current_sprint, input.sprint_id, changed_by);
    } else {
        assert(before_sprint + Seq::<HistoryView>::empty() =~= before_sprint);
    }
    assert(history_views(Seq::<CreateHistoryInput>::empty()) =~= Seq::<HistoryView>::empty());
    assert(history_views(v@) =~= epic_update_rows(id, *input, changed_by@, current_sprint));
    v
}

/// Moving an epic to the sprint it is already in writes no change-log row;
/// any other move writes exactly one, from the old sprint to the new.
pub proof fn law_epic_sprint_move_logged_once(id: i64, current: Option<i64>, new: Option<i64>, by: Seq<char>)
    ensures
        current == new ==> epic_sprint_rows(id, current, new, by).len() == 0,
        current != new ==> epic_sprint_rows(id, current, new, by).len() == 1
            && epic_sprint_rows(id, current, new, by)[0].old_value == Some(sprint_text(current))
            && epic_sprint_rows(id, current, new, by)[0].new_value == Some(sprint_text(new)),
{
}

/// The change-log row of deleting an epic: its title as the old value.
pub fn epic_delete_history(id: i64, title: &str, changed_by: &str) -> (r: CreateHistoryInput)
    ensures
        r@ == (HistoryView {
            entity_type: EntityType::Epic,
            entity_id: id as int,
            field: "deleted"@,
            old_value: Some(title@),
            new_value: None,
            changed_by: changed_by@,
        }),
{
    history_entry(EntityType::Epic, id, "deleted", Some(String::from_str(title)), None, changed_by)
}

/// The change-log rows of a mission update, in the order they are written:
/// the new title, description, Jira key and status.
pub open spec fn mission_update_rows(id: i64, input: UpdateMissionInput, by: Seq<char>) -> Seq<HistoryView> {
    let i = id as int;
    new_value_rows(EntityType::Mission, "title"@, i, opt_view(input.title), by)
        + new_value_rows(EntityType::Mission, "description"@, i, opt_view(input.description), by)
        + new_value_rows(EntityType::Mission, "jira_key"@, i, opt_view(input.jira_key), by)
        + new_value_rows(EntityType::Mission, "status"@, i, opt_mission_status_name(input.status), by)
}

/// The change-log rows of a mission update; see [`mission_update_rows`].
pub fn mission_update_history(id: i64, input: &UpdateMissionInput, changed_by: &str) -> (r: Vec<CreateHistoryInput>)
    ensures
        history_views(r@) == mission_update_rows(id, *input, changed_by@),
{
    let mut v: Vec<CreateHistoryInput> = Vec::new();
    push_new_value_row(&mut v, EntityType::Mission, "title", id, opt_text_of(&input.title), changed_by);
    push_new_value_row(&mut v, EntityType::Mission, "description", id, opt_text_of(&input.description), changed_by);
    push_new_value_row(&mut v, EntityType::Mission, "jira_key", id, opt_text_of(&input.jira_key), changed_by);
    let status = match input.status {
        Some(s) => Some(String::from_str(s.as_str())),
        None => None,
    };
    push_new_value_row(&mut v, EntityType::Mission, "status", id, status, changed_by);
    assert(history_views(Seq::<CreateHistoryInput>::empty()) =~= Seq::<HistoryView>::empty());
    assert(history_views(v@) =~= mission_update_rows(id, *input, changed_by@));
    v
}

/// Whether `pat` occurs in `s`.
pub open spec fn occurs_in(pat: Seq<char>, s: Seq<char>) -> bool {
    exists|i: int| 0 <= i && i + pat.len() <= s.len() && #[trigger] s.subrange(i, i + pat.len()) == pat
}

/// Whether `pat` occurs in `s`.
pub fn contains_text(s: &str, pat: &str) -> (r: bool)
    ensures
        r == occurs_in(pat@, s@),
{
    let n = s.unicode_len();
    let m = pat.unicode_len();
    if m > n {
        return false;
    }
    let mut i: usize = 0;
    while i <= n - m
        invariant
            n == s@.len(),
            m == pat@.len(),
            m <= n,
            i <= n - m + 1,
            forall|j: int| 0 <= j < i ==> #[trigger] s@.subrange(j, j + m) != pat@,
        decreases n - m + 1 - i,
    {
        let mut k: usize = 0;
        while k < m && s.get_char(i + k) == pat.get_char(k)
            invariant
                k <= m,
                i + m <= n,
                n == s@.len(),
                m == pat@.len(),
                forall|t: int| 0 <= t < k ==> s@[i + t] == pat@[t],
            decreases m - k,
        {
            k = k + 1;
        }
        if k == m {
            assert(s@.subrange(i as int, i + m) =~= pat@);
            return true;
        }
        assert(s@.subrange(i as int, i + m)[k as int] != pat@[k as int]);
        i = i + 1;
    }
    false
}

/// The message of a refused duplicate Jira key.
pub open spec fn duplicate_jira_key_message(key: Seq<char>) -> Seq<char> {
    "jira_key '"@ + key + "' already exists"@
}

/// Classifies a failed mission write: a violated uniqueness constraint is a
/// duplicate Jira key (`Validation`), anything else a storage error.
pub fn jira_key_write_error(jira_key: &str, db_message: &str) -> (r: Error)
    ensures
        occurs_in("UNIQUE constraint failed"@, db_message@) ==> (r matches Error::Validation(m) && m@ == duplicate_jira_key_message(jira_key@)),
        !occurs_in("UNIQUE constraint failed"@, db_message@) ==> (r matches Error::Db(m) && m@ == db_message@),
{
    if contains_text(db_message, "UNIQUE constraint failed") {
        let mut m = String::from_str("jira_key '");
        push_str(&mut m, jira_key);
        push_str(&mut m, "' already exists");
        Error::Validation(m)
    } else {
        Error::Db(String::from_str(db_message))
    }
}

/// The message of a refused mission deletion.
pub open spec fn mission_has_epics_message(id: i64, count: i64) -> Seq<char> {
    "mission:"@ + int_decimal(id as int) + " has "@ + int_decimal(count as int) + " child epics, cannot delete"@
}

/// A mission can be deleted only when no epic belongs to it.
pub fn mission_delete_check(id: i64, epic_count: i64) -> (r: Result<(), Error>)
    ensures
        epic_count <= 0 ==> r is Ok,
        epic_count > 0 ==> (r matches Err(Error::Validation(m)) && m@ == mission_has_epics_message(id, epic_count)),
{
    if epic_count > 0 {
        let mut m = String::from_str("mission:");
        push_i64(&mut m, id);
        push_str(&mut m, " has ");
        push_i64(&mut m, epic_count);
        push_str(&mut m, " child epics, cannot delete");
        Err(Error::Validation(m))
    } else {
        Ok(())
    }
}

/// The message of a missing record: its kind and id, as in `epic:7`.
pub open spec fn not_found_message(kind: Seq<char>, id: i64) -> Seq<char> {
    kind + ":"@ + int_decimal(id as int)
}

/// The error for a missing record of kind `kind` (`epic`, `issue`, ...).
pub fn not_found(kind: &str, id: i64) -> (r: Error)
    ensures
        r matches Error::NotFound(m) && m@ == not_found_message(kind@, id),
{
    let mut m = String::from_str(kind);
    push_str(&mut m, ":");
    push_i64(&mut m, id);
    Error::NotFound(m)
}

/// The change-log rows of a task update, in the order they are written: the
/// new status and title (description and goal are not logged).
pub open spec fn task_update_rows(id: i64, input: UpdateTaskInput, by: Seq<char>) -> Seq<HistoryView> {
    let i = id as int;
    new_value_rows(EntityType::Task, "status"@, i, opt_task_status_name(input.status), by)
        + new_value_rows(EntityType::Task, "title"@, i, opt_view(input.title), by)
}

/// The change-log rows of a task update; see [`task_update_rows`].
pub fn task_update_history(id: i64, input: &UpdateTaskInput, changed_by: &str) -> (r: Vec<CreateHistoryInput>)
    ensures
        history_views(r@) == task_update_rows(id, *input, changed_by@),
{
    let mut v: Vec<CreateHistoryInput> = Vec::new();
    let status = match input.status {
        Some(s) => Some(String::from_str(s.as_str())),
        None => None,
    };
    push_new_value_row(&mut v, EntityType::Task, "status", id, status, changed_by);
    push_new_value_row(&mut v, EntityType::Task, "title", id, opt_text_of(&input.title), changed_by);
    assert(history_views(Seq::<CreateHistoryInput>::empty()) =~= Seq::<HistoryView>::empty());
    assert(history_views(v@) =~= task_update_rows(id, *input, changed_by@));
    v
}

/// The text of a flag in the change log.
pub open spec fn flag_text(b: bool) -> Seq<char> {
    if b { "true"@ } else { "false"@ }
}

fn flag_string(b: bool) -> (r: String)
    ensures
        r@ == flag_text(b),
{
    if b { String::from_str("true") } else { String::from_str("false") }
}

/// The change-log row of resolving a note.
pub fn note_resolve_history(id: i64, changed_by: &str) -> (r: CreateHistoryInput)
    ensures
        r@ == (HistoryView {
            entity_type: EntityType::Note,
            entity_id: id as int,
            field: "resolved"@,
            old_value: Some(flag_text(false)),
            new_value: Some(flag_text(true)),
            changed_by: changed_by@,
        }),
{
    history_entry(EntityType::Note, id, "resolved", Some(flag_string(false)), Some(flag_string(true)), changed_by)
}

/// The change-log row of checking (`checked`) or unchecking a task
/// checklist item; it is recorded against the item's id as a task row.
pub fn task_test_check_history(id: i64, checked: bool, changed_by: &str) -> (r: CreateHistoryInput)
    ensures
        r@ == (HistoryView {
            entity_type: EntityType::Task,
            entity_id: id as int,
            field: "task_test.checked"@,
            old_value: Some(flag_text(!checked)),
            new_value: Some(flag_text(checked)),
            changed_by: changed_by@,
        }),
{
    history_entry(EntityType::Task, id, "task_test.checked", Some(flag_string(!checked)), Some(flag_string(checked)), changed_by)
}

/// What a sprint update writes: the sprints demoted from active to
/// planning, and the change-log rows in order.
pub struct SprintUpdatePlan {
    pub demoted: Vec<i64>,
    pub history: Vec<CreateHistoryInput>,
}

/// The ids of the active sprints of `table` other than `id`, in order.
pub open spec fn other_active(table: Seq<(i64, SprintStatus)>, id: i64) -> Seq<i64>
    decreases table.len(),
{
    if table.len() == 0 {
        Seq::empty()
    } else if table.last().1 == SprintStatus::Active && table.last().0 != id {
        other_active(table.drop_last(), id).push(table.last().0)
    } else {
        other_active(table.drop_last(), id)
    }
}

/// The sprints demoted by an update that sets `status`: every other active
/// sprint when the new status is active, none otherwise.
pub open spec fn demoted_sprints(table: Seq<(i64, SprintStatus)>, id: i64, status: Option<SprintStatus>) -> Seq<i64> {
    if status == Some(SprintStatus::Active) { other_active(table, id) } else { Seq::empty() }
}

/// One change-log row per demoted sprint: active to planning.
pub open spec fn demotion_rows(ids: Seq<i64>, by: Seq<char>) -> Seq<HistoryView>
    decreases ids.len(),
{
    if ids.len() == 0 {
        Seq::empty()
    } else {
        demotion_rows(ids.drop_last(), by).push(HistoryView {
            entity_type: EntityType::Sprint,
            entity_id: ids.last() as int,
            field: "status"@,
            old_value: Some("active"@),
            new_value: Some("planning"@),
            changed_by: by,
        })
    }
}

/// The change-log rows of a sprint update, in order: the demotions, the new
/// status, the new name.
pub open spec fn sprint_update_rows(table: Seq<(i64, SprintStatus)>, id: i64, input: UpdateSprintInput, by: Seq<char>) -> Seq<HistoryView> {
    let status_name = match input.status { Some(s) => Some(s.name()), None => None };
    demotion_rows(demoted_sprints(table, id, input.status), by)
        + new_value_rows(EntityType::Sprint, "status"@, id as int, status_name, by)
        + new_value_rows(EntityType::Sprint, "name"@, id as int, opt_view(input.name), by)
}

/// Decides a sprint update against the current sprints `(id, status)`:
/// making a sprint active demotes every other active sprint to planning, so
/// that at most one sprint is active.
pub fn plan_sprint_update(id: i64, input: &UpdateSprintInput, table: &Vec<(i64, SprintStatus)>, changed_by: &str) -> (r: SprintUpdatePlan)
    ensures
        r.demoted@ == demoted_sprints(table@, id, input.status),
        history_views(r.history@) == sprint_update_rows(table@, id, *input, changed_by@),
{
    let mut demoted: Vec<i64> = Vec::new();
    let mut history: Vec<CreateHistoryInput> = Vec::new();
    let activating = match input.status {
        Some(SprintStatus::Active) => true,
        _ => false,
    };
    if activating {
        let mut k: usize = 0;
        while k < table.len()
            invariant
                k <= table@.len(),
                demoted@ == other_active(table@.take(k as int), id),
                history_views(history@) == demotion_rows(demoted@, changed_by@),
            decreases table@.len() - k,
        {
            assert(table@.take(k + 1).drop_last() =~= table@.take(k as int));
            let (sid, st) = table[k];
            if st == SprintStatus::Active && sid != id {
                let ghost before = demoted@;
                demoted.push(sid);
                assert(demoted@.drop_last() =~= before);
                let h = history_entry(EntityType::Sprint, sid, "status", Some(String::from_str("active")), Some(String::from_str("planning")), changed_by);
                push_history(&mut history, h);
            }
            k = k + 1;
        }
        assert(table@.take(k as int) =~= table@);
    }
    let status = match input.status {
        Some(s) => Some(String::from_str(s.as_str())),
        None => None,
    };
    push_new_value_row(&mut history, EntityType::Sprint, "status", id, status, changed_by);
    push_new_value_row(&mut history, EntityType::Sprint, "name", id, opt_text_of(&input.name), changed_by);
    proof {
        if !activating {
            assert(demotion_rows(Seq::<i64>::empty(), changed_by@) =~= Seq::<HistoryView>::empty());
            assert(history_views(Seq::<CreateHistoryInput>::empty()) =~= Seq::<HistoryView>::empty());
        }
    }
    assert(history_views(history@) =~= sprint_update_rows(table@, id, *input, changed_by@));
    SprintUpdatePlan { demoted, history }
}

/// The sprint statuses after an update of sprint `id` to `status` with its
/// demotions applied.
pub open spec fn sprints_after(table: Seq<(i64, SprintStatus)>, id: i64, status: Option<SprintStatus>) -> Seq<(i64, SprintStatus)> {
    Seq::new(table.len(), |i: int|
        if table[i].0 == id {
            match status { Some(s) => (id, s), None => table[i] }
        } else if demoted_sprints(table, id, status).contains(table[i].0) {
            (table[i].0, SprintStatus::Planning)
        } else {
            table[i]
        }
    )
}

/// At most one sprint of `table` is active (ids may repeat only with the
/// same row).
pub open spec fn single_active(table: Seq<(i64, SprintStatus)>) -> bool {
    forall|a: int, b: int| 0 <= a < table.len() && 0 <= b < table.len()
        && table[a].1 == SprintStatus::Active && table[b].1 == SprintStatus::Active ==> table[a].0 == table[b].0
}

proof fn lemma_other_active_has(table: Seq<(i64, SprintStatus)>, id: i64, i: int)
    requires
        0 <= i < table.len(),
        table[i].1 == SprintStatus::Active,
        table[i].0 != id,
    ensures
        other_active(table, id).contains(table[i].0),
    decreases table.len(),
{
    let t = table.drop_last();
    if i < t.len() {
        assert(t[i] == table[i]);
        lemma_other_active_has(t, id, i);
        let q = choose|q: int| 0 <= q < other_active(t, id).len() && other_active(t, id)[q] == table[i].0;
        assert(other_active(table, id)[q] == table[i].0);
    } else {
        let o = other_active(table, id);
        assert(o[o.len() - 1] == table[i].0);
    }
}

/// Making a sprint active leaves it the only active sprint; any other
/// update keeps at most one sprint active.
pub proof fn law_single_active_sprint(table: Seq<(i64, SprintStatus)>, id: i64, status: Option<SprintStatus>)
    requires
        status != Some(SprintStatus::Active) ==> single_active(table),
    ensures
        status == Some(SprintStatus::Active) ==> forall|i: int| 0 <= i < table.len()
            && (#[trigger] sprints_after(table, id, status)[i]).1 == SprintStatus::Active ==> sprints_after(table, id, status)[i].0 == id,
        single_active(sprints_after(table, id, status)),
{
    let after = sprints_after(table, id, status);
    if status == Some(SprintStatus::Active) {
        assert forall|i: int| 0 <= i < table.len() && (#[trigger] after[i]).1 == SprintStatus::Active implies after[i].0 == id by {
            if table[i].0 != id {
                if table[i].1 == SprintStatus::Active {
                    lemma_other_active_has(table, id, i);
                }
            }
        }
    } else {
        assert forall|a: int, b: int| 0 <= a < after.len() && 0 <= b < after.len()
            && after[a].1 == SprintStatus::Active && after[b].1 == SprintStatus::Active implies after[a].0 == after[b].0 by {
            assert(demoted_sprints(table, id, status) =~= Seq::<i64>::empty());
            if table[a].0 == id {
            } else {
                assert(after[a] == table[a]);
            }
            if table[b].0 == id {
            } else {
                assert(after[b] == table[b]);
            }
        }
    }
}

} // verus!
