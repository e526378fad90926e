//! The plain-text forms handed to agents (the agent and ref output modes)
//! and the shortened texts of the compact mode.
use vstd::prelude::*;
use crate::enums::{TaskSource, TaskStatus};
use crate::models::{opt_view, Epic, Issue, NextTask, Note, StalledIssue};
use crate::records::flag_text;
use crate::text::{int_decimal, push_i64, push_str, truncate_chars, truncate_with_ellipsis};

verus! {

/// An id as shown to agents, or `None`.
pub open spec fn id_or_none(o: Option<i64>) -> Seq<char> {
    match o { Some(v) => int_decimal(v as int), None => "None"@ }
}

fn push_id_or_none(s: &mut String, o: Option<i64>)
    ensures
        final(s)@ == old(s)@ + id_or_none(o),
{
    match o {
        Some(v) => push_i64(s, v),
        None => push_str(s, "None"),
    }
}

fn push_flag(s: &mut String, b: bool)
    ensures
        final(s)@ == old(s)@ + flag_text(b),
{
    if b { push_str(s, "true") } else { push_str(s, "false") }
}

/// The agent text of an epic.
pub open spec fn epic_agent_text(e: Epic) -> Seq<char> {
    "=== EPIC SPECIFICATION ===\n"@
        + "ID: #"@ + int_decimal(e.id as int) + "\n"@
        + "Project Key: "@ + e.project_key@ + "\n"@
        + "Mission ID: "@ + id_or_none(e.mission_id) + "\n"@
        + "Sprint ID: "@ + id_or_none(e.sprint_id) + "\n"@
        + "Title: "@ + e.title@ + "\n"@
        + "Status: "@ + e.status.name() + "\n"@
        + "Created At: "@ + e.created_at@ + "\n"@
        + "Updated At: "@ + e.updated_at@ + "\n"@
        + "\n[Description]\n"@
        + (match e.description { Some(d) => d@, None => "None"@ })
        + "\n=========================="@
}

/// The agent text of an epic; see [`epic_agent_text`].
pub fn format_agent_epic_text(epic: &Epic) -> (r: String)
    ensures
        r@ == epic_agent_text(*epic),
{
    let mut out = String::from_str("=== EPIC SPECIFICATION ===\n");
    push_str(&mut out, "ID: #");
    push_i64(&mut out, epic.id);
    push_str(&mut out, "\n");
    push_str(&mut out, "Project Key: ");
    push_str(&mut out, epic.project_key.as_str());
    push_str(&mut out, "\n");
    push_str(&mut out, "Mission ID: ");
    push_id_or_none(&mut out, epic.mission_id);
    push_str(&mut out, "\n");
    push_str(&mut out, "Sprint ID: ");
    push_id_or_none(&mut out, epic.sprint_id);
    push_str(&mut out, "\n");
    push_str(&mut out, "Title: ");
    push_str(&mut out, epic.title.as_str());
    push_str(&mut out, "\n");
    push_str(&mut out, "Status: ");
    push_str(&mut out, epic.status.as_str());
    push_str(&mut out, "\n");
    push_str(&mut out, "Created At: ");
    push_str(&mut out, epic.created_at.as_str());
    push_str(&mut out, "\n");
    push_str(&mut out, "Updated At: ");
    push_str(&mut out, epic.updated_at.as_str());
    push_str(&mut out, "\n");
    push_str(&mut out, "\n[Description]\n");
    match &epic.description {
        Some(d) => push_str(&mut out, d.as_str()),
        None => push_str(&mut out, "None"),
    }
    push_str(&mut out, "\n==========================");
    assert(out@ =~= epic_agent_text(*epic));
    out
}

/// The line of an epic in the agent list.
pub open spec fn epic_line(e: Epic) -> Seq<char> {
    "- #"@ + int_decimal(e.id as int) + " ("@ + e.status.name() + "): "@ + e.title@ + "\n"@
}

/// The lines of a list of epics.
pub open spec fn epic_lines(v: Seq<Epic>) -> Seq<char>
    decreases v.len(),
{
    if v.len() == 0 { Seq::empty() } else { epic_lines(v.drop_last()) + epic_line(v.last()) }
}

/// The agent text of an epic list: one line per epic, or `- None`.
pub open spec fn epic_list_agent_text(v: Seq<Epic>) -> Seq<char> {
    "=== EPIC LIST ===\n"@ + (if v.len() == 0 { "- None\n"@ } else { epic_lines(v) }) + "=================="@
}

/// The agent text of an epic list; see [`epic_list_agent_text`].
#[verifier::spinoff_prover]
#[verifier::rlimit(40)]
pub fn epic_list_text(epics: &Vec<Epic>) -> (r: String)
    ensures
        r@ == epic_list_agent_text(epics@),
{
    let mut out = String::from_str("=== EPIC LIST ===\n");
    let ghost head = out@;
    if epics.len() == 0 {
        push_str(&mut out, "- None\n");
    } else {
        let mut k: usize = 0;
        while k < epics.len()
            invariant
                k <= epics@.len(),
                out@ == head + epic_lines(epics@.take(k as int)),
            decreases epics@.len() - k,
        {
            let e = &epics[k];
            assert(epics@.take(k + 1).drop_last() =~= epics@.take(k as int));
            let ghost before = out@;
            push_str(&mut out, "- #");
            push_i64(&mut out, e.id);
            push_str(&mut out, " (");
            push_str(&mut out, e.status.as_str());
            push_str(&mut out, "): ");
            push_str(&mut out, e.title.as_str());
            push_str(&mut out, "\n");
            assert(out@ =~= before + epic_line(*e));
            k = k + 1;
        }
        assert(epics@.take(k as int) =~= epics@);
    }
    push_str(&mut out, "==================");
    assert(out@ =~= epic_list_agent_text(epics@));
    out
}

/// A text cut for the compact mode: longer than 200 characters becomes its
/// first 200 followed by `...`.
pub open spec fn compact_text(o: Option<Seq<char>>) -> Option<Seq<char>> {
    match o { Some(t) => Some(truncate_with_ellipsis(t, 200)), None => None }
}

/// Cuts an optional text for the compact mode; see [`compact_text`].
pub fn compact_field(o: Option<String>) -> (r: Option<String>)
    ensures
        opt_view(r) == compact_text(opt_view(o)),
{
    match o {
        Some(t) => Some(truncate_chars(t.as_str(), 200)),
        None => None,
    }
}

/// The epics of a list with their descriptions cut for the compact mode,
/// everything else unchanged.
pub fn compact_epics(epics: Vec<Epic>) -> (r: Vec<Epic>)
    ensures
        r@.len() == epics@.len(),
        forall|i: int| 0 <= i < r@.len() ==> {
            let a = #[trigger] r@[i];
            let b = epics@[i];
            &&& opt_view(a.description) == compact_text(opt_view(b.description))
            &&& a.id == b.id && a.project_key == b.project_key && a.mission_id == b.mission_id
            &&& a.sprint_id == b.sprint_id && a.title == b.title && a.status == b.status
            &&& a.created_at == b.created_at && a.updated_at == b.updated_at
            &&& a.ready_to_complete == b.ready_to_complete
        },
{
    let ghost s = epics@;
    let n = epics.len();
    let mut rest = epics;
    let mut out: Vec<Epic> = Vec::new();
    let mut i: usize = 0;
    while rest.len() > 0
        invariant
            s.len() == n,
            i <= n,
            rest@ == s.skip(i as int),
            out@.len() == i,
            forall|j: int| 0 <= j < i ==> {
                let a = #[trigger] out@[j];
                let b = s[j];
                &&& opt_view(a.description) == compact_text(opt_view(b.description))
                &&& a.id == b.id && a.project_key == b.project_key && a.mission_id == b.mission_id
                &&& a.sprint_id == b.sprint_id && a.title == b.title && a.status == b.status
                &&& a.created_at == b.created_at && a.updated_at == b.updated_at
                &&& a.ready_to_complete == b.ready_to_complete
            },
        decreases rest.len(),
    {
        let e = rest.remove(0);
        assert(e == s[i as int]);
        let Epic { id, project_key, mission_id, sprint_id, title, description, status, created_at, updated_at, ready_to_complete } = e;
        out.push(Epic {
            id,
            project_key,
            mission_id,
            sprint_id,
            title,
            description: compact_field(description),
            status,
            created_at,
            updated_at,
            ready_to_complete,
        });
        i = i + 1;
        assert(rest@ =~= s.skip(i as int));
    }
    out
}

/// What the agent task list shows of a task.
#[derive(Clone, Debug)]
pub struct TaskLine {
    pub id: i64,
    pub status: TaskStatus,
    pub source: TaskSource,
    pub title: String,
}

/// The line of a task in the agent list.
pub open spec fn task_line(t: TaskLine) -> Seq<char> {
    "- #"@ + int_decimal(t.id as int) + " ("@ + t.status.name() + ", source:"@ + t.source.name() + "): "@ + t.title@ + "\n"@
}

/// The lines of a list of tasks.
pub open spec fn task_lines(v: Seq<TaskLine>) -> Seq<char>
    decreases v.len(),
{
    if v.len() == 0 { Seq::empty() } else { task_lines(v.drop_last()) + task_line(v.last()) }
}

/// The agent text of a task list: one line per task, or `- None`.
pub open spec fn task_list_agent_text(v: Seq<TaskLine>) -> Seq<char> {
    "=== TASK LIST ===\n"@ + (if v.len() == 0 { "- None\n"@ } else { task_lines(v) }) + "=================="@
}

/// The agent text of a task list; see [`task_list_agent_text`].
#[verifier::spinoff_prover]
#[verifier::rlimit(40)]
pub fn task_list_text(tasks: &Vec<TaskLine>) -> (r: String)
    ensures
        r@ == task_list_agent_text(tasks@),
{
    let mut out = String::from_str("=== TASK LIST ===\n");
    let ghost head = out@;
    if tasks.len() == 0 {
        push_str(&mut out, "- None\n");
    } else {
        let mut k: usize = 0;
        while k < tasks.len()
            invariant
                k <= tasks@.len(),
                out@ == head + task_lines(tasks@.take(k as int)),
            decreases tasks@.len() - k,
        {
            let t = &tasks[k];
            assert(tasks@.take(k + 1).drop_last() =~= tasks@.take(k as int));
            let ghost before = out@;
            push_str(&mut out, "- #");
            push_i64(&mut out, t.id);
            push_str(&mut out, " (");
            push_str(&mut out, t.status.as_str());
            push_str(&mut out, ", source:");
            push_str(&mut out, t.source.as_str());
            push_str(&mut out, "): ");
            push_str(&mut out, t.title.as_str());
            push_str(&mut out, "\n");
            assert(out@ =~= before + task_line(*t));
            k = k + 1;
        }
        assert(tasks@.take(k as int) =~= tasks@);
    }
    push_str(&mut out, "==================");
    assert(out@ =~= task_list_agent_text(tasks@));
    out
}

/// The line of an issue on the agent board: its project, id, status,
/// priority and title.
pub open spec fn board_line(project: Seq<char>, i: Issue) -> Seq<char> {
    "- ["@ + project + "] #"@ + int_decimal(i.id as int) + " ("@ + i.status.name() + ", "@ + i.priority.name() + "): "@ + i.title@ + "\n"@
}

/// The lines of the board's `(project, issue)` rows.
pub open spec fn board_lines(v: Seq<(String, Issue)>) -> Seq<char>
    decreases v.len(),
{
    if v.len() == 0 { Seq::empty() } else { board_lines(v.drop_last()) + board_line(v.last().0@, v.last().1) }
}

/// The agent text of the sprint board: the sprint's name, then one line per
/// issue in row order, or `- None`.
pub open spec fn board_agent_text(sprint_name: Seq<char>, v: Seq<(String, Issue)>) -> Seq<char> {
    "=== BOARD STATUS ===\nSprint: "@ + sprint_name + "\n"@
        + (if v.len() == 0 { "- None\n"@ } else { board_lines(v) }) + "===================="@
}

/// The agent text of the sprint board; see [`board_agent_text`].
#[verifier::spinoff_prover]
#[verifier::rlimit(40)]
pub fn board_text(sprint_name: &str, rows: &Vec<(String, Issue)>) -> (r: String)
    ensures
        r@ == board_agent_text(sprint_name@, rows@),
{
    let mut out = String::from_str("=== BOARD STATUS ===\nSprint: ");
    push_str(&mut out, sprint_name);
    push_str(&mut out, "\n");
    let ghost head = out@;
    if rows.len() == 0 {
        push_str(&mut out, "- None\n");
    } else {
        let mut k: usize = 0;
        while k < rows.len()
            invariant
                k <= rows@.len(),
                out@ == head + board_lines(rows@.take(k as int)),
            decreases rows@.len() - k,
        {
            let row = &rows[k];
            assert(rows@.take(k + 1).drop_last() =~= rows@.take(k as int));
            let ghost before = out@;
            push_str(&mut out, "- [");
            push_str(&mut out, row.0.as_str());
            push_str(&mut out, "] #");
            push_i64(&mut out, row.1.id);
            push_str(&mut out, " (");
            push_str(&mut out, row.1.status.as_str());
            push_str(&mut out, ", ");
            push_str(&mut out, row.1.priority.as_str());
            push_str(&mut out, "): ");
            push_str(&mut out, row.1.title.as_str());
            push_str(&mut out, "\n");
            assert(out@ =~= before + board_line(row.0@, row.1));
            k = k + 1;
        }
        assert(rows@.take(k as int) =~= rows@);
    }
    push_str(&mut out, "====================");
    assert(out@ =~= board_agent_text(sprint_name@, rows@));
    out
}

/// The line of a stalled issue in the agent list.
pub open spec fn stalled_line(x: StalledIssue) -> Seq<char> {
    "- #"@ + int_decimal(x.id as int) + " ["@ + x.project_key@ + "] "@ + x.title@ + " ("@ + x.status.name() + ", "@
        + int_decimal(x.minutes_in_status as int) + " min)\n"@
}

/// The lines of a list of stalled issues.
pub open spec fn stalled_lines(v: Seq<StalledIssue>) -> Seq<char>
    decreases v.len(),
{
    if v.len() == 0 { Seq::empty() } else { stalled_lines(v.drop_last()) + stalled_line(v.last()) }
}

/// The agent text of the stalled issues: one line per issue, or `- None`.
pub open spec fn stalled_agent_text(v: Seq<StalledIssue>) -> Seq<char> {
    "=== STALLED ISSUES ===\n"@ + (if v.len() == 0 { "- None\n"@ } else { stalled_lines(v) }) + "======================"@
}

/// The agent text of the stalled issues; see [`stalled_agent_text`].
#[verifier::spinoff_prover]
#[verifier::rlimit(40)]
pub fn stalled_text(issues: &Vec<StalledIssue>) -> (r: String)
    ensures
        r@ == stalled_agent_text(issues@),
{
    let mut out = String::from_str("=== STALLED ISSUES ===\n");
    let ghost head = out@;
    if issues.len() == 0 {
        push_str(&mut out, "- None\n");
    } else {
        let mut k: usize = 0;
        while k < issues.len()
            invariant
                k <= issues@.len(),
                out@ == head + stalled_lines(issues@.take(k as int)),
            decreases issues@.len() - k,
        {
            let x = &issues[k];
            assert(issues@.take(k + 1).drop_last() =~= issues@.take(k as int));
            let ghost before = out@;
            push_str(&mut out, "- #");
            push_i64(&mut out, x.id);
            push_str(&mut out, " [");
            push_str(&mut out, x.project_key.as_str());
            push_str(&mut out, "] ");
            push_str(&mut out, x.title.as_str());
            push_str(&mut out, " (");
            push_str(&mut out, x.status.as_str());
            push_str(&mut out, ", ");
            push_i64(&mut out, x.minutes_in_status);
            push_str(&mut out, " min)\n");
            assert(out@ =~= before + stalled_line(*x));
            k = k + 1;
        }
        assert(issues@.take(k as int) =~= issues@);
    }
    push_str(&mut out, "======================");
    assert(out@ =~= stalled_agent_text(issues@));
    out
}

/// Why a task was picked next: its issue's priority rank and status rank.
pub open spec fn next_task_reason_text(priority_ord: i64, status_ord: i64) -> Seq<char> {
    "priority_ord:"@ + int_decimal(priority_ord as int) + " + status_ord:"@ + int_decimal(status_ord as int)
}

/// The reason given for a next task; see [`next_task_reason_text`].
pub fn next_task_reason(priority_ord: i64, status_ord: i64) -> (r: String)
    ensures
        r@ == next_task_reason_text(priority_ord, status_ord),
{
    let mut out = String::from_str("priority_ord:");
    push_i64(&mut out, priority_ord);
    push_str(&mut out, " + status_ord:");
    push_i64(&mut out, status_ord);
    out
}

/// The agent text of the next task, or of there being none.
pub open spec fn next_task_agent_text(n: Option<NextTask>) -> Seq<char> {
    "=== NEXT TASK ===\n"@ + (match n {
        None => "No ready tasks available.\n"@,
        Some(t) => "Task ID: #"@ + int_decimal(t.task_id as int) + "\n"@
            + "Task Title: "@ + t.task_title@ + "\n"@
            + "Issue ID: #"@ + int_decimal(t.issue_id as int) + "\n"@
            + "Issue Title: "@ + t.issue_title@ + "\n"@
            + "Epic ID: #"@ + int_decimal(t.epic_id as int) + "\n"@
            + "Epic Title: "@ + t.epic_title@ + "\n"@
            + "Project Key: "@ + t.project_key@ + "\n"@
            + "Reason: "@ + t.reason@ + "\n"@,
    }) + "================="@
}

/// The agent text of the next task; see [`next_task_agent_text`].
#[verifier::spinoff_prover]
#[verifier::rlimit(40)]
pub fn next_task_text(next: &Option<NextTask>) -> (r: String)
    ensures
        r@ == next_task_agent_text(*next),
{
    let mut out = String::from_str("=== NEXT TASK ===\n");
    match next {
        None => push_str(&mut out, "No ready tasks available.\n"),
        Some(t) => {
            push_str(&mut out, "Task ID: #");
            push_i64(&mut out, t.task_id);
            push_str(&mut out, "\nTask Title: ");
            push_str(&mut out, t.task_title.as_str());
            push_str(&mut out, "\nIssue ID: #");
            push_i64(&mut out, t.issue_id);
            push_str(&mut out, "\nIssue Title: ");
            push_str(&mut out, t.issue_title.as_str());
            push_str(&mut out, "\nEpic ID: #");
            push_i64(&mut out, t.epic_id);
            push_str(&mut out, "\nEpic Title: ");
            push_str(&mut out, t.epic_title.as_str());
            push_str(&mut out, "\nProject Key: ");
            push_str(&mut out, t.project_key.as_str());
            push_str(&mut out, "\nReason: ");
            push_str(&mut out, t.reason.as_str());
            push_str(&mut out, "\n");
            proof {
                reveal_strlit("\n");
                reveal_strlit("\nTask Title: ");
                reveal_strlit("\nIssue ID: #");
                reveal_strlit("\nIssue Title: ");
                reveal_strlit("\nEpic ID: #");
                reveal_strlit("\nEpic Title: ");
                reveal_strlit("\nProject Key: ");
                reveal_strlit("\nReason: ");
                reveal_strlit("Task Title: ");
                reveal_strlit("Issue ID: #");
                reveal_strlit("Issue Title: ");
                reveal_strlit("Epic ID: #");
                reveal_strlit("Epic Title: ");
                reveal_strlit("Project Key: ");
                reveal_strlit("Reason: ");
            }
        },
    }
    push_str(&mut out, "=================");
    assert(out@ =~= next_task_agent_text(*next));
    out
}

/// The line of a note in the ref list: `#id [type] summary`.
pub open spec fn note_ref_line(n: Note) -> Seq<char> {
    "#"@ + int_decimal(n.id as int) + " ["@ + n.note_type.name() + "] "@ + n.summary@ + "\n"@
}

/// The line of a note in the agent list, marked when resolved.
pub open spec fn note_agent_line(n: Note) -> Seq<char> {
    "- #"@ + int_decimal(n.id as int) + " ("@ + (if n.resolved { "[Resolved] "@ } else { Seq::empty() })
        + n.note_type.name() + "): "@ + n.summary@ + "\n"@
}

/// The lines of a list of notes, in the ref form (`by_ref`) or agent form.
pub open spec fn note_lines(v: Seq<Note>, by_ref: bool) -> Seq<char>
    decreases v.len(),
{
    if v.len() == 0 {
        Seq::empty()
    } else {
        note_lines(v.drop_last(), by_ref) + (if by_ref { note_ref_line(v.last()) } else { note_agent_line(v.last()) })
    }
}

/// The ref (`by_ref`) or agent text of a page of notes, with the total and
/// whether more follow.
pub open spec fn note_list_agent_text(v: Seq<Note>, total: i64, has_more: bool, by_ref: bool) -> Seq<char> {
    (if by_ref { "=== NOTE REF LIST ===\n"@ } else { "=== NOTE LIST ===\n"@ })
        + (if v.len() == 0 { "- None\n"@ } else { note_lines(v, by_ref) })
        + "Total: "@ + int_decimal(total as int) + " | Has More: "@ + flag_text(has_more) + "\n"@
        + (if by_ref { "===================="@ } else { "================="@ })
}

fn push_note_line(out: &mut String, n: &Note, by_ref: bool)
    ensures
        final(out)@ == old(out)@ + (if by_ref { note_ref_line(*n) } else { note_agent_line(*n) }),
{
    if by_ref {
        push_str(out, "#");
        push_i64(out, n.id);
        push_str(out, " [");
        push_str(out, n.note_type.as_str());
        push_str(out, "] ");
        push_str(out, n.summary.as_str());
        push_str(out, "\n");
        assert(out@ =~= old(out)@ + note_ref_line(*n));
    } else {
        push_str(out, "- #");
        push_i64(out, n.id);
        push_str(out, " (");
        let ghost mid = out@;
        if n.resolved {
            push_str(out, "[Resolved] ");
        }
        assert(out@ =~= mid + (if n.resolved { "[Resolved] "@ } else { Seq::<char>::empty() }));
        push_str(out, n.note_type.as_str());
        push_str(out, "): ");
        push_str(out, n.summary.as_str());
        push_str(out, "\n");
        assert(out@ =~= old(out)@ + note_agent_line(*n));
    }
}

/// The ref or agent text of a page of notes; see [`note_list_agent_text`].
#[verifier::spinoff_prover]
#[verifier::rlimit(40)]
pub fn note_list_text(notes: &Vec<Note>, total: i64, has_more: bool, by_ref: bool) -> (r: String)
    ensures
        r@ == note_list_agent_text(notes@, total, has_more, by_ref),
{
    let mut out = if by_ref { String::from_str("=== NOTE REF LIST ===\n") } else { String::from_str("=== NOTE LIST ===\n") };
    let ghost head = out@;
    if notes.len() == 0 {
        push_str(&mut out, "- None\n");
    } else {
        let mut k: usize = 0;
        while k < notes.len()
            invariant
                k <= notes@.len(),
                out@ == head + note_lines(notes@.take(k as int), by_ref),
            decreases notes@.len() - k,
        {
            let n = &notes[k];
            assert(notes@.take(k + 1).drop_last() =~= notes@.take(k as int));
            push_note_line(&mut out, n, by_ref);
            k = k + 1;
        }
        assert(notes@.take(k as int) =~= notes@);
    }
    push_str(&mut out, "Total: ");
    push_i64(&mut out, total);
    push_str(&mut out, " | Has More: ");
    push_flag(&mut out, has_more);
    push_str(&mut out, "\n");
    if by_ref {
        push_str(&mut out, "====================");
    } else {
        push_str(&mut out, "=================");
    }
    assert(out@ =~= note_list_agent_text(notes@, total, has_more, by_ref));
    out
}

/// The agent text of one note.
pub open spec fn note_agent_text(n: Note) -> Seq<char> {
    "note #"@ + int_decimal(n.id as int) + "\n"@
        + (match n.issue_id { Some(i) => "issue: "@ + int_decimal(i as int) + "\n"@, None => Seq::empty() })
        + (match n.task_id { Some(t) => "task: "@ + int_decimal(t as int) + "\n"@, None => Seq::empty() })
        + "type: "@ + n.note_type.name() + "\n"@
        + "resolved: "@ + flag_text(n.resolved) + "\n"@
        + "created: "@ + n.created_at@ + "\n"@
        + "updated: "@ + n.updated_at@ + "\n"@
        + "summary: "@ + n.summary@ + "\n"@
        + (match n.detail { Some(d) => "detail: "@ + d@ + "\n"@, None => Seq::empty() })
}

/// The agent text of one note; see [`note_agent_text`].
pub fn format_agent_note_text(note: &Note) -> (r: String)
    ensures
        r@ == note_agent_text(*note),
{
    let mut out = String::from_str("note #");
    push_i64(&mut out, note.id);
    push_str(&mut out, "\n");
    let ghost a = out@;
    match note.issue_id {
        Some(i) => {
            push_str(&mut out, "issue: ");
            push_i64(&mut out, i);
            push_str(&mut out, "\n");
        },
        None => {},
    }
    let ghost b = out@;
    match note.task_id {
        Some(t) => {
            push_str(&mut out, "task: ");
            push_i64(&mut out, t);
            push_str(&mut out, "\n");
        },
        None => {},
    }
    let ghost c = out@;
    push_str(&mut out, "type: ");
    push_str(&mut out, note.note_type.as_str());
    push_str(&mut out, "\n");
    push_str(&mut out, "resolved: ");
    push_flag(&mut out, note.resolved);
    push_str(&mut out, "\n");
    push_str(&mut out, "created: ");
    push_str(&mut out, note.created_at.as_str());
    push_str(&mut out, "\n");
    push_str(&mut out, "updated: ");
    push_str(&mut out, note.updated_at.as_str());
    push_str(&mut out, "\n");
    push_str(&mut out, "summary: ");
    push_str(&mut out, note.summary.as_str());
    push_str(&mut out, "\n");
    let ghost d = out@;
    match &note.detail {
        Some(x) => {
            push_str(&mut out, "detail: ");
            push_str(&mut out, x.as_str());
            push_str(&mut out, "\n");
        },
        None => {},
    }
    proof {
        assert(b =~= a + (match note.issue_id { Some(i) => "issue: "@ + int_decimal(i as int) + "\n"@, None => Seq::<char>::empty() }));
        assert(c =~= b + (match note.task_id { Some(t) => "task: "@ + int_decimal(t as int) + "\n"@, None => Seq::<char>::empty() }));
        assert(out@ =~= d + (match note.detail { Some(x) => "detail: "@ + x@ + "\n"@, None => Seq::<char>::empty() }));
    }
    assert(out@ =~= note_agent_text(*note));
    out
}

/// The agent text of a batch of notes, each followed by a blank line.
pub open spec fn note_batch_agent_text(v: Seq<Note>) -> Seq<char> {
    "=== NOTE BATCH ===\n"@ + note_blocks(v) + "===================="@
}

/// The agent texts of notes, each followed by a blank line.
pub open spec fn note_blocks(v: Seq<Note>) -> Seq<char>
    decreases v.len(),
{
    if v.len() == 0 { Seq::empty() } else { note_blocks(v.drop_last()) + note_agent_text(v.last()) + "\n\n"@ }
}

/// The agent text of a batch request that names no note.
pub const EMPTY_NOTE_BATCH_TEXT: &'static str = "=== NOTE BATCH ===\nNo notes specified.\n====================";

/// The agent text of a batch of notes; see [`note_batch_agent_text`].
#[verifier::spinoff_prover]
#[verifier::rlimit(40)]
pub fn note_batch_text(notes: &Vec<Note>) -> (r: String)
    ensures
        r@ == note_batch_agent_text(notes@),
{
    let mut out = String::from_str("=== NOTE BATCH ===\n");
    let ghost head = out@;
    let mut k: usize = 0;
    while k < notes.len()
        invariant
            k <= notes@.len(),
            out@ == head + note_blocks(notes@.take(k as int)),
        decreases notes@.len() - k,
    {
        assert(notes@.take(k + 1).drop_last() =~= notes@.take(k as int));
        let ghost before = out@;
        let t = format_agent_note_text(&notes[k]);
        push_str(&mut out, t.as_str());
        push_str(&mut out, "\n\n");
        assert(out@ =~= before + note_agent_text(notes@[k as int]) + "\n\n"@);
        k = k + 1;
    }
    assert(notes@.take(k as int) =~= notes@);
    push_str(&mut out, "====================");
    assert(out@ =~= note_batch_agent_text(notes@));
    out
}

/// The excerpt of an issue description in the planning queue: its first 100
/// characters, followed by `...` when it is longer.
pub fn description_excerpt(d: &str) -> (r: String)
    ensures
        r@ == truncate_with_ellipsis(d@, 100),
{
    truncate_chars(d, 100)
}

} // verus!
