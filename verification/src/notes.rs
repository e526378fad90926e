//! Where a new note is filed: its scope (given, or decided by whether it names
//! a task), the columns that hold its target, and the refusal of notes that
//! lack what their scope needs.
use vstd::prelude::*;
use crate::enums::NoteScope;
use crate::models::{opt_view, CreateNoteInput};
use crate::Error;

verus! {

/// The refusal of an issue note without an issue.
pub const ISSUE_SCOPE_MESSAGE: &'static str = r#"{"scope":"issue","expected_fields":["issue_id"],"message":"issue scope 는 issue_id (>0) 가 필수입니다"}"#;
/// The refusal of a task note without an issue or task.
pub const TASK_SCOPE_MESSAGE: &'static str = r#"{"scope":"task","expected_fields":["issue_id","task_id"],"message":"task scope 는 issue_id (>0) 와 task_id 둘 다 필수입니다"}"#;
/// The refusal of a project note without a project.
pub const PROJECT_SCOPE_MESSAGE: &'static str = r#"{"scope":"project","expected_fields":["project_key"],"message":"project scope 는 project_key 가 필수입니다"}"#;
/// The refusal of a sprint note without a sprint.
pub const SPRINT_SCOPE_MESSAGE: &'static str = r#"{"scope":"sprint","expected_fields":["scope_target_id"],"message":"sprint scope 는 scope_target_id (sprint id) 가 필수입니다"}"#;
/// The refusal of an epic note without an epic.
pub const EPIC_SCOPE_MESSAGE: &'static str = r#"{"scope":"epic","expected_fields":["scope_target_id"],"message":"epic scope 는 scope_target_id (epic id) 가 필수입니다"}"#;

/// The scope a note takes when none is given in a stored record.
pub fn default_note_scope() -> (r: NoteScope)
    ensures
        r == NoteScope::Issue,
{
    NoteScope::Issue
}

/// Where a note is stored: author, scope and the columns of its target.
#[derive(Clone, Debug)]
pub struct NotePlacement {
    pub author: String,
    pub scope: NoteScope,
    pub issue_id: Option<i64>,
    pub scope_target_id: Option<i64>,
    pub project_key: Option<String>,
}

/// The mathematical content of a [`NotePlacement`].
pub struct NotePlacementView {
    pub author: Seq<char>,
    pub scope: NoteScope,
    pub issue_id: Option<i64>,
    pub scope_target_id: Option<i64>,
    pub project_key: Option<Seq<char>>,
}

impl View for NotePlacement {
    type V = NotePlacementView;

    open spec fn view(&self) -> NotePlacementView {
        NotePlacementView {
            author: self.author@,
            scope: self.scope,
            issue_id: self.issue_id,
            scope_target_id: self.scope_target_id,
            project_key: opt_view(self.project_key),
        }
    }
}

/// The scope of a new note: the given one, else task when it names a task,
/// else issue.
pub open spec fn note_scope(input: CreateNoteInput) -> NoteScope {
    match input.scope {
        Some(s) => s,
        None => if input.task_id is Some { NoteScope::Task } else { NoteScope::Issue },
    }
}

/// The author of a new note: the given one, else `agent`.
pub open spec fn note_author(input: CreateNoteInput) -> Seq<char> {
    match input.author {
        Some(a) => a@,
        None => "agent"@,
    }
}

/// Where a new note goes, or the refusal message when its scope lacks what
/// it needs:
/// - issue: needs an issue id > 0; stored on the issue, targeting the given
///   target or else the issue;
/// - task: needs an issue id > 0 and a task; stored on the issue, targeting
///   the given target or else the task;
/// - project: needs a project key, and stores only that;
/// - sprint, epic: need a target id, and store only that.
pub open spec fn note_placement(input: CreateNoteInput) -> Result<NotePlacementView, Seq<char>> {
    let author = note_author(input);
    match note_scope(input) {
        NoteScope::Issue => if input.issue_id <= 0 {
            Err(ISSUE_SCOPE_MESSAGE@)
        } else {
            Ok(NotePlacementView {
                author,
                scope: NoteScope::Issue,
                issue_id: Some(input.issue_id),
                scope_target_id: match input.scope_target_id { Some(t) => Some(t), None => Some(input.issue_id) },
                project_key: None,
            })
        },
        NoteScope::Task => if input.issue_id <= 0 || input.task_id is None {
            Err(TASK_SCOPE_MESSAGE@)
        } else {
            Ok(NotePlacementView {
                author,
                scope: NoteScope::Task,
                issue_id: Some(input.issue_id),
                scope_target_id: match input.scope_target_id { Some(t) => Some(t), None => input.task_id },
                project_key: None,
            })
        },
        NoteScope::Project => match input.project_key {
            Some(pk) => Ok(NotePlacementView {
                author,
                scope: NoteScope::Project,
                issue_id: None,
                scope_target_id: None,
                project_key: Some(pk@),
            }),
            None => Err(PROJECT_SCOPE_MESSAGE@),
        },
        NoteScope::Sprint => match input.scope_target_id {
            Some(t) => Ok(NotePlacementView {
                author,
                scope: NoteScope::Sprint,
                issue_id: None,
                scope_target_id: Some(t),
                project_key: None,
            }),
            None => Err(SPRINT_SCOPE_MESSAGE@),
        },
        NoteScope::Epic => match input.scope_target_id {
            Some(t) => Ok(NotePlacementView {
                author,
                scope: NoteScope::Epic,
                issue_id: None,
                scope_target_id: Some(t),
                project_key: None,
            }),
            None => Err(EPIC_SCOPE_MESSAGE@),
        },
    }
}

/// The result of placing a note, as views.
pub open spec fn placement_view(r: Result<NotePlacement, Error>) -> Result<NotePlacementView, Seq<char>> {
    match r {
        Ok(p) => Ok(p@),
        Err(Error::Validation(m)) => Err(m@),
        Err(_) => Err(Seq::empty()),
    }
}

fn refuse(message: &str) -> (r: Result<NotePlacement, Error>)
    ensures
        r matches Err(Error::Validation(m)) && m@ == message@,
{
    Err(Error::Validation(String::from_str(message)))
}

/// Decides where a new note goes; see [`note_placement`]. Refusals are
/// `Validation` errors.
pub fn place_note(input: &CreateNoteInput) -> (r: Result<NotePlacement, Error>)
    ensures
        placement_view(r) == note_placement(*input),
        r is Err ==> r matches Err(Error::Validation(_)),
{
    let author = match &input.author {
        Some(a) => a.clone(),
        None => String::from_str("agent"),
    };
    let scope = match input.scope {
        Some(s) => s,
        None => if input.task_id.is_some() { NoteScope::Task } else { NoteScope::Issue },
    };
    match scope {
        NoteScope::Issue => {
            if input.issue_id <= 0 {
                refuse(ISSUE_SCOPE_MESSAGE)
            } else {
                let target = match input.scope_target_id { Some(t) => Some(t), None => Some(input.issue_id) };
                Ok(NotePlacement { author, scope, issue_id: Some(input.issue_id), scope_target_id: target, project_key: None })
            }
        },
        NoteScope::Task => {
            if input.issue_id <= 0 || input.task_id.is_none() {
                refuse(TASK_SCOPE_MESSAGE)
            } else {
                let target = match input.scope_target_id { Some(t) => Some(t), None => input.task_id };
                Ok(NotePlacement { author, scope, issue_id: Some(input.issue_id), scope_target_id: target, project_key: None })
            }
        },
        NoteScope::Project => match &input.project_key {
            Some(pk) => Ok(NotePlacement { author, scope, issue_id: None, scope_target_id: None, project_key: Some(pk.clone()) }),
            None => refuse(PROJECT_SCOPE_MESSAGE),
        },
        NoteScope::Sprint => match input.scope_target_id {
            Some(t) => Ok(NotePlacement { author, scope, issue_id: None, scope_target_id: Some(t), project_key: None }),
            None => refuse(SPRINT_SCOPE_MESSAGE),
        },
        NoteScope::Epic => match input.scope_target_id {
            Some(t) => Ok(NotePlacement { author, scope, issue_id: None, scope_target_id: Some(t), project_key: None }),
            None => refuse(EPIC_SCOPE_MESSAGE),
        },
    }
}

/// The placements of a batch of notes: all of them, or the refusal of the
/// first note that is refused (then none is stored).
pub open spec fn batch_placement(inputs: Seq<CreateNoteInput>) -> Result<Seq<NotePlacementView>, Seq<char>>
    decreases inputs.len(),
{
    if inputs.len() == 0 {
        Ok(Seq::empty())
    } else {
        match batch_placement(inputs.drop_last()) {
            Err(m) => Err(m),
            Ok(ps) => match note_placement(inputs.last()) {
                Ok(p) => Ok(ps.push(p)),
                Err(m) => Err(m),
            },
        }
    }
}

/// The views of a list of placements.
pub open spec fn placement_views(v: Seq<NotePlacement>) -> Seq<NotePlacementView> {
    Seq::new(v.len(), |i: int| v[i]@)
}

/// Decides where each note of a batch goes; see [`batch_placement`].
pub fn place_notes(inputs: &Vec<CreateNoteInput>) -> (r: Result<Vec<NotePlacement>, Error>)
    ensures
        match r {
            Ok(v) => batch_placement(inputs@) == Ok::<Seq<NotePlacementView>, Seq<char>>(placement_views(v@)),
            Err(Error::Validation(m)) => batch_placement(inputs@) == Err::<Seq<NotePlacementView>, Seq<char>>(m@),
            Err(_) => false,
        },
{
    let mut out: Vec<NotePlacement> = Vec::new();
    let mut k: usize = 0;
    assert(inputs@.take(0) =~= Seq::<CreateNoteInput>::empty());
    assert(placement_views(out@) =~= Seq::<NotePlacementView>::empty());
    while k < inputs.len()
        invariant
            k <= inputs@.len(),
            batch_placement(inputs@.take(k as int)) == Ok::<Seq<NotePlacementView>, Seq<char>>(placement_views(out@)),
        decreases inputs@.len() - k,
    {
        assert(inputs@.take(k + 1).drop_last() =~= inputs@.take(k as int));
        assert(inputs@.take(k + 1).last() == inputs@[k as int]);
        match place_note(&inputs[k]) {
            Ok(p) => {
                let ghost before = out@;
                out.push(p);
                assert(placement_views(out@) =~= placement_views(before).push(p@));
            },
            Err(e) => {
                proof {
                    lemma_batch_refused_stays(inputs@, k as int + 1);
                }
                return Err(e);
            },
        }
        k = k + 1;
    }
    assert(inputs@.take(k as int) =~= inputs@);
    Ok(out)
}

proof fn lemma_batch_refused_stays(inputs: Seq<CreateNoteInput>, n: int)
    requires
        0 < n <= inputs.len(),
        batch_placement(inputs.take(n)) is Err,
    ensures
        batch_placement(inputs) == batch_placement(inputs.take(n)),
    decreases inputs.len() - n,
{
    if n < inputs.len() {
        assert(inputs.take(n + 1).drop_last() =~= inputs.take(n));
        lemma_batch_refused_stays(inputs, n + 1);
    } else {
        assert(inputs.take(n) =~= inputs);
    }
}

/// A batch of notes is accepted exactly when each of its notes would be
/// accepted alone, and then each goes where it would go alone.
pub proof fn law_batch_is_all_or_nothing(inputs: Seq<CreateNoteInput>)
    ensures
        (batch_placement(inputs) is Ok) == (forall|i: int| 0 <= i < inputs.len() ==> #[trigger] note_placement(inputs[i]) is Ok),
        batch_placement(inputs) matches Ok(ps) ==> ps.len() == inputs.len()
            && forall|i: int| 0 <= i < inputs.len() ==> note_placement(inputs[i]) == Ok::<NotePlacementView, Seq<char>>(#[trigger] ps[i]),
    decreases inputs.len(),
{
    if inputs.len() > 0 {
        let d = inputs.drop_last();
        law_batch_is_all_or_nothing(d);
        assert forall|i: int| 0 <= i < d.len() implies d[i] == inputs[i] by {}
        if batch_placement(d) is Ok && note_placement(inputs.last()) is Err {
            assert(!(forall|i: int| 0 <= i < inputs.len() ==> #[trigger] note_placement(inputs[i]) is Ok)) by {
                assert(note_placement(inputs[inputs.len() - 1]) is Err);
            }
        }
        if batch_placement(d) is Err {
            let i0 = choose|i: int| 0 <= i < d.len() && !(#[trigger] note_placement(d[i]) is Ok);
            assert(note_placement(inputs[i0]) is Err);
        }
    }
}

/// Where a note stands on what its scope needs: a refused note's scope is
/// missing exactly the field its message names, and an accepted broadcast
/// note (project, sprint, epic) is never stored on an issue.
pub proof fn law_broadcast_notes_have_no_issue(input: CreateNoteInput)
    ensures
        note_placement(input) matches Ok(p) ==> (p.scope == NoteScope::Project || p.scope == NoteScope::Sprint
            || p.scope == NoteScope::Epic) ==> p.issue_id is None,
        note_placement(input) matches Ok(p) ==> (p.scope == NoteScope::Issue || p.scope == NoteScope::Task)
            ==> p.issue_id == Some(input.issue_id) && input.issue_id > 0,
        note_placement(input) matches Ok(p) ==> p.scope == note_scope(input),
{
}


/// An accepted note keeps the target it was given: a sprint or epic note is
/// stored with exactly the given sprint or epic, and an issue or task note
/// with the given target when one is given.
pub proof fn law_notes_keep_their_target(input: CreateNoteInput)
    ensures
        note_placement(input) matches Ok(p) ==> ((p.scope == NoteScope::Sprint || p.scope == NoteScope::Epic)
            ==> p.scope_target_id == input.scope_target_id && p.scope_target_id is Some),
        note_placement(input) matches Ok(p) ==> (p.scope != NoteScope::Project && input.scope_target_id is Some
            ==> p.scope_target_id == input.scope_target_id),
        note_placement(input) matches Ok(p) ==> (p.scope == NoteScope::Issue && input.scope_target_id is None
            ==> p.scope_target_id == Some(input.issue_id)),
        note_placement(input) matches Ok(p) ==> (p.scope == NoteScope::Task && input.scope_target_id is None
            ==> p.scope_target_id == input.task_id && input.task_id is Some),
        note_placement(input) matches Ok(p) ==> (p.scope == NoteScope::Project
            ==> p.scope_target_id is None && p.project_key == opt_view(input.project_key) && p.project_key is Some),
        (input.scope == Some(NoteScope::Sprint) || input.scope == Some(NoteScope::Epic)) && input.scope_target_id is None
            ==> note_placement(input) is Err,
{
}

} // verus!
