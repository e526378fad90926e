//! The listing queries of issues and notes: which conditions a filter adds,
//! the values bound to them in order, paging, and whether more items follow.
use vstd::prelude::*;
use crate::enums::{IssueStatus, NoteType};
use crate::models::{opt_view, IssueFilter};
use crate::text::push_str;

verus! {

/// A value bound to a `?` of a query.
#[derive(Clone, Debug)]
pub enum SqlArg {
    Int(i64),
    Text(String),
}

/// The mathematical content of a [`SqlArg`].
pub enum SqlArgView {
    Int(i64),
    Text(Seq<char>),
}

impl View for SqlArg {
    type V = SqlArgView;

    open spec fn view(&self) -> SqlArgView {
        match *self {
            SqlArg::Int(n) => SqlArgView::Int(n),
            SqlArg::Text(t) => SqlArgView::Text(t@),
        }
    }
}

/// A listing query: the count query, the page query, and the values bound
/// to the `?`s of the count query in order (the page query binds the same
/// values, then the limit and the offset).
#[derive(Clone, Debug)]
pub struct ListQuery {
    pub count_sql: String,
    pub items_sql: String,
    pub args: Vec<SqlArg>,
    pub limit: i64,
    pub offset: i64,
}

/// The views of a list of bound values.
pub open spec fn arg_views(v: Seq<SqlArg>) -> Seq<SqlArgView> {
    Seq::new(v.len(), |i: int| v[i]@)
}

/// The page size: the requested one within 1..=200, 50 when none is given.
pub open spec fn page_limit(limit: Option<i64>) -> i64 {
    match limit {
        Some(l) => if l < 1 { 1 } else if l > 200 { 200 } else { l },
        None => 50,
    }
}

/// The page start: the requested one, at least 0; 0 when none is given.
pub open spec fn page_offset(offset: Option<i64>) -> i64 {
    match offset {
        Some(o) => if o < 0 { 0 } else { o },
        None => 0,
    }
}

/// The page size and start of a listing; see [`page_limit`] and
/// [`page_offset`].
pub fn apply_pagination(limit: Option<i64>, offset: Option<i64>) -> (r: (i64, i64))
    ensures
        r.0 == page_limit(limit),
        r.1 == page_offset(offset),
{
    let lim = match limit {
        Some(l) => if l < 1 { 1 } else if l > 200 { 200 } else { l },
        None => 50,
    };
    let off = match offset {
        Some(o) => if o < 0 { 0 } else { o },
        None => 0,
    };
    (lim, off)
}

/// Whether items follow a page of `returned` items that starts at
/// `offset`, out of `total`.
pub fn page_has_more(offset: i64, returned: usize, total: i64) -> (r: bool)
    ensures
        r == (offset + returned < total),
{
    (offset as i128) + (returned as i128) < (total as i128)
}

/// `n` placeholders separated by commas.
pub open spec fn placeholders(n: nat) -> Seq<char>
    decreases n,
{
    if n == 0 {
        Seq::empty()
    } else if n == 1 {
        "?"@
    } else {
        placeholders((n - 1) as nat) + ",?"@
    }
}

fn push_placeholders(s: &mut String, n: usize)
    ensures
        final(s)@ == old(s)@ + placeholders(n as nat),
{
    let mut k: usize = 0;
    assert(old(s)@ + placeholders(0) =~= old(s)@);
    while k < n
        invariant
            k <= n,
            s@ == old(s)@ + placeholders(k as nat),
        decreases n - k,
    {
        if k == 0 {
            push_str(s, "?");
        } else {
            push_str(s, ",?");
        }
        assert(old(s)@ + placeholders((k + 1) as nat) =~= old(s)@ + placeholders(k as nat) + (if k == 0 { "?"@ } else { ",?"@ }));
        k = k + 1;
    }
}

/// `s` with repeated elements dropped (each kept at its first place).
pub open spec fn dedup<T>(s: Seq<T>) -> Seq<T>
    decreases s.len(),
{
    if s.len() == 0 {
        s
    } else if dedup(s.drop_last()).contains(s.last()) {
        dedup(s.drop_last())
    } else {
        dedup(s.drop_last()).push(s.last())
    }
}

/// The statuses an issue listing keeps: the single status, then the listed
/// ones, without repeats.
pub open spec fn target_statuses(status: Option<IssueStatus>, statuses: Option<Seq<IssueStatus>>) -> Seq<IssueStatus> {
    let first = match status { Some(s) => seq![s], None => Seq::empty() };
    let more = match statuses { Some(v) => v, None => Seq::empty() };
    dedup(first + more)
}

/// The view of an optional list of statuses.
pub open spec fn opt_statuses(v: Option<Vec<IssueStatus>>) -> Option<Seq<IssueStatus>> {
    match v { Some(x) => Some(x@), None => None }
}

fn push_unique(v: &mut Vec<IssueStatus>, s: IssueStatus)
    ensures
        final(v)@ == (if old(v)@.contains(s) { old(v)@ } else { old(v)@.push(s) }),
{
    let mut k: usize = 0;
    while k < v.len()
        invariant
            k <= v@.len(),
            v@ == old(v)@,
            forall|j: int| 0 <= j < k ==> v@[j] != s,
        decreases v@.len() - k,
    {
        if v[k] == s {
            return;
        }
        k = k + 1;
    }
    v.push(s);
}

/// The statuses an issue listing keeps; see [`target_statuses`].
pub fn issue_target_statuses(filter: &IssueFilter) -> (r: Vec<IssueStatus>)
    ensures
        r@ == target_statuses(filter.status, opt_statuses(filter.statuses)),
{
    let ghost first = match filter.status { Some(s) => seq![s], None => Seq::<IssueStatus>::empty() };
    let ghost more = match opt_statuses(filter.statuses) { Some(v) => v, None => Seq::<IssueStatus>::empty() };
    let ghost all = first + more;
    let mut out: Vec<IssueStatus> = Vec::new();
    let mut n: usize = 0;
    if let Some(s) = filter.status {
        push_unique(&mut out, s);
        n = 1;
        assert(all.take(1) =~= seq![s]);
        assert(seq![s].drop_last() =~= Seq::<IssueStatus>::empty());
        assert(dedup(Seq::<IssueStatus>::empty()) =~= Seq::<IssueStatus>::empty());
    } else {
        assert(dedup(Seq::<IssueStatus>::empty()) =~= Seq::<IssueStatus>::empty());
    }
    assert(all.take(n as int) =~= first);
    assert(out@ == dedup(all.take(n as int)));
    match &filter.statuses {
        Some(v) => {
            let mut k: usize = 0;
            while k < v.len()
                invariant
                    k <= v@.len(),
                    more == v@,
                    all == first + more,
                    n as int == first.len(),
                    out@ == dedup(all.take(n + k)),
                decreases v@.len() - k,
            {
                assert(all.take(n + k + 1).drop_last() =~= all.take(n + k));
                assert(all.take(n + k + 1).last() == v@[k as int]);
                push_unique(&mut out, v[k]);
                k = k + 1;
            }
            assert(all.take(n + k) =~= all);
        },
        None => {
            assert(all =~= first);
        },
    }
    out
}

/// A condition added when `present`, else nothing.
pub open spec fn clause(present: bool, text: Seq<char>) -> Seq<char> {
    if present { text } else { Seq::empty() }
}

/// The conditions of an issue listing, in order: epic, mission, backlog or
/// sprint (backlog wins), project, statuses.
pub open spec fn issue_where(f: IssueFilter) -> Seq<char> {
    let st = target_statuses(f.status, opt_statuses(f.statuses));
    clause(f.epic_id is Some, " AND i.epic_id = ?"@)
        + clause(f.mission_id is Some, " AND e.mission_id = ?"@)
        + (if f.backlog_only { " AND e.sprint_id IS NULL"@ } else { clause(f.sprint_id is Some, " AND e.sprint_id = ?"@) })
        + clause(f.project_key is Some, " AND e.project_key = ?"@)
        + clause(st.len() > 0, " AND i.status IN ("@ + placeholders(st.len()) + ")"@)
}

/// The optional value of an optional id, as a bound value.
pub open spec fn int_arg(n: Option<i64>) -> Seq<SqlArgView> {
    match n { Some(v) => seq![SqlArgView::Int(v)], None => Seq::empty() }
}

/// The optional value of an optional text, as a bound value.
pub open spec fn text_arg(t: Option<Seq<char>>) -> Seq<SqlArgView> {
    match t { Some(v) => seq![SqlArgView::Text(v)], None => Seq::empty() }
}

/// The status names bound to the status condition.
pub open spec fn status_args(st: Seq<IssueStatus>) -> Seq<SqlArgView> {
    Seq::new(st.len(), |i: int| SqlArgView::Text(st[i].name()))
}

/// The values bound to the conditions of an issue listing, in order.
pub open spec fn issue_args(f: IssueFilter) -> Seq<SqlArgView> {
    int_arg(f.epic_id) + int_arg(f.mission_id)
        + (if f.backlog_only { Seq::empty() } else { int_arg(f.sprint_id) })
        + text_arg(opt_view(f.project_key))
        + status_args(target_statuses(f.status, opt_statuses(f.statuses)))
}

/// The columns of an issue read in full.
pub const ISSUE_COLUMNS: &'static str = "i.id, i.epic_id, e.mission_id AS mission_id, e.sprint_id AS sprint_id, i.title, i.description, i.goal, i.status, i.priority, i.assigned_agent, i.created_at, i.updated_at, NULL AS note_count, NULL AS task_count";

/// The columns of an issue read compactly: description and goal cut to 200
/// characters.
pub const ISSUE_COMPACT_COLUMNS: &'static str = "i.id, i.epic_id, e.mission_id AS mission_id, e.sprint_id AS sprint_id, i.title, CASE WHEN i.description IS NOT NULL THEN SUBSTR(i.description, 1, 200) ELSE NULL END AS description, CASE WHEN i.goal IS NOT NULL THEN SUBSTR(i.goal, 1, 200) ELSE NULL END AS goal, i.status, i.priority, i.assigned_agent, i.created_at, i.updated_at, NULL AS note_count, NULL AS task_count";

/// The columns of a compact issue listing, with note and task counts.
pub const ISSUE_LIST_COMPACT_COLUMNS: &'static str = "i.id, i.epic_id, e.mission_id AS mission_id, e.sprint_id AS sprint_id, i.title, CASE WHEN i.description IS NOT NULL THEN SUBSTR(i.description, 1, 200) ELSE NULL END AS description, CASE WHEN i.goal IS NOT NULL THEN SUBSTR(i.goal, 1, 200) ELSE NULL END AS goal, i.status, i.priority, i.assigned_agent, i.created_at, i.updated_at, COUNT(DISTINCT n.id) AS note_count, COUNT(DISTINCT t.id) AS task_count";

/// The columns of an issue read by id, compactly or in full.
pub fn issue_select_columns(compact: bool) -> (r: &'static str)
    ensures
        r@ == (if compact { ISSUE_COMPACT_COLUMNS@ } else { ISSUE_COLUMNS@ }),
{
    if compact { ISSUE_COMPACT_COLUMNS } else { ISSUE_COLUMNS }
}

/// The count query of an issue listing.
pub open spec fn issue_count_sql(f: IssueFilter) -> Seq<char> {
    "SELECT COUNT(DISTINCT i.id) FROM issues i JOIN epics e ON i.epic_id = e.id WHERE 1=1 "@ + issue_where(f)
}

/// The page query of an issue listing: newest first; the compact form also
/// counts each issue's notes and tasks.
pub open spec fn issue_items_sql(f: IssueFilter) -> Seq<char> {
    let compact = f.compact == Some(true);
    "SELECT "@ + (if compact { ISSUE_LIST_COMPACT_COLUMNS@ } else { ISSUE_COLUMNS@ })
        + " FROM issues i JOIN epics e ON i.epic_id = e.id"@
        + clause(compact, " LEFT JOIN notes n ON i.id = n.issue_id LEFT JOIN tasks t ON i.id = t.issue_id"@)
        + " WHERE 1=1 "@ + issue_where(f) + " "@
        + clause(compact, " GROUP BY i.id, e.mission_id, e.sprint_id"@)
        + " ORDER BY i.id DESC LIMIT ? OFFSET ?"@
}

fn push_clause(s: &mut String, present: bool, text: &str)
    ensures
        final(s)@ == old(s)@ + clause(present, text@),
{
    if present {
        push_str(s, text);
    } else {
        assert(old(s)@ + Seq::<char>::empty() =~= old(s)@);
    }
}

fn push_arg(v: &mut Vec<SqlArg>, a: SqlArg)
    ensures
        arg_views(final(v)@) == arg_views(old(v)@).push(a@),
{
    let ghost before = v@;
    v.push(a);
    assert(arg_views(v@) =~= arg_views(before).push(a@));
}

fn push_int_arg(v: &mut Vec<SqlArg>, n: Option<i64>)
    ensures
        arg_views(final(v)@) == arg_views(old(v)@) + int_arg(n),
{
    match n {
        Some(x) => {
            push_arg(v, SqlArg::Int(x));
            assert(arg_views(old(v)@).push(SqlArgView::Int(x)) =~= arg_views(old(v)@) + seq![SqlArgView::Int(x)]);
        },
        None => {
            assert(arg_views(old(v)@) + Seq::<SqlArgView>::empty() =~= arg_views(old(v)@));
        },
    }
}

fn push_text_arg(v: &mut Vec<SqlArg>, t: &Option<String>)
    ensures
        arg_views(final(v)@) == arg_views(old(v)@) + text_arg(opt_view(*t)),
{
    match t {
        Some(x) => {
            push_arg(v, SqlArg::Text(x.clone()));
            assert(arg_views(old(v)@).push(SqlArgView::Text(x@)) =~= arg_views(old(v)@) + seq![SqlArgView::Text(x@)]);
        },
        None => {
            assert(arg_views(old(v)@) + Seq::<SqlArgView>::empty() =~= arg_views(old(v)@));
        },
    }
}

/// The issue listing query of a filter: conditions and bound values as in
/// [`issue_where`] and [`issue_args`], paging as in [`apply_pagination`].
pub fn issue_list_query(filter: &IssueFilter) -> (r: ListQuery)
    ensures
        r.count_sql@ == issue_count_sql(*filter),
        r.items_sql@ == issue_items_sql(*filter),
        arg_views(r.args@) == issue_args(*filter),
        r.limit == page_limit(filter.limit),
        r.offset == page_offset(filter.offset),
{
    let st = issue_target_statuses(filter);
    let mut w = String::new();
    push_clause(&mut w, filter.epic_id.is_some(), " AND i.epic_id = ?");
    push_clause(&mut w, filter.mission_id.is_some(), " AND e.mission_id = ?");
    if filter.backlog_only {
        push_str(&mut w, " AND e.sprint_id IS NULL");
    } else {
        push_clause(&mut w, filter.sprint_id.is_some(), " AND e.sprint_id = ?");
    }
    push_clause(&mut w, filter.project_key.is_some(), " AND e.project_key = ?");
    let ghost before_status = w@;
    if st.len() > 0 {
        push_str(&mut w, " AND i.status IN (");
        push_placeholders(&mut w, st.len());
        push_str(&mut w, ")");
        assert(w@ =~= before_status + (" AND i.status IN ("@ + placeholders(st@.len()) + ")"@));
    } else {
        assert(w@ =~= before_status + Seq::<char>::empty());
    }
    assert(Seq::<char>::empty() + clause(filter.epic_id is Some, " AND i.epic_id = ?"@) =~= clause(filter.epic_id is Some, " AND i.epic_id = ?"@));
    assert(w@ =~= issue_where(*filter));

    let mut args: Vec<SqlArg> = Vec::new();
    push_int_arg(&mut args, filter.epic_id);
    push_int_arg(&mut args, filter.mission_id);
    if !filter.backlog_only {
        push_int_arg(&mut args, filter.sprint_id);
    }
    push_text_arg(&mut args, &filter.project_key);
    let ghost before_st = arg_views(args@);
    let mut k: usize = 0;
    while k < st.len()
        invariant
            k <= st@.len(),
            arg_views(args@) == before_st + status_args(st@.take(k as int)),
        decreases st@.len() - k,
    {
        push_arg(&mut args, SqlArg::Text(String::from_str(st[k].as_str())));
        assert(status_args(st@.take(k + 1)) =~= status_args(st@.take(k as int)).push(SqlArgView::Text(st@[k as int].name())));
        k = k + 1;
    }
    assert(st@.take(k as int) =~= st@);
    assert(arg_views(Seq::<SqlArg>::empty()) =~= Seq::<SqlArgView>::empty());
    assert(arg_views(args@) =~= issue_args(*filter));

    let compact = match filter.compact { Some(c) => c, None => false };
    let mut count_sql = String::from_str("SELECT COUNT(DISTINCT i.id) FROM issues i JOIN epics e ON i.epic_id = e.id WHERE 1=1 ");
    push_str(&mut count_sql, w.as_str());
    let mut items_sql = String::from_str("SELECT ");
    push_str(&mut items_sql, if compact { ISSUE_LIST_COMPACT_COLUMNS } else { ISSUE_COLUMNS });
    push_str(&mut items_sql, " FROM issues i JOIN epics e ON i.epic_id = e.id");
    push_clause(&mut items_sql, compact, " LEFT JOIN notes n ON i.id = n.issue_id LEFT JOIN tasks t ON i.id = t.issue_id");
    push_str(&mut items_sql, " WHERE 1=1 ");
    push_str(&mut items_sql, w.as_str());
    push_str(&mut items_sql, " ");
    push_clause(&mut items_sql, compact, " GROUP BY i.id, e.mission_id, e.sprint_id");
    push_str(&mut items_sql, " ORDER BY i.id DESC LIMIT ? OFFSET ?");
    assert((filter.compact == Some(true)) == compact);
    assert(items_sql@ =~= issue_items_sql(*filter));
    let (limit, offset) = apply_pagination(filter.limit, filter.offset);
    ListQuery { count_sql, items_sql, args, limit, offset }
}

/// The number of `?` placeholders in a query text.
pub open spec fn count_marks(s: Seq<char>) -> nat
    decreases s.len(),
{
    if s.len() == 0 {
        0
    } else {
        count_marks(s.drop_last()) + (if s.last() == '?' { 1nat } else { 0nat })
    }
}

proof fn lemma_count_marks_concat(a: Seq<char>, b: Seq<char>)
    ensures
        count_marks(a + b) == count_marks(a) + count_marks(b),
    decreases b.len(),
{
    if b.len() == 0 {
        assert(a + b =~= a);
    } else {
        lemma_count_marks_concat(a, b.drop_last());
        assert((a + b).drop_last() =~= a + b.drop_last());
    }
}

proof fn lemma_placeholders_marks(n: nat)
    ensures
        count_marks(placeholders(n)) == n,
    decreases n,
{
    if n == 1 {
        reveal_strlit("?");
        lemma_one_mark("?"@);
    } else if n > 1 {
        lemma_placeholders_marks((n - 1) as nat);
        reveal_strlit(",?");
        lemma_one_mark(",?"@);
        lemma_count_marks_concat(placeholders((n - 1) as nat), ",?"@);
    }
}

proof fn lemma_one_mark(s: Seq<char>)
    requires
        s.len() > 0,
        s.last() == '?',
        forall|i: int| 0 <= i < s.len() - 1 ==> s[i] != '?',
    ensures
        count_marks(s) == 1,
{
    lemma_no_marks(s.drop_last());
}

proof fn lemma_no_marks(s: Seq<char>)
    requires
        forall|i: int| 0 <= i < s.len() ==> s[i] != '?',
    ensures
        count_marks(s) == 0,
    decreases s.len(),
{
    if s.len() > 0 {
        lemma_no_marks(s.drop_last());
    }
}

proof fn lemma_status_args_len(st: Seq<IssueStatus>)
    ensures
        status_args(st).len() == st.len(),
{
}

/// An issue listing binds exactly one value per `?` of its conditions.
pub proof fn law_issue_query_binds_every_mark(f: IssueFilter)
    ensures
        count_marks(issue_where(f)) == issue_args(f).len(),
{
    reveal_strlit(" AND i.epic_id = ?");
    reveal_strlit(" AND e.mission_id = ?");
    reveal_strlit(" AND e.sprint_id IS NULL");
    reveal_strlit(" AND e.sprint_id = ?");
    reveal_strlit(" AND e.project_key = ?");
    reveal_strlit(" AND i.status IN (");
    reveal_strlit(")");
    let a = clause(f.epic_id is Some, " AND i.epic_id = ?"@);
    let b = clause(f.mission_id is Some, " AND e.mission_id = ?"@);
    let c = if f.backlog_only { " AND e.sprint_id IS NULL"@ } else { clause(f.sprint_id is Some, " AND e.sprint_id = ?"@) };
    let d = clause(f.project_key is Some, " AND e.project_key = ?"@);
    let st = target_statuses(f.status, opt_statuses(f.statuses));
    let e = clause(st.len() > 0, " AND i.status IN ("@ + placeholders(st.len()) + ")"@);
    if f.epic_id is Some { lemma_one_mark(" AND i.epic_id = ?"@); } else { lemma_no_marks(a); }
    if f.mission_id is Some { lemma_one_mark(" AND e.mission_id = ?"@); } else { lemma_no_marks(b); }
    if f.backlog_only {
        lemma_no_marks(c);
    } else if f.sprint_id is Some {
        lemma_one_mark(" AND e.sprint_id = ?"@);
    } else {
        lemma_no_marks(c);
    }
    if f.project_key is Some { lemma_one_mark(" AND e.project_key = ?"@); } else { lemma_no_marks(d); }
    if st.len() > 0 {
        lemma_no_marks(" AND i.status IN ("@);
        lemma_no_marks(")"@);
        lemma_placeholders_marks(st.len());
        lemma_count_marks_concat(" AND i.status IN ("@, placeholders(st.len()));
        lemma_count_marks_concat(" AND i.status IN ("@ + placeholders(st.len()), ")"@);
    } else {
        lemma_no_marks(e);
    }
    lemma_count_marks_concat(a, b);
    lemma_count_marks_concat(a + b, c);
    lemma_count_marks_concat(a + b + c, d);
    lemma_count_marks_concat(a + b + c + d, e);
    lemma_status_args_len(st);
}

/// The place in the conditions where the mission condition goes: after the
/// epic condition.
pub open spec fn mission_slot(f: IssueFilter) -> (int, int) {
    if f.epic_id is Some { (" AND i.epic_id = ?"@.len() as int, 1) } else { (0, 0) }
}

/// Filtering an issue listing by an epic puts the equality condition
/// ` AND i.epic_id = ?` first, with the epic's id bound first; nothing else
/// changes.
pub proof fn law_epic_filter_selects_its_epic(f: IssueFilter, id: i64)
    ensures
        issue_where(IssueFilter { epic_id: Some(id), ..f })
            == " AND i.epic_id = ?"@ + issue_where(IssueFilter { epic_id: None, ..f }),
        issue_args(IssueFilter { epic_id: Some(id), ..f })
            == seq![SqlArgView::Int(id)] + issue_args(IssueFilter { epic_id: None, ..f }),
{
    let h = IssueFilter { epic_id: Some(id), ..f };
    let g = IssueFilter { epic_id: None, ..f };
    assert(issue_where(h) =~= " AND i.epic_id = ?"@ + issue_where(g));
    assert(issue_args(h) =~= seq![SqlArgView::Int(id)] + issue_args(g));
}

proof fn lemma_insert_text<T>(p: Seq<T>, q: Seq<T>, t: Seq<T>)
    ensures
        (p + q).take(p.len() as int) + t + (p + q).skip(p.len() as int) == p + t + q,
{
    assert((p + q).take(p.len() as int) =~= p);
    assert((p + q).skip(p.len() as int) =~= q);
}

proof fn lemma_insert_arg(x: Seq<SqlArgView>, y: Seq<SqlArgView>, v: SqlArgView)
    ensures
        (x + y).insert(x.len() as int, v) == x + seq![v] + y,
{
    assert((x + y).insert(x.len() as int, v) =~= x + seq![v] + y);
}

/// Filtering an issue listing by a mission adds the equality condition
/// ` AND e.mission_id = ?` right after the epic condition, with the
/// mission's id bound in the matching place; nothing else changes.
#[verifier::spinoff_prover]
pub proof fn law_mission_filter_selects_its_mission(f: IssueFilter, m: i64)
    ensures
        issue_where(IssueFilter { mission_id: Some(m), ..f })
            == issue_where(IssueFilter { mission_id: None, ..f }).take(mission_slot(f).0)
                + " AND e.mission_id = ?"@
                + issue_where(IssueFilter { mission_id: None, ..f }).skip(mission_slot(f).0),
        issue_args(IssueFilter { mission_id: Some(m), ..f })
            == issue_args(IssueFilter { mission_id: None, ..f }).insert(mission_slot(f).1, SqlArgView::Int(m)),
{
    let st = target_statuses(f.status, opt_statuses(f.statuses));
    let a = clause(f.epic_id is Some, " AND i.epic_id = ?"@);
    let c = if f.backlog_only { " AND e.sprint_id IS NULL"@ } else { clause(f.sprint_id is Some, " AND e.sprint_id = ?"@) };
    let d = clause(f.project_key is Some, " AND e.project_key = ?"@);
    let e = clause(st.len() > 0, " AND i.status IN ("@ + placeholders(st.len()) + ")"@);
    let t = " AND e.mission_id = ?"@;
    assert(issue_where(IssueFilter { mission_id: None, ..f }) =~= a + (c + d + e));
    assert(issue_where(IssueFilter { mission_id: Some(m), ..f }) =~= a + t + (c + d + e));
    lemma_insert_text(a, c + d + e, t);
    let x = int_arg(f.epic_id);
    let y = (if f.backlog_only { Seq::<SqlArgView>::empty() } else { int_arg(f.sprint_id) })
        + text_arg(opt_view(f.project_key)) + status_args(st);
    assert(issue_args(IssueFilter { mission_id: None, ..f }) =~= x + y);
    assert(issue_args(IssueFilter { mission_id: Some(m), ..f }) =~= x + seq![SqlArgView::Int(m)] + y);
    lemma_insert_arg(x, y, SqlArgView::Int(m));
}

/// The place in the conditions where the sprint condition goes: after the
/// epic and mission conditions.
pub open spec fn sprint_slot(f: IssueFilter) -> (int, int) {
    (
        (if f.epic_id is Some { " AND i.epic_id = ?"@.len() as int } else { 0 })
            + (if f.mission_id is Some { " AND e.mission_id = ?"@.len() as int } else { 0 }),
        (if f.epic_id is Some { 1int } else { 0 }) + (if f.mission_id is Some { 1int } else { 0 }),
    )
}

/// The place in the conditions where the project condition goes: after the
/// epic, mission and sprint (or backlog) conditions.
pub open spec fn project_slot(f: IssueFilter) -> (int, int) {
    (
        sprint_slot(f).0 + (if f.backlog_only { " AND e.sprint_id IS NULL"@.len() as int }
            else if f.sprint_id is Some { " AND e.sprint_id = ?"@.len() as int } else { 0 }),
        sprint_slot(f).1 + (if !f.backlog_only && f.sprint_id is Some { 1int } else { 0 }),
    )
}

/// Outside the backlog, filtering an issue listing by a sprint adds the
/// equality condition ` AND e.sprint_id = ?` after the epic and mission
/// conditions, with the sprint's id bound in the matching place; nothing
/// else changes.
#[verifier::spinoff_prover]
pub proof fn law_sprint_filter_selects_its_sprint(f: IssueFilter, sp: i64)
    requires
        !f.backlog_only,
    ensures
        issue_where(IssueFilter { sprint_id: Some(sp), ..f })
            == issue_where(IssueFilter { sprint_id: None, ..f }).take(sprint_slot(f).0)
                + " AND e.sprint_id = ?"@
                + issue_where(IssueFilter { sprint_id: None, ..f }).skip(sprint_slot(f).0),
        issue_args(IssueFilter { sprint_id: Some(sp), ..f })
            == issue_args(IssueFilter { sprint_id: None, ..f }).insert(sprint_slot(f).1, SqlArgView::Int(sp)),
{
    let st = target_statuses(f.status, opt_statuses(f.statuses));
    let ab = clause(f.epic_id is Some, " AND i.epic_id = ?"@) + clause(f.mission_id is Some, " AND e.mission_id = ?"@);
    let de = clause(f.project_key is Some, " AND e.project_key = ?"@)
        + clause(st.len() > 0, " AND i.status IN ("@ + placeholders(st.len()) + ")"@);
    let t = " AND e.sprint_id = ?"@;
    assert(issue_where(IssueFilter { sprint_id: None, ..f }) =~= ab + de);
    assert(issue_where(IssueFilter { sprint_id: Some(sp), ..f }) =~= ab + t + de);
    lemma_insert_text(ab, de, t);
    let x = int_arg(f.epic_id) + int_arg(f.mission_id);
    let y = text_arg(opt_view(f.project_key)) + status_args(st);
    assert(issue_args(IssueFilter { sprint_id: None, ..f }) =~= x + y);
    assert(issue_args(IssueFilter { sprint_id: Some(sp), ..f }) =~= x + seq![SqlArgView::Int(sp)] + y);
    lemma_insert_arg(x, y, SqlArgView::Int(sp));
}

/// Filtering an issue listing by a project adds the equality condition
/// ` AND e.project_key = ?` after the epic, mission and sprint conditions,
/// with the project's key bound in the matching place; nothing else
/// changes.
#[verifier::spinoff_prover]
pub proof fn law_project_filter_selects_its_project(f: IssueFilter, pk: String)
    ensures
        issue_where(IssueFilter { project_key: Some(pk), ..f })
            == issue_where(IssueFilter { project_key: None, ..f }).take(project_slot(f).0)
                + " AND e.project_key = ?"@
                + issue_where(IssueFilter { project_key: None, ..f }).skip(project_slot(f).0),
        issue_args(IssueFilter { project_key: Some(pk), ..f })
            == issue_args(IssueFilter { project_key: None, ..f }).insert(project_slot(f).1, SqlArgView::Text(pk@)),
{
    let st = target_statuses(f.status, opt_statuses(f.statuses));
    let abc = clause(f.epic_id is Some, " AND i.epic_id = ?"@) + clause(f.mission_id is Some, " AND e.mission_id = ?"@)
        + (if f.backlog_only { " AND e.sprint_id IS NULL"@ } else { clause(f.sprint_id is Some, " AND e.sprint_id = ?"@) });
    let e = clause(st.len() > 0, " AND i.status IN ("@ + placeholders(st.len()) + ")"@);
    let t = " AND e.project_key = ?"@;
    assert(issue_where(IssueFilter { project_key: None, ..f }) =~= abc + e);
    assert(issue_where(IssueFilter { project_key: Some(pk), ..f }) =~= abc + t + e);
    lemma_insert_text(abc, e, t);
    let x = int_arg(f.epic_id) + int_arg(f.mission_id)
        + (if f.backlog_only { Seq::<SqlArgView>::empty() } else { int_arg(f.sprint_id) });
    let y = status_args(st);
    assert(issue_args(IssueFilter { project_key: None, ..f }) =~= x + y);
    assert(issue_args(IssueFilter { project_key: Some(pk), ..f }) =~= x + seq![SqlArgView::Text(pk@)] + y);
    lemma_insert_arg(x, y, SqlArgView::Text(pk@));
}

/// Filtering an issue listing by a single status adds the condition
/// ` AND i.status IN (?)` last, with the status's name bound last.
pub proof fn law_status_filter_selects_its_status(f: IssueFilter, st: IssueStatus)
    ensures
        issue_where(IssueFilter { status: Some(st), statuses: None, ..f })
            == issue_where(IssueFilter { status: None, statuses: None, ..f }) + (" AND i.status IN ("@ + "?"@ + ")"@),
        issue_args(IssueFilter { status: Some(st), statuses: None, ..f })
            == issue_args(IssueFilter { status: None, statuses: None, ..f }).push(SqlArgView::Text(st.name())),
{
    reveal_with_fuel(dedup, 2);
    let one = target_statuses(Some(st), None);
    assert(seq![st] + Seq::<IssueStatus>::empty() =~= seq![st]);
    assert(seq![st].drop_last() =~= Seq::<IssueStatus>::empty());
    assert(one =~= seq![st]);
    assert(target_statuses(None, None) =~= Seq::<IssueStatus>::empty());
    assert(status_args(one) =~= seq![SqlArgView::Text(st.name())]);
    assert(issue_where(IssueFilter { status: None, statuses: None, ..f })
        =~= issue_where(IssueFilter { status: None, statuses: None, ..f }) + Seq::<char>::empty());
    assert(issue_args(IssueFilter { status: Some(st), statuses: None, ..f })
        =~= issue_args(IssueFilter { status: None, statuses: None, ..f }).push(SqlArgView::Text(st.name())));
}

/// A backlog listing ignores the sprint filter: asking for a sprint changes
/// neither the conditions nor the bound values.
pub proof fn law_backlog_ignores_the_sprint(f: IssueFilter, sp: i64)
    requires
        f.backlog_only,
    ensures
        issue_where(IssueFilter { sprint_id: Some(sp), ..f }) == issue_where(IssueFilter { sprint_id: None, ..f }),
        issue_args(IssueFilter { sprint_id: Some(sp), ..f }) == issue_args(IssueFilter { sprint_id: None, ..f }),
{
}

/// The filter of a note listing.
#[derive(Clone, Debug)]
pub struct NoteListFilter {
    pub issue_id: Option<i64>,
    pub task_id: Option<i64>,
    pub note_type: Option<NoteType>,
    pub note_types: Option<Vec<NoteType>>,
    pub include_resolved: bool,
    pub include_detail: bool,
    pub project_key: Option<String>,
    pub sprint_id: Option<i64>,
    pub epic_id: Option<i64>,
    /// With an epic: also the notes of its issues and their tasks.
    pub rollup: Option<bool>,
    pub limit: Option<i64>,
    pub offset: Option<i64>,
    /// Without the full detail: its first 200 characters.
    pub compact: Option<bool>,
    pub updated_after: Option<String>,
}

/// The note types of a filter, as a sequence (none when absent).
pub open spec fn listed_types(v: Option<Vec<NoteType>>) -> Seq<NoteType> {
    match v { Some(x) => x@, None => Seq::empty() }
}

/// The detail column of a note listing: in full, cut to 200 characters
/// (compact), or none.
pub open spec fn note_detail_column(f: NoteListFilter) -> Seq<char> {
    if f.include_detail {
        "n.detail"@
    } else if f.compact == Some(true) {
        "CASE WHEN n.detail IS NOT NULL THEN SUBSTR(n.detail, 1, 200) ELSE NULL END AS detail"@
    } else {
        "NULL AS detail"@
    }
}

/// The epic condition of a note listing: the epic's own notes, or with
/// `rollup` also those of its issues and their tasks.
pub open spec fn note_epic_clause(f: NoteListFilter) -> Seq<char> {
    if f.epic_id is Some {
        if f.rollup == Some(true) {
            " AND ( (n.scope = 'epic' AND n.scope_target_id = ?) OR (n.issue_id IN (SELECT id FROM issues WHERE epic_id = ?)) OR (n.task_id IN (SELECT id FROM tasks WHERE issue_id IN (SELECT id FROM issues WHERE epic_id = ?))) )"@
        } else {
            " AND n.scope = 'epic' AND n.scope_target_id = ?"@
        }
    } else {
        Seq::empty()
    }
}

/// The tables and conditions of a note listing, in order: issue, task,
/// type, types, unresolved only, project, sprint, epic, updated after.
pub open spec fn note_from_where(f: NoteListFilter) -> Seq<char> {
    let types = listed_types(f.note_types);
    "FROM notes n LEFT JOIN issues i ON n.issue_id = i.id LEFT JOIN epics ie ON i.epic_id = ie.id LEFT JOIN epics ee ON (n.scope = 'epic' AND n.scope_target_id = ee.id) WHERE 1=1"@
        + clause(f.issue_id is Some, " AND n.issue_id = ?"@)
        + clause(f.task_id is Some, " AND n.task_id = ?"@)
        + clause(f.note_type is Some, " AND n.note_type = ?"@)
        + clause(types.len() > 0, " AND n.note_type IN ("@ + placeholders(types.len()) + ")"@)
        + clause(!f.include_resolved, " AND n.resolved = 0"@)
        + clause(f.project_key is Some, " AND COALESCE(n.project_key, ie.project_key, ee.project_key) = ?"@)
        + clause(f.sprint_id is Some, " AND COALESCE(CASE WHEN n.scope = 'sprint' THEN n.scope_target_id ELSE NULL END, ie.sprint_id, ee.sprint_id) = ?"@)
        + note_epic_clause(f)
        + clause(f.updated_after is Some, " AND n.updated_at > ?"@)
}

/// The type names bound to the type conditions.
pub open spec fn type_args(t: Seq<NoteType>) -> Seq<SqlArgView> {
    Seq::new(t.len(), |i: int| SqlArgView::Text(t[i].name()))
}

/// The values bound to the conditions of a note listing, in order (the
/// epic three times with `rollup`).
pub open spec fn note_args(f: NoteListFilter) -> Seq<SqlArgView> {
    int_arg(f.issue_id) + int_arg(f.task_id)
        + (match f.note_type { Some(t) => seq![SqlArgView::Text(t.name())], None => Seq::empty() })
        + type_args(listed_types(f.note_types))
        + text_arg(opt_view(f.project_key))
        + int_arg(f.sprint_id)
        + (match f.epic_id {
            Some(e) => if f.rollup == Some(true) {
                seq![SqlArgView::Int(e), SqlArgView::Int(e), SqlArgView::Int(e)]
            } else {
                seq![SqlArgView::Int(e)]
            },
            None => Seq::empty(),
        })
        + text_arg(opt_view(f.updated_after))
}

/// The page query of a note listing: newest first.
pub open spec fn note_items_sql(f: NoteListFilter) -> Seq<char> {
    "SELECT n.id, n.issue_id, n.task_id, n.note_type, n.summary, "@ + note_detail_column(f)
        + ", n.author, n.agent_id, n.resolved, n.scope, n.scope_target_id, n.project_key, n.created_at, n.resolved_at, n.updated_at "@
        + note_from_where(f) + " ORDER BY n.created_at DESC LIMIT ? OFFSET ?"@
}

fn note_where_text(f: &NoteListFilter) -> (w: String)
    ensures
        w@ == note_from_where(*f),
{
    let mut w = String::from_str("FROM notes n LEFT JOIN issues i ON n.issue_id = i.id LEFT JOIN epics ie ON i.epic_id = ie.id LEFT JOIN epics ee ON (n.scope = 'epic' AND n.scope_target_id = ee.id) WHERE 1=1");
    push_clause(&mut w, f.issue_id.is_some(), " AND n.issue_id = ?");
    push_clause(&mut w, f.task_id.is_some(), " AND n.task_id = ?");
    push_clause(&mut w, f.note_type.is_some(), " AND n.note_type = ?");
    let n_types: usize = match &f.note_types { Some(v) => v.len(), None => 0 };
    let ghost before_types = w@;
    if n_types > 0 {
        push_str(&mut w, " AND n.note_type IN (");
        push_placeholders(&mut w, n_types);
        push_str(&mut w, ")");
        assert(w@ =~= before_types + (" AND n.note_type IN ("@ + placeholders(n_types as nat) + ")"@));
    } else {
        assert(w@ =~= before_types + Seq::<char>::empty());
    }
    push_clause(&mut w, !f.include_resolved, " AND n.resolved = 0");
    push_clause(&mut w, f.project_key.is_some(), " AND COALESCE(n.project_key, ie.project_key, ee.project_key) = ?");
    push_clause(&mut w, f.sprint_id.is_some(), " AND COALESCE(CASE WHEN n.scope = 'sprint' THEN n.scope_target_id ELSE NULL END, ie.sprint_id, ee.sprint_id) = ?");
    let rollup = match f.rollup { Some(b) => b, None => false };
    let ghost before_epic = w@;
    if f.epic_id.is_some() {
        if rollup {
            push_str(&mut w, " AND ( (n.scope = 'epic' AND n.scope_target_id = ?) OR (n.issue_id IN (SELECT id FROM issues WHERE epic_id = ?)) OR (n.task_id IN (SELECT id FROM tasks WHERE issue_id IN (SELECT id FROM issues WHERE epic_id = ?))) )");
        } else {
            push_str(&mut w, " AND n.scope = 'epic' AND n.scope_target_id = ?");
        }
    } else {
        assert(w@ =~= before_epic + Seq::<char>::empty());
    }
    push_clause(&mut w, f.updated_after.is_some(), " AND n.updated_at > ?");
    assert(w@ =~= note_from_where(*f));

    w
}

fn note_args_vec(f: &NoteListFilter) -> (args: Vec<SqlArg>)
    ensures
        arg_views(args@) == note_args(*f),
{
    let rollup = match f.rollup { Some(b) => b, None => false };
    let mut args: Vec<SqlArg> = Vec::new();
    push_int_arg(&mut args, f.issue_id);
    push_int_arg(&mut args, f.task_id);
    let ghost before_type = arg_views(args@);
    match f.note_type {
        Some(t) => {
            push_arg(&mut args, SqlArg::Text(String::from_str(t.as_str())));
            assert(arg_views(args@) =~= before_type + seq![SqlArgView::Text(t.name())]);
        },
        None => {
            assert(arg_views(args@) =~= before_type + Seq::<SqlArgView>::empty());
        },
    }
    let ghost before_types_args = arg_views(args@);
    match &f.note_types {
        Some(v) => {
            let mut k: usize = 0;
            while k < v.len()
                invariant
                    k <= v@.len(),
                    arg_views(args@) == before_types_args + type_args(v@.take(k as int)),
                decreases v@.len() - k,
            {
                push_arg(&mut args, SqlArg::Text(String::from_str(v[k].as_str())));
                assert(type_args(v@.take(k + 1)) =~= type_args(v@.take(k as int)).push(SqlArgView::Text(v@[k as int].name())));
                k = k + 1;
            }
            assert(v@.take(k as int) =~= v@);
        },
        None => {
            assert(type_args(Seq::<NoteType>::empty()) =~= Seq::<SqlArgView>::empty());
            assert(arg_views(args@) =~= before_types_args + type_args(Seq::<NoteType>::empty()));
        },
    }
    push_text_arg(&mut args, &f.project_key);
    push_int_arg(&mut args, f.sprint_id);
    let ghost before_epic_args = arg_views(args@);
    match f.epic_id {
        Some(e) => {
            push_arg(&mut args, SqlArg::Int(e));
            if rollup {
                push_arg(&mut args, SqlArg::Int(e));
                push_arg(&mut args, SqlArg::Int(e));
                assert(arg_views(args@) =~= before_epic_args + seq![SqlArgView::Int(e), SqlArgView::Int(e), SqlArgView::Int(e)]);
            } else {
                assert(arg_views(args@) =~= before_epic_args + seq![SqlArgView::Int(e)]);
            }
        },
        None => {
            assert(arg_views(args@) =~= before_epic_args + Seq::<SqlArgView>::empty());
        },
    }
    push_text_arg(&mut args, &f.updated_after);
    assert(arg_views(Seq::<SqlArg>::empty()) =~= Seq::<SqlArgView>::empty());
    assert(arg_views(args@) =~= note_args(*f));

    args
}

/// The note listing query of a filter; see [`note_from_where`],
/// [`note_args`] and [`apply_pagination`].
pub fn note_list_query(f: &NoteListFilter) -> (r: ListQuery)
    ensures
        r.count_sql@ == "SELECT COUNT(*) "@ + note_from_where(*f),
        r.items_sql@ == note_items_sql(*f),
        arg_views(r.args@) == note_args(*f),
        r.limit == page_limit(f.limit),
        r.offset == page_offset(f.offset),
{
    let w = note_where_text(f);
    let args = note_args_vec(f);
    let mut count_sql = String::from_str("SELECT COUNT(*) ");
    push_str(&mut count_sql, w.as_str());
    let compact = match f.compact { Some(c) => c, None => false };
    let detail = if f.include_detail {
        "n.detail"
    } else if compact {
        "CASE WHEN n.detail IS NOT NULL THEN SUBSTR(n.detail, 1, 200) ELSE NULL END AS detail"
    } else {
        "NULL AS detail"
    };
    let mut items_sql = String::from_str("SELECT n.id, n.issue_id, n.task_id, n.note_type, n.summary, ");
    push_str(&mut items_sql, detail);
    push_str(&mut items_sql, ", n.author, n.agent_id, n.resolved, n.scope, n.scope_target_id, n.project_key, n.created_at, n.resolved_at, n.updated_at ");
    push_str(&mut items_sql, w.as_str());
    push_str(&mut items_sql, " ORDER BY n.created_at DESC LIMIT ? OFFSET ?");
    assert(items_sql@ =~= note_items_sql(*f));
    let (limit, offset) = apply_pagination(f.limit, f.offset);
    ListQuery { count_sql, items_sql, args, limit, offset }
}

/// How a note listing is read in a given output mode: the ref, agent and
/// compact modes drop the full detail and ask for the compact form.
pub fn note_list_mode_filter(f: NoteListFilter, mode: crate::enums::OutputMode) -> (r: NoteListFilter)
    ensures
        ({
            let short = mode == crate::enums::OutputMode::Compact || mode == crate::enums::OutputMode::Agent
                || mode == crate::enums::OutputMode::Ref;
            &&& r.include_detail == (if short { false } else { f.include_detail })
            &&& r.compact == (if short { Some(true) } else { None::<bool> })
            &&& r.issue_id == f.issue_id && r.task_id == f.task_id && r.note_type == f.note_type
            &&& r.note_types == f.note_types && r.include_resolved == f.include_resolved
            &&& r.project_key == f.project_key && r.sprint_id == f.sprint_id && r.epic_id == f.epic_id
            &&& r.rollup == f.rollup && r.limit == f.limit && r.offset == f.offset
            &&& r.updated_after == f.updated_after
        }),
{
    let short = match mode {
        crate::enums::OutputMode::Compact | crate::enums::OutputMode::Agent | crate::enums::OutputMode::Ref => true,
        _ => false,
    };
    NoteListFilter {
        include_detail: if short { false } else { f.include_detail },
        compact: if short { Some(true) } else { None },
        ..f
    }
}

} // verus!

verus! {

proof fn lemma_rollup_marks()
    ensures
        count_marks(" AND ( (n.scope = 'epic' AND n.scope_target_id = ?) OR (n.issue_id IN (SELECT id FROM issues WHERE epic_id = ?)) OR (n.task_id IN (SELECT id FROM tasks WHERE issue_id IN (SELECT id FROM issues WHERE epic_id = ?))) )"@) == 3,
{
    let p1 = " AND ( (n.scope = 'epic' AND n.scope_target_id = ?"@;
    let p2 = ") OR (n.issue_id IN (SELECT id FROM issues WHERE epic_id = ?"@;
    let p3 = ")) OR (n.task_id IN (SELECT id FROM tasks WHERE issue_id IN (SELECT id FROM issues WHERE epic_id = ?"@;
    let p4 = "))) )"@;
    reveal_strlit(" AND ( (n.scope = 'epic' AND n.scope_target_id = ?) OR (n.issue_id IN (SELECT id FROM issues WHERE epic_id = ?)) OR (n.task_id IN (SELECT id FROM tasks WHERE issue_id IN (SELECT id FROM issues WHERE epic_id = ?))) )");
    reveal_strlit(" AND ( (n.scope = 'epic' AND n.scope_target_id = ?");
    reveal_strlit(") OR (n.issue_id IN (SELECT id FROM issues WHERE epic_id = ?");
    reveal_strlit(")) OR (n.task_id IN (SELECT id FROM tasks WHERE issue_id IN (SELECT id FROM issues WHERE epic_id = ?");
    reveal_strlit("))) )");
    assert(" AND ( (n.scope = 'epic' AND n.scope_target_id = ?) OR (n.issue_id IN (SELECT id FROM issues WHERE epic_id = ?)) OR (n.task_id IN (SELECT id FROM tasks WHERE issue_id IN (SELECT id FROM issues WHERE epic_id = ?))) )"@
        =~= p1 + p2 + p3 + p4);
    lemma_one_mark(p1);
    lemma_one_mark(p2);
    lemma_one_mark(p3);
    lemma_no_marks(p4);
    lemma_count_marks_concat(p1, p2);
    lemma_count_marks_concat(p1 + p2, p3);
    lemma_count_marks_concat(p1 + p2 + p3, p4);
}

proof fn lemma_clause_marks(present: bool, t: Seq<char>, n: nat)
    requires
        count_marks(t) == n,
    ensures
        count_marks(clause(present, t)) == (if present { n } else { 0 }),
{
    if !present {
        lemma_no_marks(clause(present, t));
    }
}

proof fn lemma_note_literal_marks()
    ensures
        count_marks("FROM notes n LEFT JOIN issues i ON n.issue_id = i.id LEFT JOIN epics ie ON i.epic_id = ie.id LEFT JOIN epics ee ON (n.scope = 'epic' AND n.scope_target_id = ee.id) WHERE 1=1"@) == 0,
        count_marks(" AND n.issue_id = ?"@) == 1,
        count_marks(" AND n.task_id = ?"@) == 1,
        count_marks(" AND n.note_type = ?"@) == 1,
        count_marks(" AND n.resolved = 0"@) == 0,
        count_marks(" AND COALESCE(n.project_key, ie.project_key, ee.project_key) = ?"@) == 1,
        count_marks(" AND COALESCE(CASE WHEN n.scope = 'sprint' THEN n.scope_target_id ELSE NULL END, ie.sprint_id, ee.sprint_id) = ?"@) == 1,
        count_marks(" AND n.scope = 'epic' AND n.scope_target_id = ?"@) == 1,
        count_marks(" AND n.updated_at > ?"@) == 1,
        count_marks(" AND n.note_type IN ("@) == 0,
        count_marks(")"@) == 0,
{
    assert(count_marks("FROM notes n LEFT JOIN issues i ON n.issue_id = i.id LEFT JOIN epics ie ON i.epic_id = ie.id LEFT JOIN epics ee ON (n.scope = 'epic' AND n.scope_target_id = ee.id) WHERE 1=1"@) == 0) by {
        reveal_strlit("FROM notes n LEFT JOIN issues i ON n.issue_id = i.id LEFT JOIN epics ie ON i.epic_id = ie.id LEFT JOIN epics ee ON (n.scope = 'epic' AND n.scope_target_id = ee.id) WHERE 1=1");
        lemma_no_marks("FROM notes n LEFT JOIN issues i ON n.issue_id = i.id LEFT JOIN epics ie ON i.epic_id = ie.id LEFT JOIN epics ee ON (n.scope = 'epic' AND n.scope_target_id = ee.id) WHERE 1=1"@);
    }
    assert(count_marks(" AND n.issue_id = ?"@) == 1) by {
        reveal_strlit(" AND n.issue_id = ?");
        lemma_one_mark(" AND n.issue_id = ?"@);
    }
    assert(count_marks(" AND n.task_id = ?"@) == 1) by {
        reveal_strlit(" AND n.task_id = ?");
        lemma_one_mark(" AND n.task_id = ?"@);
    }
    assert(count_marks(" AND n.note_type = ?"@) == 1) by {
        reveal_strlit(" AND n.note_type = ?");
        lemma_one_mark(" AND n.note_type = ?"@);
    }
    assert(count_marks(" AND n.resolved = 0"@) == 0) by {
        reveal_strlit(" AND n.resolved = 0");
        lemma_no_marks(" AND n.resolved = 0"@);
    }
    assert(count_marks(" AND COALESCE(n.project_key, ie.project_key, ee.project_key) = ?"@) == 1) by {
        reveal_strlit(" AND COALESCE(n.project_key, ie.project_key, ee.project_key) = ?");
        lemma_one_mark(" AND COALESCE(n.project_key, ie.project_key, ee.project_key) = ?"@);
    }
    assert(count_marks(" AND COALESCE(CASE WHEN n.scope = 'sprint' THEN n.scope_target_id ELSE NULL END, ie.sprint_id, ee.sprint_id) = ?"@) == 1) by {
        reveal_strlit(" AND COALESCE(CASE WHEN n.scope = 'sprint' THEN n.scope_target_id ELSE NULL END, ie.sprint_id, ee.sprint_id) = ?");
        lemma_one_mark(" AND COALESCE(CASE WHEN n.scope = 'sprint' THEN n.scope_target_id ELSE NULL END, ie.sprint_id, ee.sprint_id) = ?"@);
    }
    assert(count_marks(" AND n.scope = 'epic' AND n.scope_target_id = ?"@) == 1) by {
        reveal_strlit(" AND n.scope = 'epic' AND n.scope_target_id = ?");
        lemma_one_mark(" AND n.scope = 'epic' AND n.scope_target_id = ?"@);
    }
    assert(count_marks(" AND n.updated_at > ?"@) == 1) by {
        reveal_strlit(" AND n.updated_at > ?");
        lemma_one_mark(" AND n.updated_at > ?"@);
    }
    assert(count_marks(" AND n.note_type IN ("@) == 0) by {
        reveal_strlit(" AND n.note_type IN (");
        lemma_no_marks(" AND n.note_type IN ("@);
    }
    assert(count_marks(")"@) == 0) by {
        reveal_strlit(")");
        lemma_no_marks(")"@);
    }
}

proof fn lemma_note_types_marks(n: nat)
    ensures
        count_marks(" AND n.note_type IN ("@ + placeholders(n) + ")"@) == n,
{
    lemma_note_literal_marks();
    lemma_placeholders_marks(n);
    lemma_count_marks_concat(" AND n.note_type IN ("@, placeholders(n));
    lemma_count_marks_concat(" AND n.note_type IN ("@ + placeholders(n), ")"@);
}

proof fn lemma_note_epic_marks(f: NoteListFilter)
    ensures
        count_marks(note_epic_clause(f)) == (match f.epic_id {
            Some(_) => if f.rollup == Some(true) { 3nat } else { 1nat },
            None => 0nat,
        }),
{
    lemma_note_literal_marks();
    if f.epic_id is Some {
        if f.rollup == Some(true) {
            lemma_rollup_marks();
        }
    } else {
        lemma_no_marks(note_epic_clause(f));
    }
}

/// A note listing binds exactly one value per `?` of its conditions.
#[verifier::spinoff_prover]
#[verifier::rlimit(80)]
pub proof fn law_note_query_binds_every_mark(f: NoteListFilter)
    ensures
        count_marks(note_from_where(f)) == note_args(f).len(),
{
    let types = listed_types(f.note_types);
    let h = "FROM notes n LEFT JOIN issues i ON n.issue_id = i.id LEFT JOIN epics ie ON i.epic_id = ie.id LEFT JOIN epics ee ON (n.scope = 'epic' AND n.scope_target_id = ee.id) WHERE 1=1"@;
    let a = clause(f.issue_id is Some, " AND n.issue_id = ?"@);
    let b = clause(f.task_id is Some, " AND n.task_id = ?"@);
    let c = clause(f.note_type is Some, " AND n.note_type = ?"@);
    let d = clause(types.len() > 0, " AND n.note_type IN ("@ + placeholders(types.len()) + ")"@);
    let e = clause(!f.include_resolved, " AND n.resolved = 0"@);
    let g = clause(f.project_key is Some, " AND COALESCE(n.project_key, ie.project_key, ee.project_key) = ?"@);
    let k = clause(f.sprint_id is Some, " AND COALESCE(CASE WHEN n.scope = 'sprint' THEN n.scope_target_id ELSE NULL END, ie.sprint_id, ee.sprint_id) = ?"@);
    let m = note_epic_clause(f);
    let u = clause(f.updated_after is Some, " AND n.updated_at > ?"@);
    lemma_note_literal_marks();
    lemma_note_types_marks(types.len());
    lemma_note_epic_marks(f);
    lemma_clause_marks(f.issue_id is Some, " AND n.issue_id = ?"@, 1);
    lemma_clause_marks(f.task_id is Some, " AND n.task_id = ?"@, 1);
    lemma_clause_marks(f.note_type is Some, " AND n.note_type = ?"@, 1);
    lemma_clause_marks(types.len() > 0, " AND n.note_type IN ("@ + placeholders(types.len()) + ")"@, types.len());
    lemma_clause_marks(!f.include_resolved, " AND n.resolved = 0"@, 0);
    lemma_clause_marks(f.project_key is Some, " AND COALESCE(n.project_key, ie.project_key, ee.project_key) = ?"@, 1);
    lemma_clause_marks(f.sprint_id is Some, " AND COALESCE(CASE WHEN n.scope = 'sprint' THEN n.scope_target_id ELSE NULL END, ie.sprint_id, ee.sprint_id) = ?"@, 1);
    lemma_clause_marks(f.updated_after is Some, " AND n.updated_at > ?"@, 1);
    lemma_count_marks_concat(h, a);
    lemma_count_marks_concat(h + a, b);
    lemma_count_marks_concat(h + a + b, c);
    lemma_count_marks_concat(h + a + b + c, d);
    lemma_count_marks_concat(h + a + b + c + d, e);
    lemma_count_marks_concat(h + a + b + c + d + e, g);
    lemma_count_marks_concat(h + a + b + c + d + e + g, k);
    lemma_count_marks_concat(h + a + b + c + d + e + g + k, m);
    lemma_count_marks_concat(h + a + b + c + d + e + g + k + m, u);
    assert(type_args(types).len() == types.len());
}

} // verus!

verus! {

/// The columns of an epic row.
pub const EPIC_COLUMNS: &'static str = "id, project_key, mission_id, sprint_id, title, description, status, created_at, updated_at";

/// The columns of a mission row.
pub const MISSION_COLUMNS: &'static str = "id, jira_key, title, description, status, sprint_id, created_at, updated_at";

/// The candidates for the next task: ready tasks of ready or working issues
/// that no open issue blocks, with the rank of the issue's priority
/// (critical first) and of its status (working first).
pub const NEXT_TASK_SELECT: &'static str = "SELECT t.id AS task_id, t.title AS task_title, i.id AS issue_id, i.title AS issue_title, e.id AS epic_id, e.title AS epic_title, e.project_key AS project_key, CASE i.priority WHEN 'critical' THEN 0 WHEN 'high' THEN 1 WHEN 'medium' THEN 2 ELSE 3 END AS priority_ord, CASE i.status WHEN 'working' THEN 0 WHEN 'ready' THEN 1 ELSE 2 END AS status_ord FROM tasks t JOIN issues i ON t.issue_id = i.id JOIN epics e ON i.epic_id = e.id WHERE t.status = 'ready' AND i.status IN ('ready', 'working') AND NOT EXISTS (SELECT 1 FROM issue_links il JOIN issues bi ON il.source_id = bi.id WHERE il.target_id = i.id AND il.link_type = 'blocks' AND bi.status NOT IN ('finished','cancelled'))";

/// The order that picks the next task: priority rank, then status rank,
/// then the oldest issue; one row.
pub const NEXT_TASK_ORDER: &'static str = " ORDER BY priority_ord ASC, status_ord ASC, i.created_at ASC LIMIT 1";

/// The issues of one status with the minutes since they entered it (the
/// latest change-log row into the status, else their last update).
pub const STALLED_SELECT: &'static str = "SELECT i.id AS id, i.title AS title, e.project_key AS project_key, i.status AS status, i.priority AS priority, COALESCE(MAX(h.created_at), i.updated_at) AS entered_status_at, CAST((julianday('now') - julianday(COALESCE(MAX(h.created_at), i.updated_at))) * 24 * 60 AS INTEGER) AS minutes_in_status FROM issues i JOIN epics e ON e.id = i.epic_id LEFT JOIN history h ON h.entity_type = 'issue' AND h.entity_id = i.id AND h.field = 'status' AND h.new_value = ? WHERE i.status = ?";

/// Keeps the issues at or past the threshold, longest stalled first.
pub const STALLED_TAIL: &'static str = " GROUP BY i.id, i.title, e.project_key, i.status, i.priority, i.updated_at HAVING minutes_in_status >= ? ORDER BY minutes_in_status DESC";

/// The issue counts of a sprint per project and status.
pub const BOARD_COUNTS_SELECT: &'static str = "SELECT e.project_key, SUM(CASE WHEN i.status = 'required' THEN 1 ELSE 0 END) AS required, SUM(CASE WHEN i.status = 'ready' THEN 1 ELSE 0 END) AS ready, SUM(CASE WHEN i.status = 'working' THEN 1 ELSE 0 END) AS working, SUM(CASE WHEN i.status = 'demo' THEN 1 ELSE 0 END) AS demo, SUM(CASE WHEN i.status = 'finished' THEN 1 ELSE 0 END) AS finished, SUM(CASE WHEN i.status = 'cancelled' THEN 1 ELSE 0 END) AS cancelled, COUNT(*) AS total FROM issues i JOIN epics e ON i.epic_id = e.id WHERE e.sprint_id = ?";

/// The `blocks` links of a sprint whose blocker is still open.
pub const BLOCKED_CHAINS_SELECT: &'static str = "SELECT il.source_id AS blocker_id, bi.title AS blocker_title, il.target_id AS blocked_id, ti.title AS blocked_title FROM issue_links il JOIN issues bi ON il.source_id = bi.id JOIN issues ti ON il.target_id = ti.id JOIN epics be ON bi.epic_id = be.id WHERE il.link_type = 'blocks' AND be.sprint_id = ? AND bi.status NOT IN ('finished', 'cancelled')";

/// The next-task query: the candidates, of one project and one issue when
/// given, in picking order.
pub open spec fn next_task_sql_text(by_project: bool, by_issue: bool) -> Seq<char> {
    NEXT_TASK_SELECT@ + clause(by_project, " AND e.project_key = ?"@) + clause(by_issue, " AND i.id = ?"@) + NEXT_TASK_ORDER@
}

/// The next-task query; see [`next_task_sql_text`]. Binds the project, then
/// the issue.
pub fn next_task_sql(by_project: bool, by_issue: bool) -> (r: String)
    ensures
        r@ == next_task_sql_text(by_project, by_issue),
{
    let mut s = String::from_str(NEXT_TASK_SELECT);
    push_clause(&mut s, by_project, " AND e.project_key = ?");
    push_clause(&mut s, by_issue, " AND i.id = ?");
    push_str(&mut s, NEXT_TASK_ORDER);
    s
}

/// The stalled-issue query, of one project when given.
pub open spec fn stalled_sql_text(by_project: bool) -> Seq<char> {
    STALLED_SELECT@ + clause(by_project, " AND e.project_key = ?"@) + STALLED_TAIL@
}

/// The stalled-issue query; see [`stalled_sql_text`]. Binds the status
/// twice, the project, then the threshold in minutes.
pub fn stalled_sql(by_project: bool) -> (r: String)
    ensures
        r@ == stalled_sql_text(by_project),
{
    let mut s = String::from_str(STALLED_SELECT);
    push_clause(&mut s, by_project, " AND e.project_key = ?");
    push_str(&mut s, STALLED_TAIL);
    s
}

/// The board-count query, of one project when given, one row per project.
pub open spec fn board_counts_sql_text(by_project: bool) -> Seq<char> {
    BOARD_COUNTS_SELECT@ + clause(by_project, " AND e.project_key = ?"@) + " GROUP BY e.project_key ORDER BY e.project_key"@
}

/// The board-count query; see [`board_counts_sql_text`]. Binds the sprint,
/// then the project.
pub fn board_counts_sql(by_project: bool) -> (r: String)
    ensures
        r@ == board_counts_sql_text(by_project),
{
    let mut s = String::from_str(BOARD_COUNTS_SELECT);
    push_clause(&mut s, by_project, " AND e.project_key = ?");
    push_str(&mut s, " GROUP BY e.project_key ORDER BY e.project_key");
    s
}

/// The blocked-chain query, of one project when given.
pub open spec fn blocked_chains_sql_text(by_project: bool) -> Seq<char> {
    BLOCKED_CHAINS_SELECT@ + clause(by_project, " AND be.project_key = ?"@)
}

/// The blocked-chain query; see [`blocked_chains_sql_text`]. Binds the
/// sprint, then the project.
pub fn blocked_chains_sql(by_project: bool) -> (r: String)
    ensures
        r@ == blocked_chains_sql_text(by_project),
{
    let mut s = String::from_str(BLOCKED_CHAINS_SELECT);
    push_clause(&mut s, by_project, " AND be.project_key = ?");
    s
}

/// The epic listing: of one project when given, without completed epics
/// unless asked, then the backlog only or one sprint; newest first.
pub open spec fn epic_list_sql_text(by_project: bool, include_completed: bool, backlog_only: bool, by_sprint: bool) -> Seq<char> {
    "SELECT "@ + EPIC_COLUMNS@ + " FROM epics WHERE 1=1"@
        + clause(by_project, " AND project_key = ?"@)
        + clause(!include_completed, " AND status != 'completed'"@)
        + (if backlog_only { " AND sprint_id IS NULL"@ } else { clause(by_sprint, " AND sprint_id = ?"@) })
        + " ORDER BY id DESC"@
}

/// The epic listing; see [`epic_list_sql_text`]. Binds the project, then
/// the sprint unless the backlog is asked for.
pub fn epic_list_sql(by_project: bool, include_completed: bool, backlog_only: bool, by_sprint: bool) -> (r: String)
    ensures
        r@ == epic_list_sql_text(by_project, include_completed, backlog_only, by_sprint),
{
    let mut s = String::from_str("SELECT ");
    push_str(&mut s, EPIC_COLUMNS);
    push_str(&mut s, " FROM epics WHERE 1=1");
    push_clause(&mut s, by_project, " AND project_key = ?");
    push_clause(&mut s, !include_completed, " AND status != 'completed'");
    if backlog_only {
        push_str(&mut s, " AND sprint_id IS NULL");
    } else {
        push_clause(&mut s, by_sprint, " AND sprint_id = ?");
    }
    push_str(&mut s, " ORDER BY id DESC");
    s
}

/// The mission listing: of one status when given, else the active ones
/// unless completed ones are asked for; of one sprint when given; newest
/// first.
pub open spec fn mission_list_sql_text(by_status: bool, include_completed: bool, by_sprint: bool) -> Seq<char> {
    "SELECT "@ + MISSION_COLUMNS@ + " FROM missions WHERE 1=1"@
        + (if by_status { " AND status = ?"@ } else { clause(!include_completed, " AND status = 'active'"@) })
        + clause(by_sprint, " AND sprint_id = ?"@)
        + " ORDER BY id DESC"@
}

/// The mission listing; see [`mission_list_sql_text`]. Binds the status,
/// then the sprint.
pub fn mission_list_sql(by_status: bool, include_completed: bool, by_sprint: bool) -> (r: String)
    ensures
        r@ == mission_list_sql_text(by_status, include_completed, by_sprint),
{
    let mut s = String::from_str("SELECT ");
    push_str(&mut s, MISSION_COLUMNS);
    push_str(&mut s, " FROM missions WHERE 1=1");
    if by_status {
        push_str(&mut s, " AND status = ?");
    } else {
        push_clause(&mut s, !include_completed, " AND status = 'active'");
    }
    push_clause(&mut s, by_sprint, " AND sprint_id = ?");
    push_str(&mut s, " ORDER BY id DESC");
    s
}

} // verus!

verus! {

/// The columns of a note row.
pub const NOTE_COLUMNS: &'static str = "id, issue_id, task_id, note_type, summary, detail, author, agent_id, resolved, scope, scope_target_id, project_key, created_at, resolved_at, updated_at";

/// The columns of a note row without its detail (read back as none).
pub const NOTE_COLUMNS_NO_DETAIL: &'static str = "id, issue_id, task_id, note_type, summary, NULL AS detail, author, agent_id, resolved, scope, scope_target_id, project_key, created_at, resolved_at, updated_at";

/// The columns of a retrospective row.
pub const RETRO_COLUMNS: &'static str = "id, project_key, title, content, sprint_id, mission_id, epic_id, agent_id, created_at, updated_at";

/// The agents at work in a sprint: its working issues with a holder.
pub const ACTIVE_WORKERS_SELECT: &'static str = "SELECT i.id AS issue_id, i.title AS issue_title, i.assigned_agent AS agent_id, e.project_key AS project_key, i.updated_at AS since FROM issues i JOIN epics e ON e.id = i.epic_id WHERE i.status = 'working' AND i.assigned_agent IS NOT NULL AND e.sprint_id = ?";

/// The active missions with their epic count and finished share.
pub const ACTIVE_MISSIONS_SELECT: &'static str = "SELECT m.id, m.title, m.status, COUNT(DISTINCT e.id) AS epic_count, CAST(COUNT(CASE WHEN i.status = 'finished' THEN 1 END) AS REAL) / NULLIF(COUNT(i.id), 0) AS progress_rate FROM missions m LEFT JOIN epics e ON e.mission_id = m.id LEFT JOIN issues i ON i.epic_id = e.id WHERE m.status = 'active'";

/// The working tasks, with their issues.
pub const WORKING_TASKS_SELECT: &'static str = "SELECT t.id, t.title AS task_title, i.id AS issue_id, i.title AS issue_title FROM tasks t JOIN issues i ON t.issue_id = i.id JOIN epics e ON i.epic_id = e.id WHERE t.status = 'working'";

/// The agents at work, of one project when given, longest at work first.
pub open spec fn active_workers_sql_text(by_project: bool) -> Seq<char> {
    ACTIVE_WORKERS_SELECT@ + clause(by_project, " AND e.project_key = ?"@) + " ORDER BY i.updated_at ASC"@
}

/// The agents at work; see [`active_workers_sql_text`]. Binds the sprint,
/// then the project.
pub fn active_workers_sql(by_project: bool) -> (r: String)
    ensures
        r@ == active_workers_sql_text(by_project),
{
    let mut s = String::from_str(ACTIVE_WORKERS_SELECT);
    push_clause(&mut s, by_project, " AND e.project_key = ?");
    push_str(&mut s, " ORDER BY i.updated_at ASC");
    s
}

/// The open notes broadcast to a session: those of the sprint, of any of
/// its `n_epics` epics, and of the project when given; newest first. A
/// compact restore reads them without their detail.
pub open spec fn session_caveats_sql_text(n_epics: nat, by_project: bool, compact: bool) -> Seq<char> {
    "SELECT "@ + (if compact { NOTE_COLUMNS_NO_DETAIL@ } else { NOTE_COLUMNS@ })
        + " FROM notes WHERE resolved = 0 AND ((scope = 'sprint' AND scope_target_id = ?) OR (scope = 'epic' AND scope_target_id IN ("@
        + (if n_epics == 0 { "NULL"@ } else { placeholders(n_epics) }) + "))"@
        + clause(by_project, " OR (scope = 'project' AND project_key = ?)"@)
        + ") ORDER BY created_at DESC"@
}

/// The notes broadcast to a session; see [`session_caveats_sql_text`].
/// Binds the sprint, each epic, then the project.
pub fn session_caveats_sql(n_epics: usize, by_project: bool, compact: bool) -> (r: String)
    ensures
        r@ == session_caveats_sql_text(n_epics as nat, by_project, compact),
{
    let mut s = String::from_str("SELECT ");
    if compact {
        push_str(&mut s, NOTE_COLUMNS_NO_DETAIL);
    } else {
        push_str(&mut s, NOTE_COLUMNS);
    }
    push_str(&mut s, " FROM notes WHERE resolved = 0 AND ((scope = 'sprint' AND scope_target_id = ?) OR (scope = 'epic' AND scope_target_id IN (");
    if n_epics == 0 {
        push_str(&mut s, "NULL");
    } else {
        push_placeholders(&mut s, n_epics);
    }
    push_str(&mut s, "))");
    push_clause(&mut s, by_project, " OR (scope = 'project' AND project_key = ?)");
    push_str(&mut s, ") ORDER BY created_at DESC");
    s
}

/// The active missions of a session, those with an epic in the project when
/// one is given.
pub open spec fn active_missions_sql_text(by_project: bool) -> Seq<char> {
    ACTIVE_MISSIONS_SELECT@
        + clause(by_project, " AND EXISTS (SELECT 1 FROM epics ep WHERE ep.mission_id = m.id AND ep.project_key = ?)"@)
        + " GROUP BY m.id ORDER BY m.id"@
}

/// The active missions of a session; see [`active_missions_sql_text`].
pub fn active_missions_sql(by_project: bool) -> (r: String)
    ensures
        r@ == active_missions_sql_text(by_project),
{
    let mut s = String::from_str(ACTIVE_MISSIONS_SELECT);
    push_clause(&mut s, by_project, " AND EXISTS (SELECT 1 FROM epics ep WHERE ep.mission_id = m.id AND ep.project_key = ?)");
    push_str(&mut s, " GROUP BY m.id ORDER BY m.id");
    s
}

/// The working tasks checked at the end of a session, of one project when
/// given.
pub open spec fn working_tasks_sql_text(by_project: bool) -> Seq<char> {
    WORKING_TASKS_SELECT@ + clause(by_project, " AND e.project_key = ?"@)
}

/// The working tasks; see [`working_tasks_sql_text`].
pub fn working_tasks_sql(by_project: bool) -> (r: String)
    ensures
        r@ == working_tasks_sql_text(by_project),
{
    let mut s = String::from_str(WORKING_TASKS_SELECT);
    push_clause(&mut s, by_project, " AND e.project_key = ?");
    s
}

/// The issues of a sprint with their project, of one project when given,
/// by project, priority and id.
pub open spec fn board_rows_sql_text(by_project: bool) -> Seq<char> {
    "SELECT "@ + ISSUE_COLUMNS@ + ", e.project_key AS proj FROM issues i JOIN epics e ON i.epic_id = e.id WHERE e.sprint_id = ?"@
        + clause(by_project, " AND e.project_key = ?"@) + " ORDER BY e.project_key, i.priority, i.id"@
}

/// The issues of a sprint with their project; see [`board_rows_sql_text`].
/// Binds the sprint, then the project.
pub fn board_rows_sql(by_project: bool) -> (r: String)
    ensures
        r@ == board_rows_sql_text(by_project),
{
    let mut s = String::from_str("SELECT ");
    push_str(&mut s, ISSUE_COLUMNS);
    push_str(&mut s, ", e.project_key AS proj FROM issues i JOIN epics e ON i.epic_id = e.id WHERE e.sprint_id = ?");
    push_clause(&mut s, by_project, " AND e.project_key = ?");
    push_str(&mut s, " ORDER BY e.project_key, i.priority, i.id");
    s
}

/// The retrospective listing: of one project and one sprint when given,
/// newest first, up to a limit.
pub open spec fn retrospective_list_sql_text(by_project: bool, by_sprint: bool) -> Seq<char> {
    "SELECT "@ + RETRO_COLUMNS@ + " FROM retrospectives WHERE 1=1"@
        + clause(by_project, " AND project_key = ?"@) + clause(by_sprint, " AND sprint_id = ?"@)
        + " ORDER BY id DESC LIMIT ?"@
}

/// The retrospective listing; see [`retrospective_list_sql_text`]. Binds
/// the project, the sprint, then the limit.
pub fn retrospective_list_sql(by_project: bool, by_sprint: bool) -> (r: String)
    ensures
        r@ == retrospective_list_sql_text(by_project, by_sprint),
{
    let mut s = String::from_str("SELECT ");
    push_str(&mut s, RETRO_COLUMNS);
    push_str(&mut s, " FROM retrospectives WHERE 1=1");
    push_clause(&mut s, by_project, " AND project_key = ?");
    push_clause(&mut s, by_sprint, " AND sprint_id = ?");
    push_str(&mut s, " ORDER BY id DESC LIMIT ?");
    s
}

} // verus!
