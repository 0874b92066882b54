//! SQL statements whose text depends on the request: task listing filters
//! and partial task updates, for the PostgreSQL service and for the
//! single-file SQLite board, and the board's atomic claim. Each statement
//! comes with the values bound to its placeholders, in order.
use vstd::prelude::*;

use crate::status::{Priority, TaskStatus};
use crate::text::{decimal, owned, push_decimal, push_str};
use crate::time::Timestamp;

verus! {

/// A value bound to a placeholder.
pub enum SqlArg {
    Id(i64),
    Uuid(u128),
    NullableUuid(Option<u128>),
    Text(String),
    NullableText(Option<String>),
    /// A calendar date as days since 0001-01-01 (day 1), or NULL.
    NullableDate(Option<i32>),
    Status(TaskStatus),
    Priority(Priority),
    Time(Timestamp),
}

/// A bound value seen as a value.
pub ghost enum ArgView {
    Id(i64),
    Uuid(u128),
    NullableUuid(Option<u128>),
    Text(Seq<char>),
    NullableText(Option<Seq<char>>),
    NullableDate(Option<i32>),
    Status(TaskStatus),
    Priority(Priority),
    Time(Timestamp),
}

impl View for SqlArg {
    type V = ArgView;

    open spec fn view(&self) -> ArgView {
        match self {
            SqlArg::Id(v) => ArgView::Id(*v),
            SqlArg::Uuid(v) => ArgView::Uuid(*v),
            SqlArg::NullableUuid(v) => ArgView::NullableUuid(*v),
            SqlArg::Text(s) => ArgView::Text(s@),
            SqlArg::NullableText(s) => ArgView::NullableText(
                match s {
                    Some(t) => Some(t@),
                    None => None,
                },
            ),
            SqlArg::NullableDate(d) => ArgView::NullableDate(*d),
            SqlArg::Status(s) => ArgView::Status(*s),
            SqlArg::Priority(p) => ArgView::Priority(*p),
            SqlArg::Time(t) => ArgView::Time(*t),
        }
    }
}

/// A statement and the values for its placeholders.
pub struct SqlQuery {
    pub sql: String,
    pub args: Vec<SqlArg>,
}

impl SqlQuery {
    pub open spec fn args_view(&self) -> Seq<ArgView> {
        self.args@.map_values(|a: SqlArg| a@)
    }
}

/// The PostgreSQL placeholder for the `n`-th bound value: `$n`.
pub open spec fn pg_param(n: nat) -> Seq<char> {
    "$"@ + decimal(n)
}

fn push_pg_param(sql: &mut String, n: u64)
    ensures
        final(sql)@ == old(sql)@ + pg_param(n as nat),
{
    push_str(sql, "$");
    push_decimal(sql, n);
    proof {
        assert(old(sql)@ + "$"@ + decimal(n as nat) =~= old(sql)@ + ("$"@ + decimal(n as nat)));
    }
}

fn push_arg(args: &mut Vec<SqlArg>, a: SqlArg)
    ensures
        final(args)@.map_values(|x: SqlArg| x@) == old(args)@.map_values(|x: SqlArg| x@).push(a@),
{
    let ghost before = args@;
    args.push(a);
    proof {
        assert(args@.map_values(|x: SqlArg| x@) =~= before.map_values(|x: SqlArg| x@).push(a@));
    }
}

// ---- the multi-tenant service (PostgreSQL) --------------------------------

/// One character of a `LIKE` pattern taken literally: the escape
/// character `\` and the wildcards `%` and `_` get a `\` before them.
pub open spec fn like_escape_char(c: char) -> Seq<char> {
    if c == '\\' || c == '%' || c == '_' {
        seq!['\\', c]
    } else {
        seq![c]
    }
}

/// Text escaped so that a `LIKE` pattern matches it literally.
pub open spec fn like_escape(s: Seq<char>) -> Seq<char>
    decreases s.len(),
{
    if s.len() == 0 {
        Seq::empty()
    } else {
        like_escape(s.drop_last()) + like_escape_char(s.last())
    }
}

/// How `LIKE` reads a pattern with `\` as its escape character, when the
/// pattern holds no wildcard: the literal text it stands for; `None` when
/// an unescaped `%` or `_` (a wildcard) or a dangling `\` occurs.
pub open spec fn like_literal(t: Seq<char>) -> Option<Seq<char>>
    decreases t.len(),
{
    if t.len() == 0 {
        Some(Seq::empty())
    } else if t[0] == '\\' {
        if t.len() >= 2 {
            match like_literal(t.skip(2)) {
                Some(r) => Some(seq![t[1]] + r),
                None => None,
            }
        } else {
            None
        }
    } else if t[0] == '%' || t[0] == '_' {
        None
    } else {
        match like_literal(t.skip(1)) {
            Some(r) => Some(seq![t[0]] + r),
            None => None,
        }
    }
}

proof fn lemma_like_escape_append(a: Seq<char>, b: Seq<char>)
    ensures
        like_escape(a + b) == like_escape(a) + like_escape(b),
    decreases b.len(),
{
    if b.len() == 0 {
        assert(a + b =~= a);
        assert(like_escape(a) + like_escape(b) =~= like_escape(a));
    } else {
        lemma_like_escape_append(a, b.drop_last());
        assert((a + b).drop_last() =~= a + b.drop_last());
        assert((a + b).last() == b.last());
        assert(like_escape(a + b) =~= like_escape(a) + like_escape(b));
    }
}

/// Escaped search text holds no wildcard: `LIKE` reads it as exactly the
/// text searched for, so the search is a plain substring match.
pub proof fn lemma_search_text_is_literal(s: Seq<char>)
    ensures
        like_literal(like_escape(s)) == Some(s),
    decreases s.len(),
{
    if s.len() > 0 {
        let c = s[0];
        let rest = s.skip(1);
        assert(seq![c] + rest =~= s);
        lemma_like_escape_append(seq![c], rest);
        assert(seq![c].drop_last() =~= Seq::<char>::empty());
        assert(seq![c].last() == c);
        assert(like_escape(Seq::<char>::empty()) == Seq::<char>::empty());
        assert(like_escape(seq![c]) == like_escape(Seq::<char>::empty()) + like_escape_char(c));
        assert(like_escape(seq![c]) =~= like_escape_char(c));
        lemma_search_text_is_literal(rest);
        let t = like_escape_char(c) + like_escape(rest);
        if c == '\\' || c == '%' || c == '_' {
            assert(t.skip(2) =~= like_escape(rest));
        } else {
            assert(t.skip(1) =~= like_escape(rest));
        }
        assert(like_literal(t).unwrap() =~= seq![c] + rest);
    }
}

/// Escapes text for a `LIKE` pattern (see `like_escape`).
fn escape_like(s: &str) -> (r: String)
    ensures
        r@ == like_escape(s@),
{
    let mut out = String::new();
    for c in it: s.chars()
        invariant
            it.seq() == s@,
            out@ == like_escape(s@.take(it.index() as int)),
    {
        proof {
            assert(s@.take(it.index() + 1).drop_last() =~= s@.take(it.index() as int));
            assert(s@.take(it.index() + 1).last() == c);
        }
        let ghost before = out@;
        if c == '\\' || c == '%' || c == '_' {
            crate::text::push_char(&mut out, '\\');
        }
        crate::text::push_char(&mut out, c);
        proof {
            assert(out@ =~= before + like_escape_char(c));
        }
    }
    proof {
        assert(s@.take(s@.len() as int) =~= s@);
    }
    out
}

/// Filters for listing a project's tasks; each one given narrows the list.
pub struct TaskFilter {
    pub status: Option<TaskStatus>,
    pub assignee_id: Option<u128>,
    pub tag_id: Option<u128>,
    /// case-insensitive substring match against the title (`%`, `_` and
    /// `\` in it are taken literally)
    pub search: Option<String>,
}

pub open spec fn task_list_head() -> Seq<char> {
    "SELECT DISTINCT t.id, t.org_id, t.project_id, t.task_number, t.title, t.description,\n                  t.status, t.priority, t.assignee_id, t.reporter_id, t.due_date, t.created_at, t.updated_at\n           FROM tasks t"@
}

/// One filter condition: its SQL text before the placeholder and its bound
/// value, or nothing when the filter is not given.
pub open spec fn opt_cond<T>(given: Option<T>, text: Seq<char>, arg: ArgView) -> Seq<(Seq<char>, ArgView)> {
    if given is Some {
        seq![(text, arg)]
    } else {
        Seq::empty()
    }
}

/// The conditions of a task listing after the project, in order.
pub open spec fn task_list_conditions(f: TaskFilter) -> Seq<(Seq<char>, ArgView)> {
    opt_cond(f.status, " AND t.status = "@, ArgView::Status(f.status->0)) + opt_cond(
        f.assignee_id,
        " AND t.assignee_id = "@,
        ArgView::Uuid(f.assignee_id->0),
    ) + opt_cond(f.tag_id, " AND tt.tag_id = "@, ArgView::Uuid(f.tag_id->0)) + opt_cond(
        f.search,
        " AND t.title ILIKE "@,
        ArgView::Text("%"@ + like_escape(f.search->0@) + "%"@),
    )
}

/// `conds` rendered with placeholders numbered from `first`.
pub open spec fn render_conditions(conds: Seq<(Seq<char>, ArgView)>, first: nat) -> Seq<char>
    decreases conds.len(),
{
    if conds.len() == 0 {
        Seq::empty()
    } else {
        render_conditions(conds.drop_last(), first) + conds.last().0 + pg_param(
            (first + conds.len() - 1) as nat,
        )
    }
}

/// The listing statement: the project's tasks (joined with their tags when
/// filtering by tag), narrowed by each filter given, newest task number
/// first. The title search is a case-insensitive substring match: the
/// searched text is escaped (see `like_escape`) and `\` is declared the
/// escape character.
pub open spec fn spec_task_list_sql(project_id: u128, f: TaskFilter) -> Seq<char> {
    task_list_head() + (if f.tag_id is Some {
        " JOIN task_tags tt ON tt.task_id = t.id"@
    } else {
        Seq::empty()
    }) + " WHERE t.project_id = "@ + pg_param(1) + render_conditions(task_list_conditions(f), 2)
        + (if f.search is Some {
        " ESCAPE '\\'"@
    } else {
        Seq::empty()
    }) + " ORDER BY t.task_number DESC"@
}

/// Its bound values: the project, then one per filter given.
pub open spec fn spec_task_list_args(project_id: u128, f: TaskFilter) -> Seq<ArgView> {
    seq![ArgView::Uuid(project_id)] + task_list_conditions(f).map_values(
        |c: (Seq<char>, ArgView)| c.1,
    )
}

proof fn lemma_render_push(conds: Seq<(Seq<char>, ArgView)>, c: (Seq<char>, ArgView), first: nat)
    ensures
        render_conditions(conds.push(c), first) == render_conditions(conds, first) + c.0 + pg_param(
            (first + conds.len()) as nat,
        ),
{
    assert(conds.push(c).drop_last() =~= conds);
}

/// Appends one condition and its bound value to a statement under
/// construction.
fn add_condition(
    sql: &mut String,
    args: &mut Vec<SqlArg>,
    n: u64,
    text: &str,
    arg: SqlArg,
    Ghost(first): Ghost<nat>,
    Ghost(prefix): Ghost<Seq<char>>,
    Ghost(head): Ghost<Seq<ArgView>>,
    Ghost(conds): Ghost<Seq<(Seq<char>, ArgView)>>,
)
    requires
        old(sql)@ == prefix + render_conditions(conds, first),
        old(args)@.map_values(|x: SqlArg| x@) == head + conds.map_values(|c: (Seq<char>, ArgView)| c.1),
        n == first + conds.len(),
    ensures
        final(sql)@ == prefix + render_conditions(conds.push((text@, arg@)), first),
        final(args)@.map_values(|x: SqlArg| x@) == head + conds.push((text@, arg@)).map_values(
            |c: (Seq<char>, ArgView)| c.1,
        ),
{
    let ghost a = arg@;
    push_str(sql, text);
    push_pg_param(sql, n);
    push_arg(args, arg);
    proof {
        lemma_render_push(conds, (text@, a), first);
        assert(final(sql)@ =~= prefix + render_conditions(conds.push((text@, a)), first));
        assert(conds.push((text@, a)).map_values(|c: (Seq<char>, ArgView)| c.1) =~= conds.map_values(
            |c: (Seq<char>, ArgView)| c.1,
        ).push(a));
        assert(head + conds.map_values(|c: (Seq<char>, ArgView)| c.1).push(a) =~= (head
            + conds.map_values(|c: (Seq<char>, ArgView)| c.1)).push(a));
    }
}

/// Lists a project's tasks (see `spec_task_list_sql`).
#[verifier::rlimit(40)]
pub fn task_list_query(project_id: u128, filter: &TaskFilter) -> (q: SqlQuery)
    ensures
        q.sql@ == spec_task_list_sql(project_id, *filter),
        q.args_view() == spec_task_list_args(project_id, *filter),
{
    let mut sql = owned(
        "SELECT DISTINCT t.id, t.org_id, t.project_id, t.task_number, t.title, t.description,\n                  t.status, t.priority, t.assignee_id, t.reporter_id, t.due_date, t.created_at, t.updated_at\n           FROM tasks t",
    );
    if filter.tag_id.is_some() {
        push_str(&mut sql, " JOIN task_tags tt ON tt.task_id = t.id");
    }
    push_str(&mut sql, " WHERE t.project_id = ");
    push_pg_param(&mut sql, 1);
    let mut args: Vec<SqlArg> = Vec::new();
    push_arg(&mut args, SqlArg::Uuid(project_id));
    let ghost prefix = sql@;
    let ghost head = seq![ArgView::Uuid(project_id)];
    let ghost f = *filter;
    let ghost c0: Seq<(Seq<char>, ArgView)> = Seq::empty();
    proof {
        assert(args@.map_values(|x: SqlArg| x@) =~= head);
        assert(render_conditions(c0, 2) =~= Seq::<char>::empty());
        assert(sql@ =~= prefix + render_conditions(c0, 2));
        assert(head + c0.map_values(|c: (Seq<char>, ArgView)| c.1) =~= head);
    }
    let ghost c1 = c0 + opt_cond(f.status, " AND t.status = "@, ArgView::Status(f.status->0));
    if let Some(status) = filter.status {
        add_condition(&mut sql, &mut args, 2, " AND t.status = ", SqlArg::Status(status), Ghost(2nat), Ghost(prefix), Ghost(head), Ghost(c0));
        proof { assert(c0.push((" AND t.status = "@, ArgView::Status(status))) =~= c1); }
    } else {
        proof { assert(c0 =~= c1); }
    }
    let n: u64 = if filter.status.is_some() { 3 } else { 2 };
    let ghost c2 = c1 + opt_cond(f.assignee_id, " AND t.assignee_id = "@, ArgView::Uuid(f.assignee_id->0));
    if let Some(assignee_id) = filter.assignee_id {
        add_condition(&mut sql, &mut args, n, " AND t.assignee_id = ", SqlArg::Uuid(assignee_id), Ghost(2nat), Ghost(prefix), Ghost(head), Ghost(c1));
        proof { assert(c1.push((" AND t.assignee_id = "@, ArgView::Uuid(assignee_id))) =~= c2); }
    } else {
        proof { assert(c1 =~= c2); }
    }
    let n: u64 = if filter.assignee_id.is_some() { n + 1 } else { n };
    let ghost c3 = c2 + opt_cond(f.tag_id, " AND tt.tag_id = "@, ArgView::Uuid(f.tag_id->0));
    if let Some(tag_id) = filter.tag_id {
        add_condition(&mut sql, &mut args, n, " AND tt.tag_id = ", SqlArg::Uuid(tag_id), Ghost(2nat), Ghost(prefix), Ghost(head), Ghost(c2));
        proof { assert(c2.push((" AND tt.tag_id = "@, ArgView::Uuid(tag_id))) =~= c3); }
    } else {
        proof { assert(c2 =~= c3); }
    }
    let n: u64 = if filter.tag_id.is_some() { n + 1 } else { n };
    let ghost c4 = c3 + opt_cond(f.search, " AND t.title ILIKE "@, ArgView::Text("%"@ + like_escape(f.search->0@) + "%"@));
    if let Some(search) = &filter.search {
        let mut pattern = owned("%");
        push_str(&mut pattern, escape_like(search.as_str()).as_str());
        push_str(&mut pattern, "%");
        let ghost pat = pattern@;
        add_condition(&mut sql, &mut args, n, " AND t.title ILIKE ", SqlArg::Text(pattern), Ghost(2nat), Ghost(prefix), Ghost(head), Ghost(c3));
        proof { assert(c3.push((" AND t.title ILIKE "@, ArgView::Text(pat))) =~= c4); }
    } else {
        proof { assert(c3 =~= c4); }
    }
    if filter.search.is_some() {
        push_str(&mut sql, " ESCAPE '\\'");
    }
    push_str(&mut sql, " ORDER BY t.task_number DESC");
    proof {
        assert(c4 =~= task_list_conditions(f));
    }
    SqlQuery { sql, args }
}

// ---- partial task updates (PostgreSQL) ------------------------------------

/// A partial update of a task: each field given is set, the others are
/// left untouched; for nullable fields `Some(None)` clears the value.
pub struct TaskUpdate {
    pub title: Option<String>,
    pub description: Option<Option<String>>,
    pub status: Option<TaskStatus>,
    pub priority: Option<Priority>,
    pub assignee_id: Option<Option<u128>>,
    /// days since 0001-01-01 (day 1)
    pub due_date: Option<Option<i32>>,
}

pub open spec fn opt_text_view(o: Option<String>) -> Option<Seq<char>> {
    match o {
        Some(s) => Some(s@),
        None => None,
    }
}

/// The assignments of an update, in order, one per field given.
pub open spec fn task_update_assignments(u: TaskUpdate) -> Seq<(Seq<char>, ArgView)> {
    opt_cond(u.title, ", title = "@, ArgView::Text(u.title->0@)) + opt_cond(
        u.description,
        ", description = "@,
        ArgView::NullableText(opt_text_view(u.description->0)),
    ) + opt_cond(u.status, ", status = "@, ArgView::Status(u.status->0)) + opt_cond(
        u.priority,
        ", priority = "@,
        ArgView::Priority(u.priority->0),
    ) + opt_cond(u.assignee_id, ", assignee_id = "@, ArgView::NullableUuid(u.assignee_id->0))
        + opt_cond(u.due_date, ", due_date = "@, ArgView::NullableDate(u.due_date->0))
}

pub open spec fn task_returning() -> Seq<char> {
    " RETURNING id, org_id, project_id, task_number, title, description, status, priority,\n                    assignee_id, reporter_id, due_date, created_at, updated_at"@
}

/// The update statement: the modification time always, then each given
/// field; the task is the last bound value.
pub open spec fn spec_task_update_sql(u: TaskUpdate) -> Seq<char> {
    let a = task_update_assignments(u);
    "UPDATE tasks SET updated_at = now()"@ + render_conditions(a, 1) + " WHERE id = "@ + pg_param(
        a.len() + 1,
    ) + task_returning()
}

pub open spec fn spec_task_update_args(id: u128, u: TaskUpdate) -> Seq<ArgView> {
    task_update_assignments(u).map_values(|c: (Seq<char>, ArgView)| c.1) + seq![ArgView::Uuid(id)]
}

fn clone_opt_text(o: &Option<String>) -> (r: Option<String>)
    ensures
        opt_text_view(r) == opt_text_view(*o),
{
    match o {
        Some(s) => Some(s.clone()),
        None => None,
    }
}

/// Updates a task (see `spec_task_update_sql`).
#[verifier::rlimit(100)]
#[verifier::spinoff_prover]
pub fn task_update_query(id: u128, u: &TaskUpdate) -> (q: SqlQuery)
    ensures
        q.sql@ == spec_task_update_sql(*u),
        q.args_view() == spec_task_update_args(id, *u),
{
    let mut sql = owned("UPDATE tasks SET updated_at = now()");
    let mut args: Vec<SqlArg> = Vec::new();
    let ghost prefix = sql@;
    let ghost head: Seq<ArgView> = Seq::empty();
    let ghost f = *u;
    let ghost c0: Seq<(Seq<char>, ArgView)> = Seq::empty();
    proof {
        assert(render_conditions(c0, 1) =~= Seq::<char>::empty());
        assert(sql@ =~= prefix + render_conditions(c0, 1));
        assert(args@.map_values(|x: SqlArg| x@) =~= head + c0.map_values(|c: (Seq<char>, ArgView)| c.1));
    }
    let mut n: u64 = 1;
    let ghost c1 = c0 + opt_cond(f.title, ", title = "@, ArgView::Text(f.title->0@));
    if let Some(title) = &u.title {
        add_condition(&mut sql, &mut args, n, ", title = ", SqlArg::Text(title.clone()), Ghost(1nat), Ghost(prefix), Ghost(head), Ghost(c0));
        proof { assert(c0.push((", title = "@, ArgView::Text(title@))) =~= c1); }
        n = n + 1;
    } else {
        proof { assert(c0 =~= c1); }
    }
    let ghost c2 = c1 + opt_cond(f.description, ", description = "@, ArgView::NullableText(opt_text_view(f.description->0)));
    if let Some(description) = &u.description {
        let d = clone_opt_text(description);
        add_condition(&mut sql, &mut args, n, ", description = ", SqlArg::NullableText(d), Ghost(1nat), Ghost(prefix), Ghost(head), Ghost(c1));
        proof { assert(c1.push((", description = "@, ArgView::NullableText(opt_text_view(*description)))) =~= c2); }
        n = n + 1;
    } else {
        proof { assert(c1 =~= c2); }
    }
    let ghost c3 = c2 + opt_cond(f.status, ", status = "@, ArgView::Status(f.status->0));
    if let Some(status) = u.status {
        add_condition(&mut sql, &mut args, n, ", status = ", SqlArg::Status(status), Ghost(1nat), Ghost(prefix), Ghost(head), Ghost(c2));
        proof { assert(c2.push((", status = "@, ArgView::Status(status))) =~= c3); }
        n = n + 1;
    } else {
        proof { assert(c2 =~= c3); }
    }
    let ghost c4 = c3 + opt_cond(f.priority, ", priority = "@, ArgView::Priority(f.priority->0));
    if let Some(priority) = u.priority {
        add_condition(&mut sql, &mut args, n, ", priority = ", SqlArg::Priority(priority), Ghost(1nat), Ghost(prefix), Ghost(head), Ghost(c3));
        proof { assert(c3.push((", priority = "@, ArgView::Priority(priority))) =~= c4); }
        n = n + 1;
    } else {
        proof { assert(c3 =~= c4); }
    }
    let ghost c5 = c4 + opt_cond(f.assignee_id, ", assignee_id = "@, ArgView::NullableUuid(f.assignee_id->0));
    if let Some(assignee_id) = u.assignee_id {
        add_condition(&mut sql, &mut args, n, ", assignee_id = ", SqlArg::NullableUuid(assignee_id), Ghost(1nat), Ghost(prefix), Ghost(head), Ghost(c4));
        proof { assert(c4.push((", assignee_id = "@, ArgView::NullableUuid(assignee_id))) =~= c5); }
        n = n + 1;
    } else {
        proof { assert(c4 =~= c5); }
    }
    let ghost c6 = c5 + opt_cond(f.due_date, ", due_date = "@, ArgView::NullableDate(f.due_date->0));
    if let Some(due_date) = u.due_date {
        add_condition(&mut sql, &mut args, n, ", due_date = ", SqlArg::NullableDate(due_date), Ghost(1nat), Ghost(prefix), Ghost(head), Ghost(c5));
        proof { assert(c5.push((", due_date = "@, ArgView::NullableDate(due_date))) =~= c6); }
        n = n + 1;
    } else {
        proof { assert(c5 =~= c6); }
    }
    proof {
        assert(c6 =~= task_update_assignments(f));
    }
    push_str(&mut sql, " WHERE id = ");
    push_pg_param(&mut sql, n);
    push_arg(&mut args, SqlArg::Uuid(id));
    push_str(
        &mut sql,
        " RETURNING id, org_id, project_id, task_number, title, description, status, priority,\n                    assignee_id, reporter_id, due_date, created_at, updated_at",
    );
    proof {
        assert(args@.map_values(|x: SqlArg| x@) =~= spec_task_update_args(id, f));
    }
    SqlQuery { sql, args }
}

} // verus!

verus! {

/// `t` occurs in `s` as a contiguous piece.
pub open spec fn contains_text(s: Seq<char>, t: Seq<char>) -> bool {
    exists|k: int| 0 <= k && k + t.len() <= s.len() && #[trigger] s.subrange(k, k + t.len()) == t
}

proof fn lemma_contains_self(t: Seq<char>)
    ensures
        contains_text(t, t),
{
    assert(t.subrange(0int, 0int + t.len()) =~= t);
}

proof fn lemma_contains_extend(a: Seq<char>, s: Seq<char>, b: Seq<char>, t: Seq<char>)
    requires
        contains_text(s, t),
    ensures
        contains_text(a + s + b, t),
{
    let k = choose|k: int| 0 <= k && k + t.len() <= s.len() && #[trigger] s.subrange(k, k + t.len()) == t;
    let w = a + s + b;
    assert(w.subrange(a.len() + k, a.len() + k + t.len()) =~= s.subrange(k, k + t.len()));
}

/// Each condition of a list occurs in its rendering, followed by the
/// placeholder numbered by its position.
proof fn lemma_render_contains(conds: Seq<(Seq<char>, ArgView)>, first: nat, i: int)
    requires
        0 <= i < conds.len(),
    ensures
        contains_text(render_conditions(conds, first), conds[i].0 + pg_param((first + i) as nat)),
    decreases conds.len(),
{
    let p = conds.drop_last();
    let r = render_conditions(conds, first);
    let t = conds[i].0 + pg_param((first + i) as nat);
    if i == conds.len() - 1 {
        let k: int = render_conditions(p, first).len() as int;
        assert(r == render_conditions(p, first) + conds.last().0 + pg_param((first + conds.len() - 1) as nat));
        assert(r.subrange(k, k + t.len()) =~= t);
    } else {
        lemma_render_contains(p, first, i);
        assert(p[i] == conds[i]);
        let tail = conds.last().0 + pg_param((first + conds.len() - 1) as nat);
        lemma_contains_extend(Seq::empty(), render_conditions(p, first), tail, t);
        assert(Seq::<char>::empty() + render_conditions(p, first) + tail =~= r);
    }
}

proof fn lemma_contains_left<T>(a: Seq<T>, b: Seq<T>, e: T)
    requires
        a.contains(e),
    ensures
        (a + b).contains(e),
{
    let i = choose|i: int| 0 <= i < a.len() && a[i] == e;
    assert((a + b)[i] == e);
}

proof fn lemma_contains_right<T>(a: Seq<T>, b: Seq<T>, e: T)
    requires
        b.contains(e),
    ensures
        (a + b).contains(e),
{
    let i = choose|i: int| 0 <= i < b.len() && b[i] == e;
    assert((a + b)[a.len() + i] == e);
}

/// A condition given is one condition; one not given is none.
proof fn lemma_opt_cond<T>(given: Option<T>, text: Seq<char>, arg: ArgView)
    ensures
        given is Some ==> opt_cond(given, text, arg).contains((text, arg)) && opt_cond(given, text, arg).len() == 1,
        given is None ==> opt_cond(given, text, arg).len() == 0,
{
    if given is Some {
        assert(opt_cond(given, text, arg)[0] == (text, arg));
    }
}

/// How many of a listing's filters are given.
pub open spec fn filters_given(f: TaskFilter) -> nat {
    (if f.status is Some { 1nat } else { 0nat }) + (if f.assignee_id is Some { 1nat } else { 0nat })
        + (if f.tag_id is Some { 1nat } else { 0nat }) + (if f.search is Some { 1nat } else { 0nat })
}

proof fn lemma_task_list_conditions(f: TaskFilter)
    ensures
        ({
            let conds = task_list_conditions(f);
            &&& conds.len() == filters_given(f)
            &&& f.status matches Some(s) ==> conds.contains((" AND t.status = "@, ArgView::Status(s)))
            &&& f.assignee_id matches Some(u) ==> conds.contains(
                (" AND t.assignee_id = "@, ArgView::Uuid(u)),
            )
            &&& f.tag_id matches Some(g) ==> conds.contains((" AND tt.tag_id = "@, ArgView::Uuid(g)))
            &&& f.search matches Some(q) ==> conds.contains(
                (" AND t.title ILIKE "@, ArgView::Text("%"@ + like_escape(q@) + "%"@)),
            )
        }),
{
    let a = opt_cond(f.status, " AND t.status = "@, ArgView::Status(f.status->0));
    let b = opt_cond(f.assignee_id, " AND t.assignee_id = "@, ArgView::Uuid(f.assignee_id->0));
    let c = opt_cond(f.tag_id, " AND tt.tag_id = "@, ArgView::Uuid(f.tag_id->0));
    let d = opt_cond(f.search, " AND t.title ILIKE "@, ArgView::Text("%"@ + like_escape(f.search->0@) + "%"@));
    lemma_opt_cond(f.status, " AND t.status = "@, ArgView::Status(f.status->0));
    lemma_opt_cond(f.assignee_id, " AND t.assignee_id = "@, ArgView::Uuid(f.assignee_id->0));
    lemma_opt_cond(f.tag_id, " AND tt.tag_id = "@, ArgView::Uuid(f.tag_id->0));
    lemma_opt_cond(f.search, " AND t.title ILIKE "@, ArgView::Text("%"@ + like_escape(f.search->0@) + "%"@));
    assert(task_list_conditions(f) == a + b + c + d);
    if f.status is Some {
        lemma_contains_left(a, b, (" AND t.status = "@, ArgView::Status(f.status->0)));
        lemma_contains_left(a + b, c, (" AND t.status = "@, ArgView::Status(f.status->0)));
        lemma_contains_left(a + b + c, d, (" AND t.status = "@, ArgView::Status(f.status->0)));
    }
    if f.assignee_id is Some {
        lemma_contains_right(a, b, (" AND t.assignee_id = "@, ArgView::Uuid(f.assignee_id->0)));
        lemma_contains_left(a + b, c, (" AND t.assignee_id = "@, ArgView::Uuid(f.assignee_id->0)));
        lemma_contains_left(a + b + c, d, (" AND t.assignee_id = "@, ArgView::Uuid(f.assignee_id->0)));
    }
    if f.tag_id is Some {
        lemma_contains_right(a + b, c, (" AND tt.tag_id = "@, ArgView::Uuid(f.tag_id->0)));
        lemma_contains_left(a + b + c, d, (" AND tt.tag_id = "@, ArgView::Uuid(f.tag_id->0)));
    }
    if f.search is Some {
        lemma_contains_right(a + b + c, d, (" AND t.title ILIKE "@, ArgView::Text("%"@ + like_escape(f.search->0@) + "%"@)));
    }
}

proof fn lemma_task_list_text(project_id: u128, f: TaskFilter)
    ensures
        ({
            let conds = task_list_conditions(f);
            let sql = spec_task_list_sql(project_id, f);
            &&& contains_text(sql, " WHERE t.project_id = $1"@)
            &&& f.tag_id is Some ==> contains_text(sql, " JOIN task_tags tt ON tt.task_id = t.id"@)
            &&& forall|i: int|
                0 <= i < conds.len() ==> contains_text(
                    sql,
                    #[trigger] conds[i].0 + pg_param((2 + i) as nat),
                )
        }),
{
    let conds = task_list_conditions(f);
    let sql = spec_task_list_sql(project_id, f);
    let join = if f.tag_id is Some { " JOIN task_tags tt ON tt.task_id = t.id"@ } else { Seq::<char>::empty() };
    let rendered = render_conditions(conds, 2);
    let esc = if f.search is Some { " ESCAPE '\\'"@ } else { Seq::<char>::empty() };
    let tail = esc + " ORDER BY t.task_number DESC"@;
    reveal_strlit("$");
    reveal_strlit(" WHERE t.project_id = $1");
    reveal_strlit(" WHERE t.project_id = ");
    assert(decimal(1) == seq![crate::text::digit_char(1)]);
    assert(crate::text::digit_char(1) == '1');
    assert(pg_param(1) =~= seq!['$', '1']);
    let w = " WHERE t.project_id = "@ + pg_param(1);
    assert(w =~= " WHERE t.project_id = $1"@);
    assert(sql =~= (task_list_head() + join) + w + (rendered + tail));
    lemma_contains_self(w);
    lemma_contains_extend(task_list_head() + join, w, rendered + tail, w);
    if f.tag_id is Some {
        lemma_contains_self(join);
        lemma_contains_extend(task_list_head(), join, w + rendered + tail, join);
        assert(task_list_head() + join + (w + rendered + tail) =~= sql);
    }
    assert forall|i: int| 0 <= i < conds.len() implies contains_text(sql, #[trigger] conds[i].0 + pg_param((2 + i) as nat)) by {
        lemma_render_contains(conds, 2, i);
        lemma_contains_extend(task_list_head() + join + w, rendered, tail, conds[i].0 + pg_param((2 + i) as nat));
        assert(task_list_head() + join + w + rendered + tail =~= sql);
    }
}

/// What a task listing asks of the database. The project is the first
/// bound value (`$1`); each filter given adds one condition on its own
/// column, bound to the filter's value, and nothing else: status on
/// `t.status`, assignee on `t.assignee_id`, tag on `tt.tag_id` (with the
/// tags joined in), search as a literal `ILIKE` on `t.title`. The `k`-th
/// condition's column text is followed in the statement by `$(k + 2)`,
/// and its value is bound at that position.
pub proof fn lemma_task_list_filters(project_id: u128, f: TaskFilter)
    ensures
        ({
            let conds = task_list_conditions(f);
            let sql = spec_task_list_sql(project_id, f);
            let args = spec_task_list_args(project_id, f);
            &&& conds.len() == filters_given(f)
            &&& args.len() == 1 + filters_given(f)
            &&& args[0] == ArgView::Uuid(project_id)
            &&& contains_text(sql, " WHERE t.project_id = $1"@)
            &&& f.status matches Some(s) ==> conds.contains((" AND t.status = "@, ArgView::Status(s)))
            &&& f.assignee_id matches Some(u) ==> conds.contains(
                (" AND t.assignee_id = "@, ArgView::Uuid(u)),
            )
            &&& f.tag_id matches Some(g) ==> conds.contains((" AND tt.tag_id = "@, ArgView::Uuid(g)))
                && contains_text(sql, " JOIN task_tags tt ON tt.task_id = t.id"@)
            &&& f.search matches Some(q) ==> conds.contains(
                (" AND t.title ILIKE "@, ArgView::Text("%"@ + like_escape(q@) + "%"@)),
            ) && like_literal(like_escape(q@)) == Some(q@)
            &&& forall|i: int|
                0 <= i < conds.len() ==> args[i + 1] == conds[i].1 && contains_text(
                    sql,
                    #[trigger] conds[i].0 + pg_param((2 + i) as nat),
                )
        }),
{
    lemma_task_list_conditions(f);
    lemma_task_list_text(project_id, f);
    if f.search is Some {
        lemma_search_text_is_literal(f.search->0@);
    }
    let conds = task_list_conditions(f);
    let args = spec_task_list_args(project_id, f);
    assert forall|i: int| 0 <= i < conds.len() implies args[i + 1] == #[trigger] conds[i].1 by {}
}

/// How many fields an update gives.
pub open spec fn fields_given(u: TaskUpdate) -> nat {
    (if u.title is Some { 1nat } else { 0nat }) + (if u.description is Some { 1nat } else { 0nat })
        + (if u.status is Some { 1nat } else { 0nat }) + (if u.priority is Some { 1nat } else { 0nat })
        + (if u.assignee_id is Some { 1nat } else { 0nat }) + (if u.due_date is Some { 1nat } else { 0nat })
}

proof fn lemma_task_update_assignments(u: TaskUpdate)
    ensures
        ({
            let a = task_update_assignments(u);
            &&& a.len() == fields_given(u)
            &&& u.title matches Some(t) ==> a.contains((", title = "@, ArgView::Text(t@)))
            &&& u.description matches Some(d) ==> a.contains(
                (", description = "@, ArgView::NullableText(opt_text_view(d))),
            )
            &&& u.status matches Some(s) ==> a.contains((", status = "@, ArgView::Status(s)))
            &&& u.priority matches Some(p) ==> a.contains((", priority = "@, ArgView::Priority(p)))
            &&& u.assignee_id matches Some(x) ==> a.contains(
                (", assignee_id = "@, ArgView::NullableUuid(x)),
            )
            &&& u.due_date matches Some(d) ==> a.contains((", due_date = "@, ArgView::NullableDate(d)))
        }),
{
    let c1 = opt_cond(u.title, ", title = "@, ArgView::Text(u.title->0@));
    let c2 = opt_cond(u.description, ", description = "@, ArgView::NullableText(opt_text_view(u.description->0)));
    let c3 = opt_cond(u.status, ", status = "@, ArgView::Status(u.status->0));
    let c4 = opt_cond(u.priority, ", priority = "@, ArgView::Priority(u.priority->0));
    let c5 = opt_cond(u.assignee_id, ", assignee_id = "@, ArgView::NullableUuid(u.assignee_id->0));
    let c6 = opt_cond(u.due_date, ", due_date = "@, ArgView::NullableDate(u.due_date->0));
    lemma_opt_cond(u.title, ", title = "@, ArgView::Text(u.title->0@));
    lemma_opt_cond(u.description, ", description = "@, ArgView::NullableText(opt_text_view(u.description->0)));
    lemma_opt_cond(u.status, ", status = "@, ArgView::Status(u.status->0));
    lemma_opt_cond(u.priority, ", priority = "@, ArgView::Priority(u.priority->0));
    lemma_opt_cond(u.assignee_id, ", assignee_id = "@, ArgView::NullableUuid(u.assignee_id->0));
    lemma_opt_cond(u.due_date, ", due_date = "@, ArgView::NullableDate(u.due_date->0));
    let s1 = c1;
    let s2 = s1 + c2;
    let s3 = s2 + c3;
    let s4 = s3 + c4;
    let s5 = s4 + c5;
    let s6 = s5 + c6;
    assert(task_update_assignments(u) == s6);
    if u.title is Some {
        let e = (", title = "@, ArgView::Text(u.title->0@));
        lemma_contains_left(s1, c2, e);
        lemma_contains_left(s2, c3, e);
        lemma_contains_left(s3, c4, e);
        lemma_contains_left(s4, c5, e);
        lemma_contains_left(s5, c6, e);
    }
    if u.description is Some {
        let e = (", description = "@, ArgView::NullableText(opt_text_view(u.description->0)));
        lemma_contains_right(s1, c2, e);
        lemma_contains_left(s2, c3, e);
        lemma_contains_left(s3, c4, e);
        lemma_contains_left(s4, c5, e);
        lemma_contains_left(s5, c6, e);
    }
    if u.status is Some {
        let e = (", status = "@, ArgView::Status(u.status->0));
        lemma_contains_right(s2, c3, e);
        lemma_contains_left(s3, c4, e);
        lemma_contains_left(s4, c5, e);
        lemma_contains_left(s5, c6, e);
    }
    if u.priority is Some {
        let e = (", priority = "@, ArgView::Priority(u.priority->0));
        lemma_contains_right(s3, c4, e);
        lemma_contains_left(s4, c5, e);
        lemma_contains_left(s5, c6, e);
    }
    if u.assignee_id is Some {
        let e = (", assignee_id = "@, ArgView::NullableUuid(u.assignee_id->0));
        lemma_contains_right(s4, c5, e);
        lemma_contains_left(s5, c6, e);
    }
    if u.due_date is Some {
        let e = (", due_date = "@, ArgView::NullableDate(u.due_date->0));
        lemma_contains_right(s5, c6, e);
    }
}

/// What a partial task update asks of the database: every field given is
/// assigned, and only those (one assignment per field given), each to its
/// own column with its value (`Some(None)` binds a NULL, clearing the
/// field); the modification time is always refreshed. The `k`-th
/// assignment's column text is followed in the statement by `$(k + 1)`,
/// its value is bound at that position, and the task is the last bound
/// value, named by the `WHERE`.
pub proof fn lemma_task_update_fields(id: u128, u: TaskUpdate)
    ensures
        ({
            let a = task_update_assignments(u);
            let sql = spec_task_update_sql(u);
            let args = spec_task_update_args(id, u);
            &&& a.len() == fields_given(u)
            &&& args.len() == fields_given(u) + 1
            &&& args[args.len() - 1] == ArgView::Uuid(id)
            &&& contains_text(sql, "UPDATE tasks SET updated_at = now()"@)
            &&& contains_text(sql, " WHERE id = "@ + pg_param(fields_given(u) + 1))
            &&& u.title matches Some(t) ==> a.contains((", title = "@, ArgView::Text(t@)))
            &&& u.description matches Some(d) ==> a.contains(
                (", description = "@, ArgView::NullableText(opt_text_view(d))),
            )
            &&& u.status matches Some(s) ==> a.contains((", status = "@, ArgView::Status(s)))
            &&& u.priority matches Some(p) ==> a.contains((", priority = "@, ArgView::Priority(p)))
            &&& u.assignee_id matches Some(x) ==> a.contains(
                (", assignee_id = "@, ArgView::NullableUuid(x)),
            )
            &&& u.due_date matches Some(d) ==> a.contains((", due_date = "@, ArgView::NullableDate(d)))
            &&& forall|i: int|
                0 <= i < a.len() ==> args[i] == a[i].1 && contains_text(
                    sql,
                    #[trigger] a[i].0 + pg_param((1 + i) as nat),
                )
        }),
{
    lemma_task_update_assignments(u);
    let a = task_update_assignments(u);
    let sql = spec_task_update_sql(u);
    let args = spec_task_update_args(id, u);
    let head = "UPDATE tasks SET updated_at = now()"@;
    let rendered = render_conditions(a, 1);
    let w = " WHERE id = "@ + pg_param(a.len() + 1);
    assert(sql =~= head + rendered + w + task_returning());
    lemma_contains_self(head);
    lemma_contains_extend(Seq::empty(), head, rendered + w + task_returning(), head);
    assert(Seq::<char>::empty() + head + (rendered + w + task_returning()) =~= sql);
    lemma_contains_self(w);
    lemma_contains_extend(head + rendered, w, task_returning(), w);
    assert forall|i: int| 0 <= i < a.len() implies args[i] == a[i].1 && contains_text(
        sql,
        #[trigger] a[i].0 + pg_param((1 + i) as nat),
    ) by {
        lemma_render_contains(a, 1, i);
        lemma_contains_extend(head, rendered, w + task_returning(), a[i].0 + pg_param((1 + i) as nat));
        assert(head + rendered + (w + task_returning()) =~= sql);
    }
}

} // verus!
