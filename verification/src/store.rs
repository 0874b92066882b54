//! The single-file task board: boards, tasks and comments, the rules of
//! its store and the SQLite statements that carry them out.
use vstd::prelude::*;

use crate::queries::{opt_cond, opt_text_view, ArgView, SqlArg, SqlQuery};
use crate::status::{str_debug, Priority, TaskStatus};
use crate::text::{int_text, owned, parse_i64, push_int, push_str, spec_parse_i64};
use crate::time::Timestamp;

verus! {

/// A named container for tasks, referenced by id or by its unique name.
pub struct Board {
    pub id: i64,
    pub name: String,
    pub description: Option<String>,
    pub created_at: Timestamp,
    pub updated_at: Timestamp,
}

/// A task on a board.
pub struct Task {
    pub id: i64,
    pub board_id: i64,
    pub title: String,
    pub description: Option<String>,
    pub status: TaskStatus,
    pub priority: Priority,
    pub assignee: Option<String>,
    pub created_at: Timestamp,
    pub updated_at: Timestamp,
}

/// A comment on a task, by a free-text author.
pub struct Comment {
    pub id: i64,
    pub task_id: i64,
    pub author: String,
    pub body: String,
    pub created_at: Timestamp,
}

/// A task together with its comments, oldest first.
pub struct TaskDetail {
    pub task: Task,
    pub comments: Vec<Comment>,
}

/// What can go wrong in the store.
#[derive(Debug)]
pub enum StoreError {
    BoardNotFound(String),
    TaskNotFound(i64),
    CommentNotFound(i64),
    BoardNameTaken(String),
    /// Any other database failure, with the database's message.
    Db(String),
}

impl StoreError {
    /// The message shown for this error.
    pub open spec fn spec_message(&self) -> Seq<char> {
        match self {
            StoreError::BoardNotFound(r) => "board "@ + str_debug(r@) + " not found"@,
            StoreError::TaskNotFound(id) => "task "@ + int_text(*id as int) + " not found"@,
            StoreError::CommentNotFound(id) => "comment "@ + int_text(*id as int) + " not found"@,
            StoreError::BoardNameTaken(n) => "a board named "@ + str_debug(n@) + " already exists"@,
            StoreError::Db(m) => m@,
        }
    }

    pub fn message(&self) -> (r: String)
        ensures
            r@ == self.spec_message(),
    {
        match self {
            StoreError::BoardNotFound(r) => {
                let mut s = owned("board ");
                push_str(&mut s, crate::status::debug_quoted_text(r.as_str()).as_str());
                push_str(&mut s, " not found");
                s
            },
            StoreError::TaskNotFound(id) => {
                let mut s = owned("task ");
                push_int(&mut s, *id);
                push_str(&mut s, " not found");
                s
            },
            StoreError::CommentNotFound(id) => {
                let mut s = owned("comment ");
                push_int(&mut s, *id);
                push_str(&mut s, " not found");
                s
            },
            StoreError::BoardNameTaken(n) => {
                let mut s = owned("a board named ");
                push_str(&mut s, crate::status::debug_quoted_text(n.as_str()).as_str());
                push_str(&mut s, " already exists");
                s
            },
            StoreError::Db(m) => m.clone(),
        }
    }

    /// The HTTP status the board's web view answers this error with: 404
    /// for a missing board, task or comment, 409 for a taken board name,
    /// 500 for a database failure.
    pub open spec fn spec_status_code(&self) -> u16 {
        match self {
            StoreError::BoardNotFound(_) | StoreError::TaskNotFound(_) | StoreError::CommentNotFound(
                _,
            ) => 404,
            StoreError::BoardNameTaken(_) => 409,
            StoreError::Db(_) => 500,
        }
    }

    pub fn status_code(&self) -> (code: u16)
        ensures
            code == self.spec_status_code(),
    {
        match self {
            StoreError::BoardNotFound(_) | StoreError::TaskNotFound(_) | StoreError::CommentNotFound(
                _,
            ) => 404,
            StoreError::BoardNameTaken(_) => 409,
            StoreError::Db(_) => 500,
        }
    }
}

/// The error for a board insert the database refused: a unique-constraint
/// violation means the name is taken; anything else is passed on.
pub fn board_insert_error(name: &str, unique_violation: bool, db_message: String) -> (e: StoreError)
    ensures
        unique_violation ==> (e matches StoreError::BoardNameTaken(n) && n@ == name@),
        !unique_violation ==> (e matches StoreError::Db(m) && m@ == db_message@),
{
    if unique_violation {
        StoreError::BoardNameTaken(owned(name))
    } else {
        StoreError::Db(db_message)
    }
}

// ---- resolving a board reference -------------------------------------------

/// The next step in resolving a board reference (an id or a name): look
/// the board up by id, look it up by name, or finish.
pub enum ResolveStep {
    LookupById(i64),
    LookupByName,
    Found(Board),
    NotFound(StoreError),
}

/// A reference that reads as an integer is first tried as an id; any
/// other reference is looked up by name only.
pub fn resolve_board_start(reference: &str) -> (s: ResolveStep)
    ensures
        match spec_parse_i64(reference@) {
            Some(id) => s matches ResolveStep::LookupById(i) && i == id,
            None => s is LookupByName,
        },
{
    match parse_i64(reference) {
        Some(id) => ResolveStep::LookupById(id),
        None => ResolveStep::LookupByName,
    }
}

/// After a lookup: a board found is the answer; a miss by id falls back to
/// the name; a miss by name means the board does not exist.
pub fn resolve_board_next(reference: &str, looked_up_by_id: bool, found: Option<Board>) -> (s: ResolveStep)
    ensures
        found is Some ==> (s matches ResolveStep::Found(b) && found == Some(b)),
        found is None && looked_up_by_id ==> s is LookupByName,
        found is None && !looked_up_by_id ==> (s matches ResolveStep::NotFound(StoreError::BoardNotFound(r))
            && r@ == reference@),
{
    match found {
        Some(b) => ResolveStep::Found(b),
        None => if looked_up_by_id {
            ResolveStep::LookupByName
        } else {
            ResolveStep::NotFound(StoreError::BoardNotFound(owned(reference)))
        },
    }
}

/// A delete that removed no row means the board was not there; the error
/// names the id.
pub fn board_deleted(id: i64, rows_affected: u64) -> (r: Result<(), StoreError>)
    ensures
        rows_affected == 0 ==> (r matches Err(StoreError::BoardNotFound(s)) && s@ == int_text(id as int)),
        rows_affected != 0 ==> r is Ok,
{
    if rows_affected == 0 {
        return Err(StoreError::BoardNotFound(crate::text::int_to_string(id)));
    }
    Ok(())
}

/// A comment delete that removed no row means the comment was not there.
pub fn comment_deleted(id: i64, rows_affected: u64) -> (r: Result<(), StoreError>)
    ensures
        rows_affected == 0 ==> (r matches Err(StoreError::CommentNotFound(i)) && i == id),
        rows_affected != 0 ==> r is Ok,
{
    if rows_affected == 0 {
        return Err(StoreError::CommentNotFound(id));
    }
    Ok(())
}

/// A task lookup, update or delete that found no row means the task was
/// not there.
pub fn task_found<T>(id: i64, found: Option<T>) -> (r: Result<T, StoreError>)
    ensures
        match found {
            Some(t) => r == Ok::<T, StoreError>(t),
            None => r matches Err(StoreError::TaskNotFound(i)) && i == id,
        },
{
    match found {
        Some(t) => Ok(t),
        None => Err(StoreError::TaskNotFound(id)),
    }
}

// ---- statements --------------------------------------------------------------

pub open spec fn task_columns() -> Seq<char> {
    "id, board_id, title, description, status, priority, assignee, created_at, updated_at"@
}

// ---- fixed statements ---------------------------------------------------------

pub open spec fn board_columns() -> Seq<char> {
    "id, name, description, created_at, updated_at"@
}

pub open spec fn comment_columns() -> Seq<char> {
    "id, task_id, author, body, created_at"@
}

fn board_columns_suffix(sql: &mut String)
    ensures
        final(sql)@ == old(sql)@ + board_columns(),
{
    push_str(sql, "id, name, description, created_at, updated_at");
}

fn comment_columns_suffix(sql: &mut String)
    ensures
        final(sql)@ == old(sql)@ + comment_columns(),
{
    push_str(sql, "id, task_id, author, body, created_at");
}

/// A statement binding exactly one value.
fn one_arg_query(sql: String, a: SqlArg) -> (q: SqlQuery)
    ensures
        q.sql@ == sql@,
        q.args_view() == seq![a@],
{
    let mut args: Vec<SqlArg> = Vec::new();
    push_arg(&mut args, a);
    proof {
        assert(args@.map_values(|x: SqlArg| x@) =~= seq![a@]);
    }
    SqlQuery { sql, args }
}

/// Creates a board with a name and an optional description, created and
/// updated now, returning it.
pub fn create_board_query(name: &str, description: Option<String>, now: Timestamp) -> (q: SqlQuery)
    ensures
        q.sql@ == "INSERT INTO boards (name, description, created_at, updated_at) VALUES (?, ?, ?, ?)\n         RETURNING "@ + board_columns(),
        q.args_view() == seq![
            ArgView::Text(name@),
            ArgView::NullableText(opt_text_view(description)),
            ArgView::Time(now),
            ArgView::Time(now),
        ],
{
    let ghost d = opt_text_view(description);
    let mut sql = owned(
        "INSERT INTO boards (name, description, created_at, updated_at) VALUES (?, ?, ?, ?)\n         RETURNING ",
    );
    board_columns_suffix(&mut sql);
    let mut args: Vec<SqlArg> = Vec::new();
    push_arg(&mut args, SqlArg::Text(owned(name)));
    push_arg(&mut args, SqlArg::NullableText(description));
    push_arg(&mut args, SqlArg::Time(now));
    push_arg(&mut args, SqlArg::Time(now));
    proof {
        assert(args@.map_values(|x: SqlArg| x@) =~= seq![
            ArgView::Text(name@),
            ArgView::NullableText(d),
            ArgView::Time(now),
            ArgView::Time(now),
        ]);
    }
    SqlQuery { sql, args }
}

/// Lists every board, by name.
pub fn list_boards_query() -> (q: SqlQuery)
    ensures
        q.sql@ == "SELECT "@ + board_columns() + " FROM boards ORDER BY name"@,
        q.args_view() == Seq::<ArgView>::empty(),
{
    let mut sql = owned("SELECT ");
    board_columns_suffix(&mut sql);
    push_str(&mut sql, " FROM boards ORDER BY name");
    let args: Vec<SqlArg> = Vec::new();
    proof {
        assert(args@.map_values(|x: SqlArg| x@) =~= Seq::<ArgView>::empty());
    }
    SqlQuery { sql, args }
}

/// Looks a board up by id.
pub fn board_by_id_query(id: i64) -> (q: SqlQuery)
    ensures
        q.sql@ == "SELECT "@ + board_columns() + " FROM boards WHERE id = ?"@,
        q.args_view() == seq![ArgView::Id(id)],
{
    let mut sql = owned("SELECT ");
    board_columns_suffix(&mut sql);
    push_str(&mut sql, " FROM boards WHERE id = ?");
    one_arg_query(sql, SqlArg::Id(id))
}

/// Looks a board up by name.
pub fn board_by_name_query(name: &str) -> (q: SqlQuery)
    ensures
        q.sql@ == "SELECT "@ + board_columns() + " FROM boards WHERE name = ?"@,
        q.args_view() == seq![ArgView::Text(name@)],
{
    let mut sql = owned("SELECT ");
    board_columns_suffix(&mut sql);
    push_str(&mut sql, " FROM boards WHERE name = ?");
    one_arg_query(sql, SqlArg::Text(owned(name)))
}

/// Deletes a board (its tasks and their comments go with it).
pub fn delete_board_query(id: i64) -> (q: SqlQuery)
    ensures
        q.sql@ == "DELETE FROM boards WHERE id = ?"@,
        q.args_view() == seq![ArgView::Id(id)],
{
    one_arg_query(owned("DELETE FROM boards WHERE id = ?"), SqlArg::Id(id))
}

/// Looks a task up by id.
pub fn get_task_query(id: i64) -> (q: SqlQuery)
    ensures
        q.sql@ == "SELECT "@ + task_columns() + " FROM tasks WHERE id = ?"@,
        q.args_view() == seq![ArgView::Id(id)],
{
    let mut sql = owned("SELECT ");
    columns_suffix(&mut sql);
    push_str(&mut sql, " FROM tasks WHERE id = ?");
    one_arg_query(sql, SqlArg::Id(id))
}

/// Deletes a task (its comments go with it).
pub fn delete_task_query(id: i64) -> (q: SqlQuery)
    ensures
        q.sql@ == "DELETE FROM tasks WHERE id = ?"@,
        q.args_view() == seq![ArgView::Id(id)],
{
    one_arg_query(owned("DELETE FROM tasks WHERE id = ?"), SqlArg::Id(id))
}

/// Adds a comment to a task, created now, returning it.
pub fn create_comment_query(task_id: i64, author: &str, body: &str, now: Timestamp) -> (q: SqlQuery)
    ensures
        q.sql@ == "INSERT INTO comments (task_id, author, body, created_at) VALUES (?, ?, ?, ?)\n         RETURNING "@ + comment_columns(),
        q.args_view() == seq![
            ArgView::Id(task_id),
            ArgView::Text(author@),
            ArgView::Text(body@),
            ArgView::Time(now),
        ],
{
    let mut sql = owned(
        "INSERT INTO comments (task_id, author, body, created_at) VALUES (?, ?, ?, ?)\n         RETURNING ",
    );
    comment_columns_suffix(&mut sql);
    let mut args: Vec<SqlArg> = Vec::new();
    push_arg(&mut args, SqlArg::Id(task_id));
    push_arg(&mut args, SqlArg::Text(owned(author)));
    push_arg(&mut args, SqlArg::Text(owned(body)));
    push_arg(&mut args, SqlArg::Time(now));
    proof {
        assert(args@.map_values(|x: SqlArg| x@) =~= seq![
            ArgView::Id(task_id),
            ArgView::Text(author@),
            ArgView::Text(body@),
            ArgView::Time(now),
        ]);
    }
    SqlQuery { sql, args }
}

/// A task's comments, oldest first.
pub fn list_comments_query(task_id: i64) -> (q: SqlQuery)
    ensures
        q.sql@ == "SELECT "@ + comment_columns() + " FROM comments WHERE task_id = ? ORDER BY created_at, id"@,
        q.args_view() == seq![ArgView::Id(task_id)],
{
    let mut sql = owned("SELECT ");
    comment_columns_suffix(&mut sql);
    push_str(&mut sql, " FROM comments WHERE task_id = ? ORDER BY created_at, id");
    one_arg_query(sql, SqlArg::Id(task_id))
}

/// Deletes a comment.
pub fn delete_comment_query(id: i64) -> (q: SqlQuery)
    ensures
        q.sql@ == "DELETE FROM comments WHERE id = ?"@,
        q.args_view() == seq![ArgView::Id(id)],
{
    one_arg_query(owned("DELETE FROM comments WHERE id = ?"), SqlArg::Id(id))
}

/// A new task: always created pending.
pub struct NewTask {
    pub board_id: i64,
    pub title: String,
    pub description: Option<String>,
    pub priority: Priority,
    pub assignee: Option<String>,
}

pub open spec fn spec_create_task_sql() -> Seq<char> {
    "INSERT INTO tasks (board_id, title, description, status, priority, assignee, created_at, updated_at)\n         VALUES (?, ?, ?, ?, ?, ?, ?, ?)\n         RETURNING "@ + task_columns()
}

/// Its bound values: the task as given, status pending, created and
/// updated now.
pub open spec fn spec_create_task_args(t: NewTask, now: Timestamp) -> Seq<ArgView> {
    seq![
        ArgView::Id(t.board_id),
        ArgView::Text(t.title@),
        ArgView::NullableText(opt_text_view(t.description)),
        ArgView::Status(TaskStatus::Pending),
        ArgView::Priority(t.priority),
        ArgView::NullableText(opt_text_view(t.assignee)),
        ArgView::Time(now),
        ArgView::Time(now),
    ]
}

fn columns_suffix(sql: &mut String)
    ensures
        final(sql)@ == old(sql)@ + task_columns(),
{
    push_str(sql, "id, board_id, title, description, status, priority, assignee, created_at, updated_at");
}

fn push_arg(args: &mut Vec<SqlArg>, a: SqlArg)
    ensures
        final(args)@.map_values(|x: SqlArg| x@) == old(args)@.map_values(|x: SqlArg| x@).push(a@),
{
    let ghost before = args@;
    args.push(a);
    proof {
        assert(args@.map_values(|x: SqlArg| x@) =~= before.map_values(|x: SqlArg| x@).push(a@));
    }
}

/// Creates a task (see `spec_create_task_sql`).
pub fn create_task_query(t: NewTask, now: Timestamp) -> (q: SqlQuery)
    ensures
        q.sql@ == spec_create_task_sql(),
        q.args_view() == spec_create_task_args(t, now),
{
    let ghost tv = t;
    let mut sql = owned(
        "INSERT INTO tasks (board_id, title, description, status, priority, assignee, created_at, updated_at)\n         VALUES (?, ?, ?, ?, ?, ?, ?, ?)\n         RETURNING ",
    );
    columns_suffix(&mut sql);
    let mut args: Vec<SqlArg> = Vec::new();
    push_arg(&mut args, SqlArg::Id(t.board_id));
    push_arg(&mut args, SqlArg::Text(t.title));
    push_arg(&mut args, SqlArg::NullableText(t.description));
    push_arg(&mut args, SqlArg::Status(TaskStatus::Pending));
    push_arg(&mut args, SqlArg::Priority(t.priority));
    push_arg(&mut args, SqlArg::NullableText(t.assignee));
    push_arg(&mut args, SqlArg::Time(now));
    push_arg(&mut args, SqlArg::Time(now));
    proof {
        assert(args@.map_values(|x: SqlArg| x@) =~= spec_create_task_args(tv, now));
    }
    SqlQuery { sql, args }
}

/// Filters for listing a board's tasks.
pub struct TaskFilter {
    pub status: Option<TaskStatus>,
    pub assignee: Option<String>,
}

impl TaskFilter {
    /// No filter: every task of the board.
    pub fn all() -> (f: TaskFilter)
        ensures
            f.status is None && f.assignee is None,
    {
        TaskFilter { status: None, assignee: None }
    }
}

/// The listing statement: the board's tasks with the given status and
/// assignee (when given), in id order.
pub open spec fn spec_list_tasks_sql(f: TaskFilter) -> Seq<char> {
    "SELECT "@ + task_columns() + " FROM tasks WHERE board_id = ?"@ + (if f.status is Some {
        " AND status = ?"@
    } else {
        Seq::empty()
    }) + (if f.assignee is Some {
        " AND assignee = ?"@
    } else {
        Seq::empty()
    }) + " ORDER BY id"@
}

pub open spec fn spec_list_tasks_args(board_id: i64, f: TaskFilter) -> Seq<ArgView> {
    seq![ArgView::Id(board_id)] + opt_cond(f.status, Seq::empty(), ArgView::Status(f.status->0)).map_values(
        |c: (Seq<char>, ArgView)| c.1,
    ) + opt_cond(f.assignee, Seq::empty(), ArgView::Text(f.assignee->0@)).map_values(
        |c: (Seq<char>, ArgView)| c.1,
    )
}

/// Lists a board's tasks (see `spec_list_tasks_sql`).
pub fn list_tasks_query(board_id: i64, filter: &TaskFilter) -> (q: SqlQuery)
    ensures
        q.sql@ == spec_list_tasks_sql(*filter),
        q.args_view() == spec_list_tasks_args(board_id, *filter),
{
    let mut sql = owned("SELECT ");
    columns_suffix(&mut sql);
    push_str(&mut sql, " FROM tasks WHERE board_id = ?");
    let mut args: Vec<SqlArg> = Vec::new();
    push_arg(&mut args, SqlArg::Id(board_id));
    if let Some(status) = filter.status {
        push_str(&mut sql, " AND status = ?");
        push_arg(&mut args, SqlArg::Status(status));
    }
    if let Some(assignee) = &filter.assignee {
        push_str(&mut sql, " AND assignee = ?");
        push_arg(&mut args, SqlArg::Text(assignee.clone()));
    }
    push_str(&mut sql, " ORDER BY id");
    proof {
        assert(sql@ =~= spec_list_tasks_sql(*filter));
        assert(args@.map_values(|x: SqlArg| x@) =~= spec_list_tasks_args(board_id, *filter));
    }
    SqlQuery { sql, args }
}

/// A partial update of a task: each field given is set, the others are
/// left untouched; for nullable fields `Some(None)` clears the value.
pub struct TaskPatch {
    pub title: Option<String>,
    pub description: Option<Option<String>>,
    pub priority: Option<Priority>,
    pub status: Option<TaskStatus>,
    pub assignee: Option<Option<String>>,
}

impl TaskPatch {
    /// The patch that touches nothing but the modification time.
    pub fn none() -> (p: TaskPatch)
        ensures
            p.title is None && p.description is None && p.priority is None && p.status is None
                && p.assignee is None,
    {
        TaskPatch { title: None, description: None, priority: None, status: None, assignee: None }
    }
}

/// The assignments of a patch after the modification time, in order, one
/// per field given.
pub open spec fn patch_assignments(p: TaskPatch) -> Seq<(Seq<char>, ArgView)> {
    opt_cond(p.title, ", title = ?"@, ArgView::Text(p.title->0@)) + opt_cond(
        p.description,
        ", description = ?"@,
        ArgView::NullableText(opt_text_view(p.description->0)),
    ) + opt_cond(p.priority, ", priority = ?"@, ArgView::Priority(p.priority->0)) + opt_cond(
        p.status,
        ", status = ?"@,
        ArgView::Status(p.status->0),
    ) + opt_cond(p.assignee, ", assignee = ?"@, ArgView::NullableText(opt_text_view(p.assignee->0)))
}

pub open spec fn texts(a: Seq<(Seq<char>, ArgView)>) -> Seq<char>
    decreases a.len(),
{
    if a.len() == 0 {
        Seq::empty()
    } else {
        texts(a.drop_last()) + a.last().0
    }
}

/// The update statement: `updated_at` always, then the given fields, joined
/// by `, `; the task is the last bound value.
pub open spec fn spec_update_task_sql(p: TaskPatch) -> Seq<char> {
    "UPDATE tasks SET updated_at = ?"@ + texts(patch_assignments(p)) + " WHERE id = ? RETURNING "@
        + task_columns()
}

pub open spec fn spec_update_task_args(id: i64, p: TaskPatch, now: Timestamp) -> Seq<ArgView> {
    seq![ArgView::Time(now)] + patch_assignments(p).map_values(|c: (Seq<char>, ArgView)| c.1)
        + seq![ArgView::Id(id)]
}

fn add_assignment(
    sql: &mut String,
    args: &mut Vec<SqlArg>,
    text: &str,
    arg: SqlArg,
    Ghost(prefix): Ghost<Seq<char>>,
    Ghost(head): Ghost<Seq<ArgView>>,
    Ghost(done): Ghost<Seq<(Seq<char>, ArgView)>>,
)
    requires
        old(sql)@ == prefix + texts(done),
        old(args)@.map_values(|x: SqlArg| x@) == head + done.map_values(|c: (Seq<char>, ArgView)| c.1),
    ensures
        final(sql)@ == prefix + texts(done.push((text@, arg@))),
        final(args)@.map_values(|x: SqlArg| x@) == head + done.push((text@, arg@)).map_values(
            |c: (Seq<char>, ArgView)| c.1,
        ),
{
    let ghost a = arg@;
    push_str(sql, text);
    push_arg(args, arg);
    proof {
        assert(done.push((text@, a)).drop_last() =~= done);
        assert(final(sql)@ =~= prefix + texts(done.push((text@, a))));
        assert(done.push((text@, a)).map_values(|c: (Seq<char>, ArgView)| c.1) =~= done.map_values(
            |c: (Seq<char>, ArgView)| c.1,
        ).push(a));
        assert(head + done.map_values(|c: (Seq<char>, ArgView)| c.1).push(a) =~= (head
            + done.map_values(|c: (Seq<char>, ArgView)| c.1)).push(a));
    }
}

fn clone_opt(o: &Option<String>) -> (r: Option<String>)
    ensures
        opt_text_view(r) == opt_text_view(*o),
{
    match o {
        Some(s) => Some(s.clone()),
        None => None,
    }
}

/// Updates a task (see `spec_update_task_sql`).
#[verifier::rlimit(100)]
#[verifier::spinoff_prover]
pub fn update_task_query(id: i64, patch: &TaskPatch, now: Timestamp) -> (q: SqlQuery)
    ensures
        q.sql@ == spec_update_task_sql(*patch),
        q.args_view() == spec_update_task_args(id, *patch, now),
{
    let mut sql = owned("UPDATE tasks SET updated_at = ?");
    let mut args: Vec<SqlArg> = Vec::new();
    push_arg(&mut args, SqlArg::Time(now));
    let ghost prefix = sql@;
    let ghost head = seq![ArgView::Time(now)];
    let ghost p = *patch;
    let ghost c0: Seq<(Seq<char>, ArgView)> = Seq::empty();
    proof {
        assert(texts(c0) =~= Seq::<char>::empty());
        assert(sql@ =~= prefix + texts(c0));
        assert(args@.map_values(|x: SqlArg| x@) =~= head + c0.map_values(|c: (Seq<char>, ArgView)| c.1));
    }
    let ghost c1 = c0 + opt_cond(p.title, ", title = ?"@, ArgView::Text(p.title->0@));
    if let Some(title) = &patch.title {
        add_assignment(&mut sql, &mut args, ", title = ?", SqlArg::Text(title.clone()), Ghost(prefix), Ghost(head), Ghost(c0));
        proof { assert(c0.push((", title = ?"@, ArgView::Text(title@))) =~= c1); }
    } else {
        proof { assert(c0 =~= c1); }
    }
    let ghost c2 = c1 + opt_cond(p.description, ", description = ?"@, ArgView::NullableText(opt_text_view(p.description->0)));
    if let Some(description) = &patch.description {
        add_assignment(&mut sql, &mut args, ", description = ?", SqlArg::NullableText(clone_opt(description)), Ghost(prefix), Ghost(head), Ghost(c1));
        proof { assert(c1.push((", description = ?"@, ArgView::NullableText(opt_text_view(*description)))) =~= c2); }
    } else {
        proof { assert(c1 =~= c2); }
    }
    let ghost c3 = c2 + opt_cond(p.priority, ", priority = ?"@, ArgView::Priority(p.priority->0));
    if let Some(priority) = patch.priority {
        add_assignment(&mut sql, &mut args, ", priority = ?", SqlArg::Priority(priority), Ghost(prefix), Ghost(head), Ghost(c2));
        proof { assert(c2.push((", priority = ?"@, ArgView::Priority(priority))) =~= c3); }
    } else {
        proof { assert(c2 =~= c3); }
    }
    let ghost c4 = c3 + opt_cond(p.status, ", status = ?"@, ArgView::Status(p.status->0));
    if let Some(status) = patch.status {
        add_assignment(&mut sql, &mut args, ", status = ?", SqlArg::Status(status), Ghost(prefix), Ghost(head), Ghost(c3));
        proof { assert(c3.push((", status = ?"@, ArgView::Status(status))) =~= c4); }
    } else {
        proof { assert(c3 =~= c4); }
    }
    let ghost c5 = c4 + opt_cond(p.assignee, ", assignee = ?"@, ArgView::NullableText(opt_text_view(p.assignee->0)));
    if let Some(assignee) = &patch.assignee {
        add_assignment(&mut sql, &mut args, ", assignee = ?", SqlArg::NullableText(clone_opt(assignee)), Ghost(prefix), Ghost(head), Ghost(c4));
        proof { assert(c4.push((", assignee = ?"@, ArgView::NullableText(opt_text_view(*assignee)))) =~= c5); }
    } else {
        proof { assert(c4 =~= c5); }
    }
    proof {
        assert(c5 =~= patch_assignments(p));
    }
    push_str(&mut sql, " WHERE id = ? RETURNING ");
    columns_suffix(&mut sql);
    push_arg(&mut args, SqlArg::Id(id));
    proof {
        assert(args@.map_values(|x: SqlArg| x@) =~= spec_update_task_args(id, p, now));
    }
    SqlQuery { sql, args }
}

/// The claim statement: in one statement, the oldest (lowest id) task of
/// the board that is unassigned and pending is assigned and set in
/// progress, and returned; nothing when there is none.
pub open spec fn spec_claim_sql() -> Seq<char> {
    "UPDATE tasks SET assignee = ?, status = ?, updated_at = ?\n         WHERE id = (\n             SELECT id FROM tasks\n             WHERE board_id = ? AND assignee IS NULL AND status = ?\n             ORDER BY id ASC LIMIT 1\n         )\n         RETURNING "@ + task_columns()
}

pub open spec fn spec_claim_args(board_id: i64, assignee: Seq<char>, now: Timestamp) -> Seq<ArgView> {
    seq![
        ArgView::Text(assignee),
        ArgView::Status(TaskStatus::InProgress),
        ArgView::Time(now),
        ArgView::Id(board_id),
        ArgView::Status(TaskStatus::Pending),
    ]
}

/// Claims the next task of a board for `assignee` (see `spec_claim_sql`).
pub fn claim_next_task_query(board_id: i64, assignee: &str, now: Timestamp) -> (q: SqlQuery)
    ensures
        q.sql@ == spec_claim_sql(),
        q.args_view() == spec_claim_args(board_id, assignee@, now),
{
    let mut sql = owned(
        "UPDATE tasks SET assignee = ?, status = ?, updated_at = ?\n         WHERE id = (\n             SELECT id FROM tasks\n             WHERE board_id = ? AND assignee IS NULL AND status = ?\n             ORDER BY id ASC LIMIT 1\n         )\n         RETURNING ",
    );
    columns_suffix(&mut sql);
    let mut args: Vec<SqlArg> = Vec::new();
    push_arg(&mut args, SqlArg::Text(owned(assignee)));
    push_arg(&mut args, SqlArg::Status(TaskStatus::InProgress));
    push_arg(&mut args, SqlArg::Time(now));
    push_arg(&mut args, SqlArg::Id(board_id));
    push_arg(&mut args, SqlArg::Status(TaskStatus::Pending));
    proof {
        assert(args@.map_values(|x: SqlArg| x@) =~= spec_claim_args(board_id, assignee@, now));
    }
    SqlQuery { sql, args }
}

} // verus!
