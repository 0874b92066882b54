//! What the board shows on a terminal: markdown built from boards, tasks
//! and comments, with user-supplied text escaped; or, on request, JSON.
use vstd::prelude::*;

use crate::status::{priority_name, status_name};
use crate::store::{Board, Comment, Task, TaskDetail};
use crate::text::{decimal, int_text, owned, push_char, push_decimal, push_int, push_str};

verus! {

/// How a command's result is shown: as JSON of the value (serialized by
/// the caller), or as this markdown.
pub enum Rendering {
    Json,
    Markdown(String),
}

pub open spec fn is_markdown_special(c: char) -> bool {
    c == '\\' || c == '*' || c == '~' || c == '|' || c == '`'
}

/// One character escaped for the markdown renderer: backslash, asterisk,
/// tilde, pipe and backtick get a backslash before them.
pub open spec fn esc_char(c: char) -> Seq<char> {
    if is_markdown_special(c) {
        seq!['\\', c]
    } else {
        seq![c]
    }
}

/// User-supplied text escaped so that it renders literally.
pub open spec fn spec_esc(s: Seq<char>) -> Seq<char>
    decreases s.len(),
{
    if s.len() == 0 {
        Seq::empty()
    } else {
        spec_esc(s.drop_last()) + esc_char(s.last())
    }
}

/// Escapes user-supplied text so that markdown special characters render
/// as themselves rather than as formatting.
pub fn esc(s: &str) -> (r: String)
    ensures
        r@ == spec_esc(s@),
{
    let mut out = String::new();
    for c in it: s.chars()
        invariant
            it.seq() == s@,
            out@ == spec_esc(s@.take(it.index() as int)),
    {
        proof {
            assert(s@.take(it.index() + 1).drop_last() =~= s@.take(it.index() as int));
            assert(s@.take(it.index() + 1).last() == c);
        }
        let ghost before = out@;
        if c == '\\' || c == '*' || c == '~' || c == '|' || c == '`' {
            push_char(&mut out, '\\');
        }
        push_char(&mut out, c);
        proof {
            assert(out@ =~= before + esc_char(c));
        }
    }
    proof {
        assert(s@.take(s@.len() as int) =~= s@);
    }
    out
}

/// Text as a block quote continues: every line break starts a new quoted
/// line.
pub open spec fn spec_quote_lines(s: Seq<char>) -> Seq<char>
    decreases s.len(),
{
    if s.len() == 0 {
        Seq::empty()
    } else {
        spec_quote_lines(s.drop_last()) + (if s.last() == '\n' {
            "\n> "@
        } else {
            seq![s.last()]
        })
    }
}

/// `s.replace('\n', "\n> ")`.
fn quote_lines(s: &str) -> (r: String)
    ensures
        r@ == spec_quote_lines(s@),
{
    let mut out = String::new();
    for c in it: s.chars()
        invariant
            it.seq() == s@,
            out@ == spec_quote_lines(s@.take(it.index() as int)),
    {
        proof {
            assert(s@.take(it.index() + 1).drop_last() =~= s@.take(it.index() as int));
            assert(s@.take(it.index() + 1).last() == c);
        }
        let ghost before = out@;
        if c == '\n' {
            push_str(&mut out, "\n> ");
        } else {
            push_char(&mut out, c);
            proof {
                assert(out@ =~= before + seq![c]);
            }
        }
    }
    proof {
        assert(s@.take(s@.len() as int) =~= s@);
    }
    out
}

// ---- boards ------------------------------------------------------------

pub open spec fn spec_board_markdown(b: Board) -> Seq<char> {
    "## "@ + spec_esc(b.name@) + " `#"@ + int_text(b.id as int) + "`\n"@ + match b.description {
        Some(d) => "*"@ + spec_esc(d@) + "*\n"@,
        None => Seq::empty(),
    }
}

pub fn board_markdown(board: &Board) -> (r: String)
    ensures
        r@ == spec_board_markdown(*board),
{
    let mut s = owned("## ");
    push_str(&mut s, esc(board.name.as_str()).as_str());
    push_str(&mut s, " `#");
    push_int(&mut s, board.id);
    push_str(&mut s, "`\n");
    let ghost head = s@;
    if let Some(desc) = &board.description {
        push_str(&mut s, "*");
        push_str(&mut s, esc(desc.as_str()).as_str());
        push_str(&mut s, "*\n");
    }
    proof {
        assert(s@ =~= spec_board_markdown(*board));
    }
    s
}

pub open spec fn board_row(b: Board) -> Seq<char> {
    "|"@ + int_text(b.id as int) + "|**"@ + spec_esc(b.name@) + "**|"@ + match b.description {
        Some(d) => spec_esc(d@),
        None => Seq::empty(),
    } + "|\n"@
}

pub open spec fn board_rows(bs: Seq<Board>) -> Seq<char>
    decreases bs.len(),
{
    if bs.len() == 0 {
        Seq::empty()
    } else {
        board_rows(bs.drop_last()) + board_row(bs.last())
    }
}

pub open spec fn spec_boards_markdown(bs: Seq<Board>) -> Seq<char> {
    if bs.len() == 0 {
        "*No boards yet. Create one with `mini-circus board create <name>`.*\n"@
    } else {
        "|id|name|description|\n|-:|-|-|\n"@ + board_rows(bs)
    }
}

pub fn boards_markdown(boards: &[Board]) -> (r: String)
    ensures
        r@ == spec_boards_markdown(boards@),
{
    if boards.len() == 0 {
        return owned("*No boards yet. Create one with `mini-circus board create <name>`.*\n");
    }
    let mut s = owned("|id|name|description|\n|-:|-|-|\n");
    let ghost head = s@;
    let mut i: usize = 0;
    while i < boards.len()
        invariant
            i <= boards@.len(),
            s@ == head + board_rows(boards@.take(i as int)),
        decreases boards.len() - i,
    {
        let b = &boards[i];
        let ghost before = s@;
        push_str(&mut s, "|");
        push_int(&mut s, b.id);
        push_str(&mut s, "|**");
        push_str(&mut s, esc(b.name.as_str()).as_str());
        push_str(&mut s, "**|");
        if let Some(d) = &b.description {
            push_str(&mut s, esc(d.as_str()).as_str());
        }
        push_str(&mut s, "|\n");
        proof {
            assert(boards@.take(i + 1).drop_last() =~= boards@.take(i as int));
            assert(boards@.take(i + 1).last() == *b);
            assert(s@ =~= before + board_row(*b));
        }
        i = i + 1;
    }
    proof {
        assert(boards@.take(boards@.len() as int) =~= boards@);
    }
    s
}

pub fn show_board(board: &Board, json: bool) -> (r: Rendering)
    ensures
        json ==> r is Json,
        !json ==> (r matches Rendering::Markdown(m) && m@ == spec_board_markdown(*board)),
{
    if json {
        return Rendering::Json;
    }
    Rendering::Markdown(board_markdown(board))
}

pub fn show_boards(boards: &[Board], json: bool) -> (r: Rendering)
    ensures
        json ==> r is Json,
        !json ==> (r matches Rendering::Markdown(m) && m@ == spec_boards_markdown(boards@)),
{
    if json {
        return Rendering::Json;
    }
    Rendering::Markdown(boards_markdown(boards))
}

// ---- tasks -------------------------------------------------------------

pub open spec fn spec_task_markdown(t: Task) -> Seq<char> {
    let assignee = match t.assignee {
        Some(a) => spec_esc(a@),
        None => "*unassigned*"@,
    };
    "### `#"@ + int_text(t.id as int) + "` "@ + spec_esc(t.title@) + "\n**Status:** "@ + status_name(
        t.status,
    ) + "  **Priority:** "@ + priority_name(t.priority) + "  **Assignee:** "@ + assignee + "\n"@
        + match t.description {
        Some(d) => "\n"@ + spec_esc(d@) + "\n"@,
        None => "\n*No description.*\n"@,
    }
}

pub fn task_markdown(task: &Task) -> (r: String)
    ensures
        r@ == spec_task_markdown(*task),
{
    let assignee = match &task.assignee {
        Some(a) => esc(a.as_str()),
        None => owned("*unassigned*"),
    };
    let mut s = owned("### `#");
    push_int(&mut s, task.id);
    push_str(&mut s, "` ");
    push_str(&mut s, esc(task.title.as_str()).as_str());
    push_str(&mut s, "\n**Status:** ");
    push_str(&mut s, task.status.as_str());
    push_str(&mut s, "  **Priority:** ");
    push_str(&mut s, task.priority.as_str());
    push_str(&mut s, "  **Assignee:** ");
    push_str(&mut s, assignee.as_str());
    push_str(&mut s, "\n");
    match &task.description {
        Some(d) => {
            push_str(&mut s, "\n");
            push_str(&mut s, esc(d.as_str()).as_str());
            push_str(&mut s, "\n");
        },
        None => {
            push_str(&mut s, "\n*No description.*\n");
        },
    }
    proof {
        assert(s@ =~= spec_task_markdown(*task));
    }
    s
}

pub open spec fn task_row(t: Task) -> Seq<char> {
    "|"@ + int_text(t.id as int) + "|"@ + status_name(t.status) + "|"@ + priority_name(t.priority)
        + "|"@ + match t.assignee {
        Some(a) => spec_esc(a@),
        None => "-"@,
    } + "|"@ + spec_esc(t.title@) + "|\n"@
}

pub open spec fn task_rows(ts: Seq<Task>) -> Seq<char>
    decreases ts.len(),
{
    if ts.len() == 0 {
        Seq::empty()
    } else {
        task_rows(ts.drop_last()) + task_row(ts.last())
    }
}

pub open spec fn spec_tasks_markdown(ts: Seq<Task>) -> Seq<char> {
    if ts.len() == 0 {
        "*No tasks match.*\n"@
    } else {
        "|id|status|priority|assignee|title|\n|-:|-|-|-|-|\n"@ + task_rows(ts)
    }
}

fn push_task_row(s: &mut String, t: &Task)
    ensures
        final(s)@ == old(s)@ + task_row(*t),
{
    push_str(s, "|");
    push_int(s, t.id);
    push_str(s, "|");
    push_str(s, t.status.as_str());
    push_str(s, "|");
    push_str(s, t.priority.as_str());
    push_str(s, "|");
    match &t.assignee {
        Some(a) => push_str(s, esc(a.as_str()).as_str()),
        None => push_str(s, "-"),
    }
    push_str(s, "|");
    push_str(s, esc(t.title.as_str()).as_str());
    push_str(s, "|\n");
    proof {
        assert(final(s)@ =~= old(s)@ + task_row(*t));
    }
}

pub fn tasks_markdown(tasks: &[Task]) -> (r: String)
    ensures
        r@ == spec_tasks_markdown(tasks@),
{
    if tasks.len() == 0 {
        return owned("*No tasks match.*\n");
    }
    let mut s = owned("|id|status|priority|assignee|title|\n|-:|-|-|-|-|\n");
    let ghost head = s@;
    let mut i: usize = 0;
    while i < tasks.len()
        invariant
            i <= tasks@.len(),
            s@ == head + task_rows(tasks@.take(i as int)),
        decreases tasks.len() - i,
    {
        let t = &tasks[i];
        push_task_row(&mut s, t);
        proof {
            assert(tasks@.take(i + 1).drop_last() =~= tasks@.take(i as int));
            assert(tasks@.take(i + 1).last() == *t);
        }
        i = i + 1;
    }
    proof {
        assert(tasks@.take(tasks@.len() as int) =~= tasks@);
    }
    s
}

pub fn show_task(task: &Task, json: bool) -> (r: Rendering)
    ensures
        json ==> r is Json,
        !json ==> (r matches Rendering::Markdown(m) && m@ == spec_task_markdown(*task)),
{
    if json {
        return Rendering::Json;
    }
    Rendering::Markdown(task_markdown(task))
}

pub fn show_tasks(tasks: &[Task], json: bool) -> (r: Rendering)
    ensures
        json ==> r is Json,
        !json ==> (r matches Rendering::Markdown(m) && m@ == spec_tasks_markdown(tasks@)),
{
    if json {
        return Rendering::Json;
    }
    Rendering::Markdown(tasks_markdown(tasks))
}

// ---- comments ------------------------------------------------------------

/// One comment: bold author, id, time, then the body as a block quote.
pub open spec fn comment_entry(c: Comment) -> Seq<char> {
    "**"@ + spec_esc(c.author@) + "** · `#"@ + int_text(c.id as int) + "` · "@
        + c.created_at.spec_minute_text() + "\n> "@ + spec_quote_lines(spec_esc(c.body@)) + "\n\n"@
}

pub open spec fn comment_entries(cs: Seq<Comment>) -> Seq<char>
    decreases cs.len(),
{
    if cs.len() == 0 {
        Seq::empty()
    } else {
        comment_entries(cs.drop_last()) + comment_entry(cs.last())
    }
}

fn push_comment_entry(s: &mut String, c: &Comment)
    ensures
        final(s)@ == old(s)@ + comment_entry(*c),
{
    push_str(s, "**");
    push_str(s, esc(c.author.as_str()).as_str());
    push_str(s, "** · `#");
    push_int(s, c.id);
    push_str(s, "` · ");
    push_str(s, c.created_at.minute_text().as_str());
    push_str(s, "\n> ");
    push_str(s, quote_lines(esc(c.body.as_str()).as_str()).as_str());
    push_str(s, "\n\n");
    proof {
        assert(final(s)@ =~= old(s)@ + comment_entry(*c));
    }
}

fn push_comment_entries(s: &mut String, comments: &[Comment])
    ensures
        final(s)@ == old(s)@ + comment_entries(comments@),
{
    let ghost head = s@;
    let mut i: usize = 0;
    proof {
        assert(comments@.take(0) =~= Seq::<Comment>::empty());
        assert(s@ =~= head + comment_entries(comments@.take(0)));
    }
    while i < comments.len()
        invariant
            i <= comments@.len(),
            s@ == head + comment_entries(comments@.take(i as int)),
        decreases comments.len() - i,
    {
        let c = &comments[i];
        push_comment_entry(s, c);
        proof {
            assert(comments@.take(i + 1).drop_last() =~= comments@.take(i as int));
            assert(comments@.take(i + 1).last() == *c);
        }
        i = i + 1;
    }
    proof {
        assert(comments@.take(comments@.len() as int) =~= comments@);
    }
}

pub open spec fn spec_comments_section_markdown(cs: Seq<Comment>) -> Seq<char> {
    if cs.len() == 0 {
        "\n#### Comments\n\n*No comments.*\n"@
    } else {
        "\n#### Comments ("@ + decimal(cs.len()) + ")\n\n"@ + comment_entries(cs)
    }
}

pub fn comments_section_markdown(comments: &[Comment]) -> (r: String)
    ensures
        r@ == spec_comments_section_markdown(comments@),
{
    if comments.len() == 0 {
        return owned("\n#### Comments\n\n*No comments.*\n");
    }
    let mut s = owned("\n#### Comments (");
    push_decimal(&mut s, comments.len() as u64);
    push_str(&mut s, ")\n\n");
    push_comment_entries(&mut s, comments);
    s
}

pub open spec fn spec_task_detail_markdown(d: TaskDetail) -> Seq<char> {
    spec_task_markdown(d.task) + spec_comments_section_markdown(d.comments@)
}

pub fn task_detail_markdown(detail: &TaskDetail) -> (r: String)
    ensures
        r@ == spec_task_detail_markdown(*detail),
{
    let mut s = task_markdown(&detail.task);
    push_str(&mut s, comments_section_markdown(detail.comments.as_slice()).as_str());
    s
}

pub fn show_task_detail(detail: &TaskDetail, json: bool) -> (r: Rendering)
    ensures
        json ==> r is Json,
        !json ==> (r matches Rendering::Markdown(m) && m@ == spec_task_detail_markdown(*detail)),
{
    if json {
        return Rendering::Json;
    }
    Rendering::Markdown(task_detail_markdown(detail))
}

/// What an optional task shows: the task, or (in JSON) `null`, or the
/// message in italics.
pub enum OptionalRendering {
    Task(Rendering),
    JsonNull,
    Markdown(String),
}

pub fn show_optional_task(task: Option<&Task>, json: bool, empty_message: &str) -> (r: OptionalRendering)
    ensures
        match task {
            Some(t) => (json ==> (r matches OptionalRendering::Task(Rendering::Json))) && (!json ==> (
            r matches OptionalRendering::Task(Rendering::Markdown(m)) && m@ == spec_task_markdown(*t))),
            None => (json ==> r is JsonNull) && (!json ==> (r matches OptionalRendering::Markdown(m)
                && m@ == "*"@ + spec_esc(empty_message@) + "*\n"@)),
        },
{
    match task {
        Some(t) => OptionalRendering::Task(show_task(t, json)),
        None => if json {
            OptionalRendering::JsonNull
        } else {
            let mut s = owned("*");
            push_str(&mut s, esc(empty_message).as_str());
            push_str(&mut s, "*\n");
            OptionalRendering::Markdown(s)
        },
    }
}

pub open spec fn spec_comments_markdown(cs: Seq<Comment>) -> Seq<char> {
    if cs.len() == 0 {
        "*No comments.*\n"@
    } else {
        comment_entries(cs)
    }
}

pub fn comments_markdown(comments: &[Comment]) -> (r: String)
    ensures
        r@ == spec_comments_markdown(comments@),
{
    if comments.len() == 0 {
        return owned("*No comments.*\n");
    }
    let mut s = String::new();
    push_comment_entries(&mut s, comments);
    proof {
        assert(Seq::<char>::empty() + comment_entries(comments@) =~= comment_entries(comments@));
    }
    s
}

pub fn show_comment(comment: &Comment, json: bool) -> (r: Rendering)
    ensures
        json ==> r is Json,
        !json ==> (r matches Rendering::Markdown(m) && m@ == comment_entry(*comment)),
{
    if json {
        return Rendering::Json;
    }
    let mut s = String::new();
    push_comment_entry(&mut s, comment);
    proof {
        assert(Seq::<char>::empty() + comment_entry(*comment) =~= comment_entry(*comment));
    }
    Rendering::Markdown(s)
}

pub fn show_comments(comments: &[Comment], json: bool) -> (r: Rendering)
    ensures
        json ==> r is Json,
        !json ==> (r matches Rendering::Markdown(m) && m@ == spec_comments_markdown(comments@)),
{
    if json {
        return Rendering::Json;
    }
    Rendering::Markdown(comments_markdown(comments))
}

/// What a deletion confirms in markdown: `**Deleted** <kind> `#<id>``.
pub fn deleted_markdown(kind: &str, id: &str) -> (r: String)
    ensures
        r@ == "**Deleted** "@ + kind@ + " `#"@ + id@ + "`\n"@,
{
    let mut s = owned("**Deleted** ");
    push_str(&mut s, kind);
    push_str(&mut s, " `#");
    push_str(&mut s, id);
    push_str(&mut s, "`\n");
    s
}

} // verus!

verus! {

/// How the markdown renderer reads text back: a backslash before a special
/// character stands for that character; anything else stands for itself.
pub open spec fn spec_unescape(t: Seq<char>) -> Seq<char>
    decreases t.len(),
{
    if t.len() == 0 {
        Seq::empty()
    } else if t.len() >= 2 && t[0] == '\\' && is_markdown_special(t[1]) {
        seq![t[1]] + spec_unescape(t.skip(2))
    } else {
        seq![t[0]] + spec_unescape(t.skip(1))
    }
}

proof fn lemma_esc_append(a: Seq<char>, b: Seq<char>)
    ensures
        spec_esc(a + b) == spec_esc(a) + spec_esc(b),
    decreases b.len(),
{
    if b.len() == 0 {
        assert(a + b =~= a);
        assert(spec_esc(a) + spec_esc(b) =~= spec_esc(a));
    } else {
        lemma_esc_append(a, b.drop_last());
        assert((a + b).drop_last() =~= a + b.drop_last());
        assert((a + b).last() == b.last());
        assert(spec_esc(a + b) =~= spec_esc(a) + spec_esc(b));
    }
}

/// Escaping loses nothing: the renderer reads escaped text back as exactly
/// the text that was escaped, so every special character in a title, a
/// description, a comment or a name shows up literally.
pub proof fn lemma_escaped_text_reads_back(s: Seq<char>)
    ensures
        spec_unescape(spec_esc(s)) == s,
    decreases s.len(),
{
    if s.len() > 0 {
        let c = s[0];
        let rest = s.skip(1);
        assert(seq![c] + rest =~= s);
        lemma_esc_append(seq![c], rest);
        assert(seq![c].drop_last() =~= Seq::<char>::empty());
        assert(seq![c].last() == c);
        assert(spec_esc(Seq::<char>::empty()) == Seq::<char>::empty());
        assert(spec_esc(seq![c]) == spec_esc(Seq::<char>::empty()) + esc_char(c));
        assert(spec_esc(seq![c]) =~= esc_char(c));
        lemma_escaped_text_reads_back(rest);
        let t = esc_char(c) + spec_esc(rest);
        if is_markdown_special(c) {
            assert(t.skip(2) =~= spec_esc(rest));
        } else {
            assert(t.skip(1) =~= spec_esc(rest));
        }
        assert(spec_unescape(t) =~= seq![c] + rest);
    }
}

} // verus!

verus! {

/// A task's row in the board's table has five cells: id, status,
/// priority, assignee and title. The assignee cell reads back as the
/// task's assignee exactly (`-` only for an unassigned task), and the
/// title cell as its title.
pub proof fn lemma_task_row_cells(t: Task)
    ensures
        exists|assignee_cell: Seq<char>, title_cell: Seq<char>|
            {
                &&& task_row(t) == "|"@ + int_text(t.id as int) + "|"@ + status_name(t.status) + "|"@
                    + priority_name(t.priority) + "|"@ + assignee_cell + "|"@ + title_cell + "|\n"@
                &&& spec_unescape(title_cell) == t.title@
                &&& match t.assignee {
                    Some(a) => spec_unescape(assignee_cell) == a@,
                    None => assignee_cell == "-"@,
                }
            },
{
    lemma_escaped_text_reads_back(t.title@);
    let a_cell = match t.assignee {
        Some(a) => spec_esc(a@),
        None => "-"@,
    };
    if let Some(a) = t.assignee {
        lemma_escaped_text_reads_back(a@);
    }
    let title_cell = spec_esc(t.title@);
    assert(task_row(t) == "|"@ + int_text(t.id as int) + "|"@ + status_name(t.status) + "|"@
        + priority_name(t.priority) + "|"@ + a_cell + "|"@ + title_cell + "|\n"@);
}

} // verus!
