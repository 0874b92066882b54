use circus::cli::{parse_priority, parse_status, task_patch, TaskCommand};
use circus::output::{
    board_markdown, boards_markdown, comments_markdown, comments_section_markdown, esc,
    show_board, show_comment, show_optional_task, show_task, task_detail_markdown, task_markdown,
    tasks_markdown, OptionalRendering, Rendering,
};
use circus::queries::{SqlArg, SqlQuery};
use circus::status::{Priority, TaskStatus};
use circus::store::{
    board_deleted, board_insert_error, claim_next_task_query, create_task_query,
    list_tasks_query, resolve_board_next, resolve_board_start, task_found, update_task_query,
    Board, Comment, NewTask, ResolveStep, StoreError, Task, TaskDetail, TaskFilter, TaskPatch,
};
use circus::time::Timestamp;

fn ts(secs: i64) -> Timestamp {
    Timestamp::new(secs, 0).unwrap()
}

fn board(id: i64, name: &str, description: Option<&str>) -> Board {
    Board {
        id,
        name: name.to_string(),
        description: description.map(|d| d.to_string()),
        created_at: ts(0),
        updated_at: ts(0),
    }
}

fn task(id: i64, title: &str, assignee: Option<&str>, description: Option<&str>) -> Task {
    Task {
        id,
        board_id: 1,
        title: title.to_string(),
        description: description.map(|d| d.to_string()),
        status: TaskStatus::Pending,
        priority: Priority::High,
        assignee: assignee.map(|a| a.to_string()),
        created_at: ts(0),
        updated_at: ts(0),
    }
}

fn comment(id: i64, author: &str, body: &str) -> Comment {
    Comment {
        id,
        task_id: 1,
        author: author.to_string(),
        body: body.to_string(),
        created_at: ts(1_700_000_000),
    }
}

#[test]
fn new_tasks_are_created_pending() {
    let q: SqlQuery = create_task_query(
        NewTask {
            board_id: 3,
            title: "do the thing".to_string(),
            description: None,
            priority: Priority::Medium,
            assignee: None,
        },
        ts(5),
    );
    assert!(q.sql.starts_with("INSERT INTO tasks (board_id, title, description, status"));
    assert!(q.sql.ends_with("RETURNING id, board_id, title, description, status, priority, assignee, created_at, updated_at"));
    assert_eq!(q.args.len(), 8);
    assert!(matches!(q.args[3], SqlArg::Status(TaskStatus::Pending)));
    assert!(matches!(q.args[4], SqlArg::Priority(Priority::Medium)));
    assert!(matches!(q.args[5], SqlArg::NullableText(None)));
}

#[test]
fn updates_touch_only_the_given_fields() {
    let mut patch = TaskPatch::none();
    patch.priority = Some(Priority::Urgent);
    let q = update_task_query(9, &patch, ts(1));
    assert_eq!(
        q.sql,
        "UPDATE tasks SET updated_at = ?, priority = ? WHERE id = ? RETURNING id, board_id, title, description, status, priority, assignee, created_at, updated_at"
    );
    assert_eq!(q.args.len(), 3);
    assert!(matches!(q.args[1], SqlArg::Priority(Priority::Urgent)));
    assert!(matches!(q.args[2], SqlArg::Id(9)));

    let mut clear = TaskPatch::none();
    clear.assignee = Some(None);
    let q = update_task_query(4, &clear, ts(1));
    assert!(q.sql.starts_with("UPDATE tasks SET updated_at = ?, assignee = ? WHERE id = ?"));
    assert!(matches!(q.args[1], SqlArg::NullableText(None)));

    let all = TaskPatch {
        title: Some("t".to_string()),
        description: Some(Some("d".to_string())),
        priority: Some(Priority::Low),
        status: Some(TaskStatus::Blocked),
        assignee: Some(Some("bob".to_string())),
    };
    let q = update_task_query(4, &all, ts(1));
    assert!(q.sql.starts_with(
        "UPDATE tasks SET updated_at = ?, title = ?, description = ?, priority = ?, status = ?, assignee = ? WHERE id = ?"
    ));
    assert_eq!(q.args.len(), 7);
}

#[test]
fn claims_take_the_oldest_unassigned_pending_task() {
    let q = claim_next_task_query(2, "worker-a", ts(1));
    assert!(q.sql.contains("WHERE board_id = ? AND assignee IS NULL AND status = ?"));
    assert!(q.sql.contains("ORDER BY id ASC LIMIT 1"));
    assert!(matches!(&q.args[0], SqlArg::Text(a) if a == "worker-a"));
    assert!(matches!(q.args[1], SqlArg::Status(TaskStatus::InProgress)));
    assert!(matches!(q.args[3], SqlArg::Id(2)));
    assert!(matches!(q.args[4], SqlArg::Status(TaskStatus::Pending)));
}

#[test]
fn listings_filter_by_status_and_assignee() {
    let q = list_tasks_query(1, &TaskFilter::all());
    assert!(q.sql.ends_with("FROM tasks WHERE board_id = ? ORDER BY id"));
    assert_eq!(q.args.len(), 1);
    let q = list_tasks_query(
        1,
        &TaskFilter { status: Some(TaskStatus::Blocked), assignee: Some("al".to_string()) },
    );
    assert!(q.sql.ends_with("WHERE board_id = ? AND status = ? AND assignee = ? ORDER BY id"));
    assert_eq!(q.args.len(), 3);
}

#[test]
fn boards_resolve_by_id_then_by_name() {
    assert!(matches!(resolve_board_start("42"), ResolveStep::LookupById(42)));
    assert!(matches!(resolve_board_start("backlog"), ResolveStep::LookupByName));
    assert!(matches!(resolve_board_next("42", true, None), ResolveStep::LookupByName));
    match resolve_board_next("missing", false, None) {
        ResolveStep::NotFound(StoreError::BoardNotFound(r)) => assert_eq!(r, "missing"),
        _ => panic!("expected not found"),
    }
    assert!(matches!(
        resolve_board_next("x", false, Some(board(1, "x", None))),
        ResolveStep::Found(b) if b.id == 1
    ));
    assert!(matches!(board_insert_error("dup", true, String::new()), StoreError::BoardNameTaken(n) if n == "dup"));
    assert!(matches!(board_deleted(5, 0), Err(StoreError::BoardNotFound(s)) if s == "5"));
    assert!(board_deleted(5, 1).is_ok());
    assert!(matches!(task_found::<i64>(8, None), Err(StoreError::TaskNotFound(8))));
    assert_eq!(StoreError::BoardNotFound("x".to_string()).message(), "board \"x\" not found");
    assert_eq!(StoreError::TaskNotFound(3).message(), "task 3 not found");
    assert_eq!(
        StoreError::BoardNameTaken("dup".to_string()).message(),
        "a board named \"dup\" already exists"
    );
}

#[test]
fn markdown_escapes_user_text() {
    assert_eq!(esc("a*b|c`d\\e~f_g#"), "a\\*b\\|c\\`d\\\\e\\~f_g#");
    assert_eq!(board_markdown(&board(3, "back*log", Some("the list"))), "## back\\*log `#3`\n*the list*\n");
    assert_eq!(
        boards_markdown(&[]),
        "*No boards yet. Create one with `mini-circus board create <name>`.*\n"
    );
    assert_eq!(
        boards_markdown(&[board(1, "a", None), board(2, "b", Some("d"))]),
        "|id|name|description|\n|-:|-|-|\n|1|**a**||\n|2|**b**|d|\n"
    );
    assert!(matches!(show_board(&board(1, "a", None), true), Rendering::Json));
}

#[test]
fn tasks_render_with_status_priority_and_assignee() {
    assert_eq!(
        task_markdown(&task(4, "Fix", None, None)),
        "### `#4` Fix\n**Status:** pending  **Priority:** high  **Assignee:** *unassigned*\n\n*No description.*\n"
    );
    assert_eq!(
        task_markdown(&task(4, "Fix", Some("al"), Some("x"))),
        "### `#4` Fix\n**Status:** pending  **Priority:** high  **Assignee:** al\n\nx\n"
    );
    assert_eq!(tasks_markdown(&[]), "*No tasks match.*\n");
    assert_eq!(
        tasks_markdown(&[task(1, "t|1", None, None)]),
        "|id|status|priority|assignee|title|\n|-:|-|-|-|-|\n|1|pending|high|-|t\\|1|\n"
    );
    assert!(matches!(show_task(&task(1, "t", None, None), false), Rendering::Markdown(_)));
    assert!(matches!(show_optional_task(None, true, "none"), OptionalRendering::JsonNull));
    assert!(matches!(show_optional_task(None, false, "no *tasks*"), OptionalRendering::Markdown(m) if m == "*no \\*tasks\\**\n"));
}

#[test]
fn comments_render_as_quotes() {
    let c = comment(7, "ann", "line one\nline *two*");
    let entry = "**ann** · `#7` · 2023-11-14 22:13\n> line one\n> line \\*two\\*\n\n";
    assert_eq!(comments_markdown(&[]), "*No comments.*\n");
    assert_eq!(comments_markdown(std::slice::from_ref(&c)), entry);
    assert_eq!(comments_section_markdown(&[]), "\n#### Comments\n\n*No comments.*\n");
    assert_eq!(
        comments_section_markdown(std::slice::from_ref(&c)),
        format!("\n#### Comments (1)\n\n{entry}")
    );
    assert!(matches!(show_comment(&c, false), Rendering::Markdown(m) if m == entry));
    let detail = TaskDetail { task: task(1, "T", None, None), comments: vec![c] };
    assert!(task_detail_markdown(&detail).ends_with(entry));
}

#[test]
fn editing_commands_become_patches() {
    let (id, p) = task_patch(&TaskCommand::Assign { id: 3, assignee: "al".to_string() }).unwrap();
    assert_eq!(id, 3);
    assert_eq!(p.assignee, Some(Some("al".to_string())));
    let (_, p) = task_patch(&TaskCommand::Unassign { id: 3 }).unwrap();
    assert_eq!(p.assignee, Some(None));
    let (_, p) = task_patch(&TaskCommand::Update {
        id: 1,
        title: None,
        description: Some("d".to_string()),
        priority: Some(Priority::Low),
    })
    .unwrap();
    assert_eq!(p.description, Some(Some("d".to_string())));
    assert_eq!(p.priority, Some(Priority::Low));
    assert!(p.title.is_none() && p.status.is_none());
    let (_, p) = task_patch(&TaskCommand::Status { id: 1, status: TaskStatus::Completed }).unwrap();
    assert_eq!(p.status, Some(TaskStatus::Completed));
    assert!(task_patch(&TaskCommand::Delete { id: 1 }).is_none());
    assert_eq!(parse_status("blocked").unwrap(), TaskStatus::Blocked);
    assert!(parse_priority("critical").is_err());
    assert_eq!(
        parse_status("done").unwrap_err().message(),
        "invalid value \"done\", expected one of: pending, in_progress, blocked, completed"
    );
    assert_eq!(
        parse_priority("High").unwrap_err().message(),
        "invalid value \"High\", expected one of: low, medium, high, urgent"
    );
    assert!(parse_priority(" low").is_err());
}

fn read_back(t: &str) -> String {
    let chars: Vec<char> = t.chars().collect();
    let mut out = String::new();
    let mut i = 0;
    while i < chars.len() {
        if chars[i] == '\\' && i + 1 < chars.len() && "\\*~|`".contains(chars[i + 1]) {
            out.push(chars[i + 1]);
            i += 2;
        } else {
            out.push(chars[i]);
            i += 1;
        }
    }
    out
}

#[test]
fn escaped_text_reads_back_literally() {
    for s in ["plain", "a*b", "\\*", "ends with \\", "`code` | ~x~", "", "**bold**"] {
        assert_eq!(read_back(&esc(s)), s);
    }
}

#[test]
fn store_errors_map_to_http_statuses() {
    assert_eq!(StoreError::BoardNotFound("x".to_string()).status_code(), 404);
    assert_eq!(StoreError::TaskNotFound(3).status_code(), 404);
    assert_eq!(StoreError::CommentNotFound(3).status_code(), 404);
    assert_eq!(StoreError::BoardNameTaken("x".to_string()).status_code(), 409);
    assert_eq!(StoreError::Db("locked".to_string()).status_code(), 500);
    assert_eq!(StoreError::TaskNotFound(3).message(), "task 3 not found");
}

#[test]
fn deleting_a_missing_comment_names_it() {
    assert!(matches!(circus::store::comment_deleted(4, 0), Err(StoreError::CommentNotFound(4))));
    assert!(circus::store::comment_deleted(4, 1).is_ok());
}

#[test]
fn board_and_comment_statements() {
    let q = circus::store::list_boards_query();
    assert_eq!(q.sql, "SELECT id, name, description, created_at, updated_at FROM boards ORDER BY name");
    assert!(q.args.is_empty());
    let q = circus::store::board_by_name_query("backlog");
    assert_eq!(q.sql, "SELECT id, name, description, created_at, updated_at FROM boards WHERE name = ?");
    assert!(matches!(&q.args[..], [SqlArg::Text(n)] if n == "backlog"));
    let q = circus::store::list_comments_query(3);
    assert_eq!(q.sql, "SELECT id, task_id, author, body, created_at FROM comments WHERE task_id = ? ORDER BY created_at, id");
    assert!(matches!(&q.args[..], [SqlArg::Id(3)]));
    let q = circus::store::delete_board_query(5);
    assert_eq!(q.sql, "DELETE FROM boards WHERE id = ?");
}
