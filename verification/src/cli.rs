//! The board's command line: what each command asks for, and how the
//! task-editing commands translate into partial updates.
use vstd::prelude::*;

use crate::queries::opt_text_view;
use crate::status::{
    all_priorities, all_statuses, priority_name, spec_parse_priority, spec_parse_status,
    status_name, ParseEnumError, Priority, TaskStatus,
};
use crate::store::TaskPatch;

verus! {

/// Global options and the command to run.
pub struct Cli {
    /// Path to the board database file; the default applies when absent.
    pub db: Option<String>,
    /// Print machine-readable JSON instead of formatted markdown.
    pub json: bool,
    pub command: Command,
}

#[allow(inconsistent_fields)]
pub enum Command {
    /// Create, list, and inspect boards
    Board { command: BoardCommand },
    /// Create, list, and update tasks on a board
    Task { command: TaskCommand },
}

pub enum BoardCommand {
    /// Create a new board
    Create { name: String, description: Option<String> },
    /// List all boards
    List,
    /// Show a single board (by name or id)
    Show { board: String },
    /// Delete a board (by name or id) and all of its tasks
    Delete { board: String },
}

#[allow(inconsistent_fields)]
pub enum TaskCommand {
    /// Create a task on a board
    Create {
        board: String,
        title: String,
        description: Option<String>,
        priority: Priority,
        assignee: Option<String>,
    },
    /// List tasks on a board, optionally filtered
    List { board: String, status: Option<TaskStatus>, assignee: Option<String> },
    /// Show a single task
    Show { id: i64 },
    /// Update a task's title, description, or priority
    Update { id: i64, title: Option<String>, description: Option<String>, priority: Option<Priority> },
    /// Set a task's status directly
    Status { id: i64, status: TaskStatus },
    /// Assign a task to a name
    Assign { id: i64, assignee: String },
    /// Clear a task's assignee
    Unassign { id: i64 },
    /// Atomically claim the next unassigned, pending task on a board
    Claim { board: String, assignee: String },
    /// Delete a task
    Delete { id: i64 },
    /// Add, list, or delete a task's comments
    Comment { command: CommentCommand },
}

pub enum CommentCommand {
    /// Add a comment to a task
    Add { task: i64, body: String, author: String },
    /// List a task's comments, oldest first
    List { task: i64 },
    /// Delete a comment
    Delete { id: i64 },
}

/// Reads a `--status` argument.
pub fn parse_status(s: &str) -> (r: Result<TaskStatus, ParseEnumError>)
    ensures
        match r {
            Ok(x) => spec_parse_status(s@) == Some(x),
            Err(e) => spec_parse_status(s@) is None && e.value_view() == s@ && e.valid_view()
                == all_statuses().map_values(|x: TaskStatus| status_name(x)),
        },
{
    TaskStatus::parse(s)
}

/// Reads a `--priority` argument.
pub fn parse_priority(s: &str) -> (r: Result<Priority, ParseEnumError>)
    ensures
        match r {
            Ok(x) => spec_parse_priority(s@) == Some(x),
            Err(e) => spec_parse_priority(s@) is None && e.value_view() == s@ && e.valid_view()
                == all_priorities().map_values(|x: Priority| priority_name(x)),
        },
{
    Priority::parse(s)
}

fn clone_opt(o: &Option<String>) -> (r: Option<String>)
    ensures
        opt_text_view(r) == opt_text_view(*o),
{
    match o {
        Some(s) => Some(s.clone()),
        None => None,
    }
}

fn some_text(o: &Option<String>) -> (r: Option<Option<String>>)
    ensures
        match *o {
            Some(s) => r matches Some(Some(t)) && t@ == s@,
            None => r is None,
        },
{
    match o {
        Some(s) => Some(Some(s.clone())),
        None => None,
    }
}

/// The task and partial update a task-editing command stands for: `update`
/// sets the fields given (a description given is set, never cleared);
/// `status` sets only the status; `assign` sets the assignee; `unassign`
/// clears it. Other commands edit nothing.
pub fn task_patch(command: &TaskCommand) -> (r: Option<(i64, TaskPatch)>)
    ensures
        match *command {
            TaskCommand::Update { id, title, description, priority } => r matches Some((i, p))
                && i == id && opt_text_view(p.title) == opt_text_view(title) && (match description {
                Some(d) => p.description matches Some(Some(pd)) && pd@ == d@,
                None => p.description is None,
            }) && p.priority == priority && p.status is None && p.assignee is None,
            TaskCommand::Status { id, status } => r matches Some((i, p)) && i == id && p.title is None
                && p.description is None && p.priority is None && p.status == Some(status)
                && p.assignee is None,
            TaskCommand::Assign { id, assignee } => r matches Some((i, p)) && i == id
                && p.title is None && p.description is None && p.priority is None && p.status is None
                && (p.assignee matches Some(Some(a)) && a@ == assignee@),
            TaskCommand::Unassign { id } => r matches Some((i, p)) && i == id && p.title is None
                && p.description is None && p.priority is None && p.status is None && p.assignee
                == Some(None::<String>),
            _ => r is None,
        },
{
    match command {
        TaskCommand::Update { id, title, description, priority } => Some(
            (
                *id,
                TaskPatch {
                    title: clone_opt(title),
                    description: some_text(description),
                    priority: *priority,
                    status: None,
                    assignee: None,
                },
            ),
        ),
        TaskCommand::Status { id, status } => Some(
            (
                *id,
                TaskPatch {
                    title: None,
                    description: None,
                    priority: None,
                    status: Some(*status),
                    assignee: None,
                },
            ),
        ),
        TaskCommand::Assign { id, assignee } => Some(
            (
                *id,
                TaskPatch {
                    title: None,
                    description: None,
                    priority: None,
                    status: None,
                    assignee: Some(Some(assignee.clone())),
                },
            ),
        ),
        TaskCommand::Unassign { id } => Some(
            (
                *id,
                TaskPatch {
                    title: None,
                    description: None,
                    priority: None,
                    status: None,
                    assignee: Some(None),
                },
            ),
        ),
        _ => None,
    }
}

} // verus!
