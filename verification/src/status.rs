//! Task-board vocabulary shared by the multi-tenant service and the
//! single-file board: a task's status and its priority, each with a fixed
//! text form used on the command line, in JSON and in the database.
use vstd::prelude::*;

use crate::text::{owned, push_char, push_str, str_eq};

verus! {

/// What `{:?}` (`Debug`) prints for a string: the string in double quotes
/// with escapes.
pub uninterp spec fn str_debug(s: Seq<char>) -> Seq<char>;

/// `format!("{:?}", s)` for a string slice. Its result is named, not
/// stated: the escaping rules (Unicode printability tables) are left
/// unsaid.
#[verifier::external_body]
fn debug_quoted(s: &str) -> (r: String)
    ensures
        r@ == str_debug(s@),
{
    format!("{:?}", s)
}

/// The `Debug` form of a string: quoted and escaped.
pub fn debug_quoted_text(s: &str) -> (r: String)
    ensures
        r@ == str_debug(s@),
{
    debug_quoted(s)
}

/// `names` joined with `sep` between neighbours.
pub open spec fn join(names: Seq<Seq<char>>, sep: Seq<char>) -> Seq<char>
    decreases names.len(),
{
    if names.len() == 0 {
        Seq::empty()
    } else if names.len() == 1 {
        names[0]
    } else {
        join(names.drop_last(), sep) + sep + names.last()
    }
}

/// The error of parsing a status or priority from text (CLI argument,
/// JSON, ...): the text given and the values that would have been valid.
#[derive(Debug)]
pub struct ParseEnumError {
    value: String,
    valid: Vec<&'static str>,
}

impl ParseEnumError {
    pub closed spec fn value_view(&self) -> Seq<char> {
        self.value@
    }

    pub closed spec fn valid_view(&self) -> Seq<Seq<char>> {
        self.valid@.map_values(|s: &'static str| s@)
    }

    /// The text that failed to parse.
    pub fn value(&self) -> (r: &str)
        ensures
            r@ == self.value_view(),
    {
        self.value.as_str()
    }

    /// The message shown for this error:
    /// `invalid value "<text>", expected one of: <v1>, <v2>, ...`.
    pub open spec fn spec_message(&self) -> Seq<char> {
        "invalid value "@ + str_debug(self.value_view()) + ", expected one of: "@ + join(
            self.valid_view(),
            ", "@,
        )
    }

    pub fn message(&self) -> (r: String)
        ensures
            r@ == self.spec_message(),
    {
        let mut s = owned("invalid value ");
        let q = debug_quoted(self.value.as_str());
        push_str(&mut s, q.as_str());
        push_str(&mut s, ", expected one of: ");
        let ghost names = self.valid_view();
        let ghost head = s@;
        let mut i: usize = 0;
        while i < self.valid.len()
            invariant
                names == self.valid_view(),
                names.len() == self.valid@.len(),
                i <= names.len(),
                s@ == head + join(names.take(i as int), ", "@),
            decreases self.valid.len() - i,
        {
            proof {
                assert(names.take(i + 1).drop_last() =~= names.take(i as int));
                assert(names.take(i + 1).last() == self.valid@[i as int]@);
            }
            if i > 0 {
                push_str(&mut s, ", ");
            }
            push_str(&mut s, self.valid[i]);
            proof {
                if i == 0 {
                    assert(names.take(1) =~= seq![names[0]]);
                    assert(join(names.take(0), ", "@) =~= Seq::<char>::empty());
                    assert(head + Seq::<char>::empty() + self.valid@[0]@ =~= head + self.valid@[0]@);
                }
            }
            i = i + 1;
        }
        proof {
            assert(names.take(names.len() as int) =~= names);
        }
        s
    }
}

/// A task's place in its board's workflow. Fixed on purpose, no custom
/// columns.
#[derive(Debug, Clone, Copy, PartialEq, Eq, Structural, PartialOrd, Ord)]
pub enum TaskStatus {
    Pending,
    InProgress,
    Blocked,
    Completed,
}

/// How urgent a task is.
#[derive(Debug, Clone, Copy, PartialEq, Eq, Structural, PartialOrd, Ord)]
pub enum Priority {
    Low,
    Medium,
    High,
    Urgent,
}

/// The text form of a status.
pub open spec fn status_name(s: TaskStatus) -> Seq<char> {
    match s {
        TaskStatus::Pending => "pending"@,
        TaskStatus::InProgress => "in_progress"@,
        TaskStatus::Blocked => "blocked"@,
        TaskStatus::Completed => "completed"@,
    }
}

/// The text form of a priority.
pub open spec fn priority_name(p: Priority) -> Seq<char> {
    match p {
        Priority::Low => "low"@,
        Priority::Medium => "medium"@,
        Priority::High => "high"@,
        Priority::Urgent => "urgent"@,
    }
}

/// All statuses, in workflow order.
pub open spec fn all_statuses() -> Seq<TaskStatus> {
    seq![TaskStatus::Pending, TaskStatus::InProgress, TaskStatus::Blocked, TaskStatus::Completed]
}

/// All priorities, from lowest to highest.
pub open spec fn all_priorities() -> Seq<Priority> {
    seq![Priority::Low, Priority::Medium, Priority::High, Priority::Urgent]
}

/// The status whose text form is `s`, if any.
pub open spec fn spec_parse_status(s: Seq<char>) -> Option<TaskStatus> {
    if s == "pending"@ {
        Some(TaskStatus::Pending)
    } else if s == "in_progress"@ {
        Some(TaskStatus::InProgress)
    } else if s == "blocked"@ {
        Some(TaskStatus::Blocked)
    } else if s == "completed"@ {
        Some(TaskStatus::Completed)
    } else {
        None
    }
}

/// The priority whose text form is `s`, if any.
pub open spec fn spec_parse_priority(s: Seq<char>) -> Option<Priority> {
    if s == "low"@ {
        Some(Priority::Low)
    } else if s == "medium"@ {
        Some(Priority::Medium)
    } else if s == "high"@ {
        Some(Priority::High)
    } else if s == "urgent"@ {
        Some(Priority::Urgent)
    } else {
        None
    }
}

impl TaskStatus {
    pub fn as_str(self) -> (r: &'static str)
        ensures
            r@ == status_name(self),
    {
        match self {
            TaskStatus::Pending => "pending",
            TaskStatus::InProgress => "in_progress",
            TaskStatus::Blocked => "blocked",
            TaskStatus::Completed => "completed",
        }
    }

    /// The text form as an owned string (what `Display` prints).
    pub fn to_string(self) -> (r: String)
        ensures
            r@ == status_name(self),
    {
        owned(self.as_str())
    }

    /// Every status, in workflow order.
    pub fn all() -> (r: Vec<TaskStatus>)
        ensures
            r@ == all_statuses(),
    {
        let r = vec![
            TaskStatus::Pending,
            TaskStatus::InProgress,
            TaskStatus::Blocked,
            TaskStatus::Completed,
        ];
        proof {
            assert(r@ =~= all_statuses());
        }
        r
    }

    /// The valid text forms, in workflow order.
    pub fn names() -> (r: Vec<&'static str>)
        ensures
            r@.map_values(|s: &'static str| s@) == all_statuses().map_values(
                |x: TaskStatus| status_name(x),
            ),
    {
        let r = vec!["pending", "in_progress", "blocked", "completed"];
        proof {
            assert(r@.map_values(|s: &'static str| s@) =~= all_statuses().map_values(
                |x: TaskStatus| status_name(x),
            ));
        }
        r
    }

    /// Parses the text form of a status; anything else is an error that
    /// records the text and the valid forms.
    pub fn parse(s: &str) -> (r: Result<TaskStatus, ParseEnumError>)
        ensures
            match r {
                Ok(x) => spec_parse_status(s@) == Some(x),
                Err(e) => spec_parse_status(s@) is None && e.value_view() == s@
                    && e.valid_view() == all_statuses().map_values(|x: TaskStatus| status_name(x)),
            },
    {
        if str_eq(s, "pending") {
            Ok(TaskStatus::Pending)
        } else if str_eq(s, "in_progress") {
            Ok(TaskStatus::InProgress)
        } else if str_eq(s, "blocked") {
            Ok(TaskStatus::Blocked)
        } else if str_eq(s, "completed") {
            Ok(TaskStatus::Completed)
        } else {
            Err(ParseEnumError { value: owned(s), valid: TaskStatus::names() })
        }
    }
}

impl Priority {
    pub fn as_str(self) -> (r: &'static str)
        ensures
            r@ == priority_name(self),
    {
        match self {
            Priority::Low => "low",
            Priority::Medium => "medium",
            Priority::High => "high",
            Priority::Urgent => "urgent",
        }
    }

    /// The text form as an owned string (what `Display` prints).
    pub fn to_string(self) -> (r: String)
        ensures
            r@ == priority_name(self),
    {
        owned(self.as_str())
    }

    /// Every priority, from lowest to highest.
    pub fn all() -> (r: Vec<Priority>)
        ensures
            r@ == all_priorities(),
    {
        let r = vec![Priority::Low, Priority::Medium, Priority::High, Priority::Urgent];
        proof {
            assert(r@ =~= all_priorities());
        }
        r
    }

    /// The valid text forms, from lowest to highest.
    pub fn names() -> (r: Vec<&'static str>)
        ensures
            r@.map_values(|s: &'static str| s@) == all_priorities().map_values(
                |x: Priority| priority_name(x),
            ),
    {
        let r = vec!["low", "medium", "high", "urgent"];
        proof {
            assert(r@.map_values(|s: &'static str| s@) =~= all_priorities().map_values(
                |x: Priority| priority_name(x),
            ));
        }
        r
    }

    /// Parses the text form of a priority; anything else is an error that
    /// records the text and the valid forms.
    pub fn parse(s: &str) -> (r: Result<Priority, ParseEnumError>)
        ensures
            match r {
                Ok(x) => spec_parse_priority(s@) == Some(x),
                Err(e) => spec_parse_priority(s@) is None && e.value_view() == s@
                    && e.valid_view() == all_priorities().map_values(|x: Priority| priority_name(x)),
            },
    {
        if str_eq(s, "low") {
            Ok(Priority::Low)
        } else if str_eq(s, "medium") {
            Ok(Priority::Medium)
        } else if str_eq(s, "high") {
            Ok(Priority::High)
        } else if str_eq(s, "urgent") {
            Ok(Priority::Urgent)
        } else {
            Err(ParseEnumError { value: owned(s), valid: Priority::names() })
        }
    }
}

impl Default for TaskStatus {
    /// New tasks start out pending.
    fn default() -> (r: Self)
        ensures
            r == TaskStatus::Pending,
    {
        TaskStatus::Pending
    }
}

impl Default for Priority {
    /// Tasks are of medium priority unless said otherwise.
    fn default() -> (r: Self)
        ensures
            r == Priority::Medium,
    {
        Priority::Medium
    }
}

impl core::str::FromStr for TaskStatus {
    type Err = ParseEnumError;

    fn from_str(s: &str) -> (r: Result<TaskStatus, ParseEnumError>)
        ensures
            match r {
                Ok(x) => spec_parse_status(s@) == Some(x),
                Err(e) => spec_parse_status(s@) is None && e.value_view() == s@
                    && e.valid_view() == all_statuses().map_values(|x: TaskStatus| status_name(x)),
            },
    {
        TaskStatus::parse(s)
    }
}

impl core::str::FromStr for Priority {
    type Err = ParseEnumError;

    fn from_str(s: &str) -> (r: Result<Priority, ParseEnumError>)
        ensures
            match r {
                Ok(x) => spec_parse_priority(s@) == Some(x),
                Err(e) => spec_parse_priority(s@) is None && e.value_view() == s@
                    && e.valid_view() == all_priorities().map_values(|x: Priority| priority_name(x)),
            },
    {
        Priority::parse(s)
    }
}

proof fn lemma_status_names_distinct()
    ensures
        "pending"@ != "in_progress"@,
        "pending"@ != "blocked"@,
        "pending"@ != "completed"@,
        "in_progress"@ != "blocked"@,
        "in_progress"@ != "completed"@,
        "blocked"@ != "completed"@,
{
    reveal_strlit("pending");
    reveal_strlit("in_progress");
    reveal_strlit("blocked");
    reveal_strlit("completed");
    assert("pending"@[0] != "in_progress"@[0]);
    assert("pending"@[0] != "blocked"@[0]);
    assert("pending"@[0] != "completed"@[0]);
    assert("in_progress"@[0] != "blocked"@[0]);
    assert("in_progress"@[0] != "completed"@[0]);
    assert("blocked"@[0] != "completed"@[0]);
}

proof fn lemma_priority_names_distinct()
    ensures
        "low"@ != "medium"@,
        "low"@ != "high"@,
        "low"@ != "urgent"@,
        "medium"@ != "high"@,
        "medium"@ != "urgent"@,
        "high"@ != "urgent"@,
{
    reveal_strlit("low");
    reveal_strlit("medium");
    reveal_strlit("high");
    reveal_strlit("urgent");
    assert("low"@[0] != "medium"@[0]);
    assert("low"@[0] != "high"@[0]);
    assert("low"@[0] != "urgent"@[0]);
    assert("medium"@[0] != "high"@[0]);
    assert("medium"@[0] != "urgent"@[0]);
    assert("high"@[0] != "urgent"@[0]);
}

/// Every status survives a round trip through its text form, and the
/// parser accepts only those text forms: parsing `s` gives `x` exactly
/// when `s` is the text form of `x`.
pub proof fn lemma_status_round_trip(x: TaskStatus, s: Seq<char>)
    ensures
        spec_parse_status(status_name(x)) == Some(x),
        spec_parse_status(s) == Some(x) <==> s == status_name(x),
{
    lemma_status_names_distinct();
}

/// Every priority survives a round trip through its text form, and the
/// parser accepts only those text forms.
pub proof fn lemma_priority_round_trip(x: Priority, s: Seq<char>)
    ensures
        spec_parse_priority(priority_name(x)) == Some(x),
        spec_parse_priority(s) == Some(x) <==> s == priority_name(x),
{
    lemma_priority_names_distinct();
}

} // verus!
