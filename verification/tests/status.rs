use circus::status::{Priority, TaskStatus};

#[test]
fn round_trips_through_str() {
    for status in TaskStatus::all().iter() {
        assert_eq!(status.as_str().parse::<TaskStatus>().unwrap(), *status);
    }
    for priority in Priority::all().iter() {
        assert_eq!(priority.as_str().parse::<Priority>().unwrap(), *priority);
    }
}

#[test]
fn rejects_unknown_values() {
    assert!("nonsense".parse::<TaskStatus>().is_err());
}

#[test]
fn text_forms_are_snake_case() {
    assert_eq!(TaskStatus::InProgress.as_str(), "in_progress");
    assert_eq!(TaskStatus::Completed.to_string(), "completed");
    assert_eq!(Priority::Urgent.as_str(), "urgent");
    assert_eq!(TaskStatus::default(), TaskStatus::Pending);
    assert_eq!(Priority::default(), Priority::Medium);
    assert!("In_Progress".parse::<TaskStatus>().is_err());
    assert!(" pending".parse::<TaskStatus>().is_err());
    assert_eq!("high".parse::<Priority>().unwrap(), Priority::High);
}

#[test]
fn parse_error_names_the_value_and_the_valid_ones() {
    let err = "nonsense".parse::<TaskStatus>().unwrap_err();
    assert_eq!(err.value(), "nonsense");
    assert_eq!(
        err.message(),
        "invalid value \"nonsense\", expected one of: pending, in_progress, blocked, completed"
    );
    let err = Priority::parse("a\"b").unwrap_err();
    assert_eq!(
        err.message(),
        "invalid value \"a\\\"b\", expected one of: low, medium, high, urgent"
    );
}
