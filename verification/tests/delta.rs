use yabusame::{Delta, Priority, Task, TaskDelta, TaskId, Timestamp};

fn due(year: i32, ordinal: u16) -> Timestamp {
    Timestamp::new(year, ordinal, 9, 30, 0, 0, 2, 0, 0).unwrap()
}

fn sample() -> Task {
    Task::new(
        Some(TaskId::try_from(3).unwrap()),
        false,
        "water the plants".to_string(),
        Priority::Low,
        Some(due(2022, 100)),
    )
}

#[test]
fn unchanged_keeps_the_old_value() {
    assert_eq!(Delta::Unchanged.apply_to(5), 5);
    assert_eq!(Delta::<String>::Unchanged.apply_to("old".to_string()), "old");
    assert_eq!(Delta::<Option<u8>>::Unchanged.apply_to(None), None);
}

#[test]
fn changed_gives_the_new_value() {
    assert_eq!(Delta::Changed(7).apply_to(5), 7);
    assert_eq!(Delta::Changed(false).apply_to(false), false);
    assert_eq!(Delta::Changed(None).apply_to(Some(1)), None);
}

#[test]
fn delta_defaults_to_unchanged() {
    assert_eq!(Delta::<bool>::default(), Delta::Unchanged);
    let delta = TaskDelta::default();
    assert_eq!(delta.complete, Delta::Unchanged);
    assert_eq!(delta.description, Delta::Unchanged);
    assert_eq!(delta.priority, Delta::Unchanged);
    assert_eq!(delta.due_date, Delta::Unchanged);
}

#[test]
fn an_unchanged_task_delta_keeps_the_task() {
    let mut task = sample();
    task.apply_delta(TaskDelta::default());
    assert_eq!(task, sample());
}

#[test]
fn a_full_task_delta_replaces_every_field_but_the_id() {
    let mut task = sample();
    task.apply_delta(TaskDelta {
        complete: Delta::Changed(true),
        description: Delta::Changed("repot the plants".to_string()),
        priority: Delta::Changed(Priority::Critical),
        due_date: Delta::Changed(Some(due(2023, 1))),
    });
    assert_eq!(
        task,
        Task::new(
            Some(TaskId::try_from(3).unwrap()),
            true,
            "repot the plants".to_string(),
            Priority::Critical,
            Some(due(2023, 1)),
        )
    );
}

#[test]
fn changed_to_none_clears_the_due_date() {
    let mut task = sample();
    task.apply_delta(TaskDelta {
        complete: Delta::Unchanged,
        description: Delta::Unchanged,
        priority: Delta::Unchanged,
        due_date: Delta::Changed(None),
    });
    assert_eq!(task.due_date, None);
    assert_eq!(task.description, "water the plants");
    assert_eq!(task.priority, Priority::Low);
    assert!(!task.complete);
}

#[test]
fn an_unchanged_due_date_stays() {
    let mut task = sample();
    task.apply_delta(TaskDelta {
        complete: Delta::Changed(true),
        description: Delta::Unchanged,
        priority: Delta::Unchanged,
        due_date: Delta::Unchanged,
    });
    assert_eq!(task.due_date, Some(due(2022, 100)));
    assert!(task.complete);
}

#[test]
fn a_changed_description_may_be_empty() {
    let mut task = sample();
    task.apply_delta(TaskDelta {
        complete: Delta::Changed(false),
        description: Delta::Changed(String::new()),
        priority: Delta::Unchanged,
        due_date: Delta::Unchanged,
    });
    assert_eq!(task.description, "");
    assert!(!task.complete);
}
