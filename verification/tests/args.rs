use yabusame::args::{
    delta_from_str, present, table_row, Accent, Add, List, Output, Remove, Subcommand, TableRow,
    Update, NO_TASKS,
};
use yabusame::site::{date_time, index};
use yabusame::text::{decimal_text, signed_decimal_text};
use yabusame::{
    Delta, Message, Priority, Response, Task, TaskDelta, TaskId, Timestamp, YabuError,
    YabuRpcError,
};

fn id(n: u32) -> TaskId {
    TaskId::try_from(n).unwrap()
}

#[test]
fn an_empty_text_leaves_the_field() {
    assert_eq!(delta_from_str::<bool>("", Err("unread".to_string())), Ok(Delta::Unchanged));
    assert_eq!(delta_from_str("", Ok(true)), Ok(Delta::Unchanged));
}

#[test]
fn a_text_sets_the_field_to_what_it_was_read_as() {
    assert_eq!(delta_from_str("true", Ok(true)), Ok(Delta::Changed(true)));
    assert_eq!(
        delta_from_str("high", Priority::from_str("high").map_err(|e| e.to_string())),
        Ok(Delta::Changed(Priority::High))
    );
    assert_eq!(
        delta_from_str("urgent", Priority::from_str("urgent").map_err(|e| e.to_string())),
        Err("unknown priority urgent".to_string())
    );
    assert_eq!(
        delta_from_str(" ", Ok(" ".to_string())),
        Ok(Delta::Changed(" ".to_string()))
    );
}

#[test]
fn adding_sends_a_new_task_without_id() {
    let due = Timestamp::new(2022, 1, 0, 0, 0, 0, 0, 0, 0).unwrap();
    let add = Add { priority: Priority::High, due_date: Some(due), description: "x".to_string() };
    assert_eq!(
        Subcommand::Add(add).into_message(),
        Message::Add(Task::new(None, false, "x".to_string(), Priority::High, Some(due)))
    );
}

#[test]
fn the_other_commands_become_their_requests() {
    assert_eq!(Subcommand::List(List {}).into_message(), Message::List);
    assert_eq!(
        Subcommand::Remove(Remove { task_id: id(4) }).into_message(),
        Message::Remove(id(4))
    );
    let update = Update {
        completed: Delta::Changed(true),
        priority: Delta::Unchanged,
        due_date: Delta::Changed(None),
        description: Delta::Changed("y".to_string()),
        task_id: id(2),
    };
    assert_eq!(
        Subcommand::Update(update).into_message(),
        Message::Update(
            id(2),
            TaskDelta {
                complete: Delta::Changed(true),
                description: Delta::Changed("y".to_string()),
                priority: Delta::Unchanged,
                due_date: Delta::Changed(None),
            }
        )
    );
}

#[test]
fn a_task_is_shown_as_a_line() {
    let due = Timestamp::new(2022, 45, 17, 5, 0, 0, 0, 0, 0).unwrap();
    let task = Task::new(Some(id(12)), true, "buy milk".to_string(), Priority::Critical, Some(due));
    assert_eq!(
        table_row(&task),
        Ok(TableRow {
            task: "12".to_string(),
            fin: "X".to_string(),
            description: "buy milk".to_string(),
            crossed_out: true,
            priority: "critical".to_string(),
            accent: Accent::BoldRed,
            due_date: "2022-02-14 5:05pm".to_string(),
        })
    );
    let task = Task::new(Some(id(1)), false, String::new(), Priority::Lowest, None);
    assert_eq!(
        table_row(&task),
        Ok(TableRow {
            task: "1".to_string(),
            fin: " ".to_string(),
            description: String::new(),
            crossed_out: false,
            priority: "lowest".to_string(),
            accent: Accent::Plain,
            due_date: String::new(),
        })
    );
}

#[test]
fn each_priority_has_its_accent() {
    let accent = |priority| {
        table_row(&Task::new(Some(id(1)), false, String::new(), priority, None)).unwrap().accent
    };
    assert_eq!(accent(Priority::Lowest), Accent::Plain);
    assert_eq!(accent(Priority::Low), Accent::Blue);
    assert_eq!(accent(Priority::Medium), Accent::DarkMagenta);
    assert_eq!(accent(Priority::High), Accent::Yellow);
    assert_eq!(accent(Priority::Critical), Accent::BoldRed);
}

#[test]
fn a_task_without_id_has_no_line() {
    let task = Task::new(None, false, String::new(), Priority::Low, None);
    assert_eq!(table_row(&task), Err(YabuError::TaskHasNoId));
}

#[test]
fn the_empty_list_has_its_own_words() {
    assert_eq!(NO_TASKS, "you have no tasks; use `yabu add [description]` to add one");
}

#[test]
fn the_index_shows_the_tasks_of_the_answer() {
    let task = Task::new(Some(id(1)), false, "x".to_string(), Priority::Low, None);
    assert_eq!(index(Response::Tasks(vec![task.clone()])), Ok(vec![task]));
    assert_eq!(index(Response::Tasks(Vec::new())), Ok(Vec::new()));
}

#[test]
fn the_index_fails_on_any_other_answer() {
    assert_eq!(index(Response::Nothing), Err(YabuError::UnexpectedNothing));
    assert_eq!(
        index(Response::Error(YabuRpcError::TaskDoesntExist(id(3)))),
        Err(YabuError::TaskDoesntExist(id(3)))
    );
    assert_eq!(
        index(Response::Error(YabuRpcError::UnknownPriority("x".to_string()))),
        Err(YabuError::UnknownPriority("x".to_string()))
    );
    assert_eq!(
        YabuError::from_rpc(YabuRpcError::TaskDoesntExist(id(3))).to_string(),
        YabuRpcError::TaskDoesntExist(id(3)).to_string()
    );
}

#[test]
fn the_page_shows_a_due_date_as_text() {
    let value: serde_json::Value = serde_json::from_str("[2022,45,17,5,59,123,-7,-30,0]").unwrap();
    assert_eq!(date_time(&value), Ok(serde_json::Value::String("2022-02-14 5:05pm".to_string())));
    let value: serde_json::Value = serde_json::from_str("[2022,366,0,0,0,0,0,0,0]").unwrap();
    assert_eq!(date_time(&value), Err(YabuError::MalformedMessage));
    assert_eq!(date_time(&serde_json::Value::Null), Err(YabuError::MalformedMessage));
}

#[test]
fn numbers_are_written_in_decimal_digits() {
    for n in [0u64, 1, 9, 10, 11, 99, 100, 12_345, 4_294_967_295, u64::MAX] {
        assert_eq!(decimal_text(n), n.to_string());
    }
    for n in [0i64, -1, 1, -10, 1_546_300_800, i64::MAX, i64::MIN] {
        assert_eq!(signed_decimal_text(n), n.to_string());
    }
    assert_eq!(id(42).to_string(), "42");
    assert_eq!(id(u32::MAX).to_string(), "4294967295");
}

#[test]
fn errors_say_what_went_wrong() {
    assert_eq!(YabuRpcError::TaskDoesntExist(id(7)).to_string(), "task 7 does not exist");
    assert_eq!(
        YabuRpcError::UnknownPriority("urgent".to_string()).to_string(),
        "unknown priority urgent"
    );
    assert_eq!(YabuError::TaskIdZero.to_string(), "task id cannot be 0");
    assert_eq!(
        YabuError::TaskHasNoId.to_string(),
        "tried to get the id of a task that didn't have one"
    );
    assert_eq!(YabuError::TaskDoesntExist(id(7)).to_string(), "task 7 does not exist");
    assert_eq!(YabuError::UnknownPriority("x".to_string()).to_string(), "unknown priority x");
    assert_eq!(YabuError::UnknownPriorityCode(9).to_string(), "can't convert 9 to a `Priority`");
    assert_eq!(YabuError::DueDateOutOfRange(-5).to_string(), "due date -5 is out of range");
    assert_eq!(
        YabuError::UrlHasNoHost("yabu:x".to_string()).to_string(),
        "server URL yabu:x has no host"
    );
    assert_eq!(
        YabuError::DnsLookupFailed("yabu://x".to_string()).to_string(),
        "no address found for yabu://x"
    );
    assert_eq!(
        YabuError::PayloadTooLarge(65536).to_string(),
        "payload of 65536 bytes does not fit a frame"
    );
    assert_eq!(YabuError::ConnectionClosed.to_string(), "connection closed");
    assert_eq!(YabuError::Truncated.to_string(), "stream ended inside a frame");
    assert_eq!(YabuError::MalformedMessage.to_string(), "malformed message");
    assert_eq!(YabuError::SerializationError.to_string(), "error while serializing a value");
    assert_eq!(YabuError::OutOfIds.to_string(), "no task id is left");
    assert_eq!(YabuError::IoError.to_string(), "io error");
    assert_eq!(YabuError::StorageError.to_string(), "storage error");
    assert_eq!(YabuError::UnexpectedEvent.to_string(), "unexpected event");
    assert_eq!(YabuError::RequestPending.to_string(), "a request is pending");
    assert_eq!(YabuError::FormatError.to_string(), "could not format the due date");
    assert_eq!(
        YabuError::UnexpectedNothing.to_string(),
        "got `Response::Nothing` from the server"
    );
}

#[test]
fn an_answer_is_shown_by_its_kind() {
    assert_eq!(present(Response::Nothing), Ok(Output::Silent));
    assert_eq!(present(Response::Tasks(Vec::new())), Ok(Output::NoTasks));
    let one = Task::new(Some(id(1)), false, "one".to_string(), Priority::Low, None);
    let two = Task::new(Some(id(2)), true, "two".to_string(), Priority::High, None);
    assert_eq!(
        present(Response::Tasks(vec![one.clone(), two.clone()])),
        Ok(Output::Table(vec![table_row(&one).unwrap(), table_row(&two).unwrap()]))
    );
    assert_eq!(
        present(Response::Error(YabuRpcError::TaskDoesntExist(id(5)))),
        Err(YabuError::TaskDoesntExist(id(5)))
    );
}

#[test]
fn a_list_with_a_task_without_id_is_not_shown() {
    let one = Task::new(Some(id(1)), false, "one".to_string(), Priority::Low, None);
    let bare = Task::new(None, false, "bare".to_string(), Priority::Low, None);
    assert_eq!(present(Response::Tasks(vec![one, bare])), Err(YabuError::TaskHasNoId));
}
