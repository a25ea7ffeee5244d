use yabusame::row::{TaskRow, TaskValues};
use yabusame::{Database, Priority, Task, TaskId, Timestamp, YabuError};

#[test]
fn a_task_id_is_not_zero() {
    assert_eq!(TaskId::try_from(0), Err(YabuError::TaskIdZero));
    assert_eq!(TaskId::try_from(1).unwrap().get(), 1);
    assert_eq!(TaskId::try_from(u32::MAX).unwrap().get(), u32::MAX);
}

#[test]
fn a_task_id_is_read_from_decimal_digits() {
    assert_eq!(TaskId::from_str("42").map(|id| id.get()), Some(42));
    assert_eq!(TaskId::from_str("0"), None);
    assert_eq!(TaskId::from_str(""), None);
    assert_eq!(TaskId::from_str("-1"), None);
    assert_eq!(TaskId::from_str("4294967296"), None);
    assert_eq!(TaskId::from_str("seven"), None);
}

#[test]
fn numbers_are_read_as_the_standard_library_reads_them() {
    for text in [
        "", "0", "7", "+7", "-7", "007", "+", "++1", "+-1", "1+", " 1", "1 ", "4294967295",
        "4294967296", "42949672950", "99999999999999999999999", "0x10", "1_000", "１２", "12a",
        "+0", "-0", "٣", "1.0", "+4294967295",
    ] {
        assert_eq!(yabusame::text::parse_u32(text), text.parse::<u32>().ok(), "{text:?}");
        let id = text.parse::<std::num::NonZeroU32>().ok().map(|id| id.get());
        assert_eq!(TaskId::from_str(text).map(|id| id.get()), id, "{text:?}");
    }
    for n in [1u32, 9, 10, 99, 100, 65_535, u32::MAX] {
        assert_eq!(yabusame::text::parse_u32(&n.to_string()), Some(n));
        assert_eq!(TaskId::from_str(&TaskId::try_from(n).unwrap().to_string()).unwrap().get(), n);
    }
}

#[test]
fn task_ids_are_ordered_by_their_number() {
    assert!(TaskId::try_from(1).unwrap() < TaskId::try_from(2).unwrap());
}

#[test]
fn the_default_priority_is_medium() {
    assert_eq!(Priority::default(), Priority::Medium);
}

#[test]
fn priorities_are_ordered_as_declared() {
    assert!(Priority::Lowest < Priority::Low);
    assert!(Priority::Low < Priority::Medium);
    assert!(Priority::Medium < Priority::High);
    assert!(Priority::High < Priority::Critical);
    assert_eq!(Priority::Lowest.to_u32(), 0);
    assert_eq!(Priority::Critical.to_u32(), 4);
}

#[test]
fn a_priority_is_read_by_its_name_in_any_case() {
    assert_eq!(Priority::from_str("lowest"), Ok(Priority::Lowest));
    assert_eq!(Priority::from_str("Low"), Ok(Priority::Low));
    assert_eq!(Priority::from_str("MEDIUM"), Ok(Priority::Medium));
    assert_eq!(Priority::from_str("hIgH"), Ok(Priority::High));
    assert_eq!(Priority::from_str("critical"), Ok(Priority::Critical));
}

#[test]
fn an_unknown_priority_is_reported_as_written() {
    assert_eq!(
        Priority::from_str("Urgent"),
        Err(YabuError::UnknownPriority("Urgent".to_string()))
    );
    assert_eq!(Priority::from_str(""), Err(YabuError::UnknownPriority(String::new())));
    assert_eq!(
        Priority::from_str(" low"),
        Err(YabuError::UnknownPriority(" low".to_string()))
    );
}

#[test]
fn a_priority_round_trips_through_its_name_and_number() {
    for priority in [
        Priority::Lowest,
        Priority::Low,
        Priority::Medium,
        Priority::High,
        Priority::Critical,
    ] {
        assert_eq!(Priority::from_str(priority.name()), Ok(priority));
        assert_eq!(Priority::from_u32(priority.to_u32()), Some(priority));
    }
    assert_eq!(Priority::from_u32(5), None);
    assert_eq!(Priority::Medium.name(), "medium");
    assert_eq!(Priority::Medium.wire_name(), "Medium");
}

#[test]
fn a_task_without_id_reports_it() {
    let task = Task::new(None, false, "x".to_string(), Priority::Low, None);
    assert_eq!(task.id_or_error(), Err(YabuError::TaskHasNoId));
    let id = TaskId::try_from(9).unwrap();
    let task = Task::new(Some(id), false, "x".to_string(), Priority::Low, None);
    assert_eq!(task.id_or_error(), Ok(id));
}

#[test]
fn a_timestamp_keeps_its_parts() {
    let t = Timestamp::new(2024, 366, 23, 59, 59, 999_999_999, -5, -30, 0).unwrap();
    assert_eq!(t.parts(), (2024, 366, 23, 59, 59, 999_999_999, -5, -30, 0));
}

#[test]
fn dates_that_do_not_exist_are_refused() {
    assert_eq!(Timestamp::new(2023, 366, 0, 0, 0, 0, 0, 0, 0), None);
    assert_eq!(Timestamp::new(1900, 366, 0, 0, 0, 0, 0, 0, 0), None);
    assert!(Timestamp::new(2000, 366, 0, 0, 0, 0, 0, 0, 0).is_some());
    assert_eq!(Timestamp::new(2023, 0, 0, 0, 0, 0, 0, 0, 0), None);
    assert_eq!(Timestamp::new(10000, 1, 0, 0, 0, 0, 0, 0, 0), None);
    assert_eq!(Timestamp::new(-10000, 1, 0, 0, 0, 0, 0, 0, 0), None);
    assert!(Timestamp::new(-9999, 1, 0, 0, 0, 0, 0, 0, 0).is_some());
    assert!(Timestamp::new(9999, 365, 0, 0, 0, 0, 0, 0, 0).is_some());
}

#[test]
fn times_that_do_not_exist_are_refused() {
    assert_eq!(Timestamp::new(2023, 1, 24, 0, 0, 0, 0, 0, 0), None);
    assert_eq!(Timestamp::new(2023, 1, 0, 60, 0, 0, 0, 0, 0), None);
    assert_eq!(Timestamp::new(2023, 1, 0, 0, 60, 0, 0, 0, 0), None);
    assert_eq!(Timestamp::new(2023, 1, 0, 0, 0, 1_000_000_000, 0, 0, 0), None);
}

#[test]
fn offsets_out_of_range_are_refused() {
    assert_eq!(Timestamp::new(2023, 1, 0, 0, 0, 0, 26, 0, 0), None);
    assert_eq!(Timestamp::new(2023, 1, 0, 0, 0, 0, -26, 0, 0), None);
    assert_eq!(Timestamp::new(2023, 1, 0, 0, 0, 0, 0, 60, 0), None);
    assert_eq!(Timestamp::new(2023, 1, 0, 0, 0, 0, 0, 0, -60), None);
    assert!(Timestamp::new(2023, 1, 0, 0, 0, 0, 25, 59, 59).is_some());
}

#[test]
fn the_parts_of_an_offset_take_the_sign_of_the_larger() {
    let t = Timestamp::new(2023, 1, 0, 0, 0, 0, 1, -2, -3).unwrap();
    assert_eq!(t.parts(), (2023, 1, 0, 0, 0, 0, 1, 2, 3));
    let t = Timestamp::new(2023, 1, 0, 0, 0, 0, -1, 2, 3).unwrap();
    assert_eq!(t.parts(), (2023, 1, 0, 0, 0, 0, -1, -2, -3));
    let t = Timestamp::new(2023, 1, 0, 0, 0, 0, 0, -2, 3).unwrap();
    assert_eq!(t.parts(), (2023, 1, 0, 0, 0, 0, 0, -2, -3));
    let t = Timestamp::new(2023, 1, 0, 0, 0, 0, 0, 0, -3).unwrap();
    assert_eq!(t.parts(), (2023, 1, 0, 0, 0, 0, 0, 0, -3));
}

#[test]
fn timestamps_agree_with_the_calendar_on_every_year() {
    for year in -10_001..=10_001 {
        for ordinal in [0u16, 1, 59, 60, 365, 366, 367] {
            let ours = Timestamp::new(year, ordinal, 12, 0, 0, 0, 0, 0, 0).is_some();
            let theirs = time::Date::from_ordinal_date(year, ordinal).is_ok();
            assert_eq!(ours, theirs, "year {year}, day {ordinal}");
        }
    }
}

#[test]
fn timestamps_agree_with_the_calendar_on_every_offset() {
    for hours in i8::MIN..=i8::MAX {
        for minutes in [-128i8, -60, -59, -1, 0, 1, 59, 60, 127] {
            for seconds in [-128i8, -60, -59, -1, 0, 1, 59, 60, 127] {
                let ours = Timestamp::new(2020, 1, 0, 0, 0, 0, hours, minutes, seconds)
                    .map(|t| t.parts())
                    .map(|p| (p.6, p.7, p.8));
                let theirs = time::UtcOffset::from_hms(hours, minutes, seconds)
                    .ok()
                    .map(|offset| offset.as_hms());
                assert_eq!(ours, theirs);
            }
        }
    }
}

#[test]
fn unix_seconds_of_the_epoch_are_zero() {
    assert_eq!(Timestamp::new(1970, 1, 0, 0, 0, 0, 0, 0, 0).unwrap().unix_timestamp(), 0);
    assert_eq!(
        Timestamp::new(1970, 1, 0, 0, 0, 0, -1, 0, 0).unwrap().unix_timestamp(),
        3_600
    );
    assert_eq!(
        Timestamp::new(2019, 1, 0, 0, 0, 0, 0, 0, 0).unwrap().unix_timestamp(),
        1_546_300_800
    );
}

#[test]
fn a_count_of_seconds_gives_a_utc_timestamp() {
    assert_eq!(
        Timestamp::from_unix_timestamp(1_546_300_800).map(|t| t.parts()),
        Some((2019, 1, 0, 0, 0, 0, 0, 0, 0))
    );
    assert_eq!(
        Timestamp::from_unix_timestamp(-1).map(|t| t.parts()),
        Some((1969, 365, 23, 59, 59, 0, 0, 0, 0))
    );
    assert_eq!(Timestamp::from_unix_timestamp(i64::MAX), None);
    assert_eq!(Timestamp::from_unix_timestamp(i64::MIN), None);
}

#[test]
fn a_task_is_stored_as_its_columns() {
    let due = Timestamp::new(2019, 1, 1, 0, 0, 5, 1, 0, 0).unwrap();
    let task = Task::new(None, true, "pay rent".to_string(), Priority::High, Some(due));
    let values = task.values();
    assert_eq!(
        values,
        TaskValues {
            complete: true,
            description: "pay rent".to_string(),
            priority: 3,
            due_date: Some(1_546_300_800),
        }
    );
}

#[test]
fn a_row_is_read_as_a_task() {
    let row = TaskRow {
        task_id: 4,
        values: TaskValues {
            complete: false,
            description: "pay rent".to_string(),
            priority: 1,
            due_date: Some(0),
        },
    };
    assert_eq!(
        Database::task_from_row(row),
        Ok(Task::new(
            Some(TaskId::try_from(4).unwrap()),
            false,
            "pay rent".to_string(),
            Priority::Low,
            Some(Timestamp::new(1970, 1, 0, 0, 0, 0, 0, 0, 0).unwrap()),
        ))
    );
}

#[test]
fn a_bad_row_is_refused() {
    let values = |priority: u32, due_date: Option<i64>| TaskValues {
        complete: false,
        description: String::new(),
        priority,
        due_date,
    };
    assert_eq!(
        Database::task_from_row(TaskRow { task_id: 0, values: values(9, Some(i64::MAX)) }),
        Err(YabuError::TaskIdZero)
    );
    assert_eq!(
        Database::task_from_row(TaskRow { task_id: 1, values: values(9, Some(i64::MAX)) }),
        Err(YabuError::UnknownPriorityCode(9))
    );
    assert_eq!(
        Database::task_from_row(TaskRow { task_id: 1, values: values(2, Some(i64::MAX)) }),
        Err(YabuError::DueDateOutOfRange(i64::MAX))
    );
    assert!(Database::task_from_row(TaskRow { task_id: 1, values: values(2, None) }).is_ok());
}

#[test]
fn every_timestamp_has_its_count_of_seconds() {
    for (year, ordinal) in [(-9999, 1), (9999, 365), (2024, 366), (1, 1), (0, 366)] {
        for (h, m, s) in [(25, 59, 59), (-25, -59, -59), (0, 0, 0)] {
            let t = Timestamp::new(year, ordinal, 23, 59, 59, 999_999_999, h, m, s).unwrap();
            let date = time::Date::from_ordinal_date(year, ordinal).unwrap();
            let theirs = date
                .with_hms_nano(23, 59, 59, 999_999_999)
                .unwrap()
                .assume_offset(time::UtcOffset::from_hms(h, m, s).unwrap());
            assert_eq!(t.unix_timestamp(), theirs.unix_timestamp());
        }
    }
    let due = Timestamp::new(-9999, 1, 0, 0, 0, 0, 25, 59, 59).unwrap();
    let task = Task::new(None, false, String::new(), Priority::Low, Some(due));
    assert!(task.values().due_date.is_some());
}
