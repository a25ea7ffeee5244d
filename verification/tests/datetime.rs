use yabusame::datetime::{
    delta_time_from_str, is_whitespace, offset_date_time_from_str, offset_from_seconds, split,
    trim, DATE_TIME_FORMAT,
};
use yabusame::{Delta, Timestamp};

fn due(s: &str) -> Result<(i32, u16, u8, u8, u8, u32, i8, i8, i8), String> {
    offset_date_time_from_str(s, Ok(3600)).map(|t| t.parts())
}

#[test]
fn a_date_alone_means_midnight() {
    assert_eq!(due("2022-03-04"), Ok((2022, 63, 0, 0, 0, 0, 1, 0, 0)));
    assert_eq!(due("2024-12-31"), Ok((2024, 366, 0, 0, 0, 0, 1, 0, 0)));
}

#[test]
fn a_time_follows_white_space() {
    assert_eq!(due("2022-03-04 5:30am"), Ok((2022, 63, 5, 30, 0, 0, 1, 0, 0)));
    assert_eq!(due("2022-03-04   17:30PM  "), Ok((2022, 63, 17, 30, 0, 0, 1, 0, 0)));
    assert_eq!(due("2022-03-04\t9:05am"), Ok((2022, 63, 9, 5, 0, 0, 1, 0, 0)));
}

#[test]
fn the_offset_is_that_of_the_user() {
    let t = offset_date_time_from_str("2022-03-04", Ok(-(5 * 3600 + 30 * 60))).unwrap();
    assert_eq!(t.parts(), (2022, 63, 0, 0, 0, 0, -5, -30, 0));
    let t = offset_date_time_from_str("2022-03-04", Ok(0)).unwrap();
    assert_eq!(t.parts(), (2022, 63, 0, 0, 0, 0, 0, 0, 0));
}

#[test]
fn a_due_date_agrees_with_the_calendar() {
    let format = time::format_description::parse_borrowed::<1>("[year]-[month]-[day]").unwrap();
    let date = time::Date::parse("2022-03-04", &format).unwrap();
    let theirs = date.midnight().assume_offset(time::UtcOffset::from_whole_seconds(3600).unwrap());
    let ours = offset_date_time_from_str("2022-03-04", Ok(3600)).unwrap();
    assert_eq!(ours.unix_timestamp(), theirs.unix_timestamp());
}

#[test]
fn the_first_error_is_reported() {
    let date_error = due("tomorrow").unwrap_err();
    assert_eq!(date_error, "the 'year' component could not be parsed");
    assert_eq!(due("tomorrow noon"), Err(date_error.clone()));
    assert_eq!(
        offset_date_time_from_str("tomorrow", Err("no time zone".to_string())),
        Err(date_error)
    );
    let time_error = due("2022-03-04 noon").unwrap_err();
    assert_eq!(time_error, "the 'hour' component could not be parsed");
    assert_eq!(
        offset_date_time_from_str("2022-03-04 noon", Err("no time zone".to_string())),
        Err(time_error)
    );
    assert_eq!(
        offset_date_time_from_str("2022-03-04", Err("no time zone".to_string())),
        Err("no time zone".to_string())
    );
    assert_eq!(
        offset_date_time_from_str("2022-03-04", Ok(93_600)),
        Err("date, time or offset out of range".to_string())
    );
}

#[test]
fn a_date_that_does_not_exist_is_refused() {
    assert!(due("2022-02-30").is_err());
    assert!(due("2022-3-4").is_err());
    assert!(due("").is_err());
}

#[test]
fn a_capital_t_splits_but_stays_with_the_time() {
    assert_eq!(
        split("2022-03-04T5:30pm"),
        ("2022-03-04".to_string(), Some("T5:30pm".to_string()))
    );
    assert!(due("2022-03-04T5:30pm").is_err());
}

#[test]
fn a_text_is_split_at_its_first_white_space() {
    assert_eq!(split("a b c"), ("a".to_string(), Some("b c".to_string())));
    assert_eq!(split("date  T  "), ("date".to_string(), Some("T".to_string())));
    assert_eq!(split(" late"), (String::new(), Some("late".to_string())));
    assert_eq!(split("alone"), ("alone".to_string(), None));
    assert_eq!(split(""), (String::new(), None));
    assert_eq!(split("only "), ("only".to_string(), Some(String::new())));
    assert_eq!(split("aTb c"), ("aTb".to_string(), Some("c".to_string())));
    assert_eq!(split("\u{3000}wide"), (String::new(), Some("wide".to_string())));
}

#[test]
fn trimming_agrees_with_the_standard_library() {
    for text in ["", " ", "a", " a", "a ", " \t a b \n", "\u{3000}x\u{a0}", "  ", "a\u{2003}"] {
        assert_eq!(trim(text), text.trim(), "{text:?}");
    }
}

#[test]
fn offsets_agree_with_the_calendar() {
    for seconds in -100_000..=100_000 {
        let theirs = time::UtcOffset::from_whole_seconds(seconds).ok().map(|o| o.as_hms());
        assert_eq!(offset_from_seconds(seconds), theirs, "{seconds}");
    }
    assert_eq!(offset_from_seconds(3_723), Some((1, 2, 3)));
    assert_eq!(offset_from_seconds(-3_723), Some((-1, -2, -3)));
    assert_eq!(offset_from_seconds(i32::MIN), None);
    assert_eq!(offset_from_seconds(i32::MAX), None);
}

#[test]
fn a_due_date_is_shown_on_a_twelve_hour_clock() {
    assert_eq!(
        DATE_TIME_FORMAT,
        "[year]-[month]-[day] [hour padding:none repr:12]:[minute][period case:lower]"
    );
    let t = Timestamp::new(2022, 45, 17, 5, 59, 123, -7, -30, 0).unwrap();
    assert_eq!(t.format(), Some("2022-02-14 5:05pm".to_string()));
    let t = Timestamp::new(2022, 1, 0, 0, 0, 0, 0, 0, 0).unwrap();
    assert_eq!(t.format(), Some("2022-01-01 12:00am".to_string()));
}

#[test]
fn an_empty_text_leaves_the_due_date() {
    assert_eq!(delta_time_from_str("", Err("unread".to_string())), Ok(Delta::Unchanged));
}

#[test]
fn a_dash_or_none_takes_the_due_date_away() {
    assert_eq!(delta_time_from_str("-", Err("unread".to_string())), Ok(Delta::Changed(None)));
    assert_eq!(delta_time_from_str("none", Err("unread".to_string())), Ok(Delta::Changed(None)));
}

#[test]
fn any_other_text_sets_the_due_date() {
    let t = Timestamp::new(2022, 1, 0, 0, 0, 0, 0, 0, 0).unwrap();
    assert_eq!(delta_time_from_str("2022-01-01", Ok(t)), Ok(Delta::Changed(Some(t))));
    assert_eq!(
        delta_time_from_str("None", Err("unread".to_string())),
        Err("unread".to_string())
    );
}

#[test]
fn white_space_is_what_the_standard_library_takes_for_it() {
    for code in 0..=0x10ffffu32 {
        if let Some(c) = char::from_u32(code) {
            assert_eq!(is_whitespace(c), c.is_whitespace(), "U+{code:04X}");
        }
    }
}
