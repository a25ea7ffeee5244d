//! Due dates as users write and read them.

use crate::delta::Delta;
use crate::timestamp::{
    display_text, format_timestamp, timestamp_from_parts, Timestamp, TimestampView,
};
use vstd::prelude::*;
use vstd::string::*;

verus! {

/// How a due date is shown: date, then the hour of a twelve-hour clock without
/// padding, the minute, and `am` or `pm`.
pub const DATE_TIME_FORMAT: &'static str =
    "[year]-[month]-[day] [hour padding:none repr:12]:[minute][period case:lower]";

/// How users write the date of a due date.
pub const DATE_INPUT_FORMAT: &'static str = "[year]-[month]-[day]";

/// How users write the time of a due date.
pub const TIME_INPUT_FORMAT: &'static str =
    "[hour padding:none]:[minute][period case_sensitive:false]";

/// Whether a character is white space: one of the characters with the
/// Unicode property `White_Space`, as `char::is_whitespace` has it.
pub open spec fn white_space(c: char) -> bool {
    ||| '\u{9}' <= c <= '\u{d}'
    ||| c == ' '
    ||| c == '\u{85}'
    ||| c == '\u{a0}'
    ||| c == '\u{1680}'
    ||| '\u{2000}' <= c <= '\u{200a}'
    ||| c == '\u{2028}'
    ||| c == '\u{2029}'
    ||| c == '\u{202f}'
    ||| c == '\u{205f}'
    ||| c == '\u{3000}'
}

/// What `time::Date::parse` makes of a text under a format description: the
/// year and the day of the year, or the text of the error.
pub uninterp spec fn date_parse(text: Seq<char>, format: Seq<char>) -> Result<
    (i32, u16),
    Seq<char>,
>;

/// What `time::Time::parse` makes of a text under a format description:
/// hour, minute, second and nanosecond, or the text of the error.
pub uninterp spec fn time_parse(text: Seq<char>, format: Seq<char>) -> Result<
    (u8, u8, u8, u32),
    Seq<char>,
>;

/// Whether a character is white space.
pub fn is_whitespace(c: char) -> (r: bool)
    ensures
        r == white_space(c),
{
    ('\u{9}' <= c && c <= '\u{d}') || c == ' ' || c == '\u{85}' || c == '\u{a0}' || c
        == '\u{1680}' || ('\u{2000}' <= c && c <= '\u{200a}') || c == '\u{2028}' || c
        == '\u{2029}' || c == '\u{202f}' || c == '\u{205f}' || c == '\u{3000}'
}

/// `time::Date::parse` with the format description that
/// `time::format_description::parse_borrowed` reads from `format` in the
/// first version of its syntax, read back with `year` and `ordinal`. An
/// error of either call is handed on as its text.
#[verifier::external_body]
fn parse_date(text: &str, format: &str) -> (r: Result<(i32, u16), String>)
    ensures
        match r {
            Ok(date) => date_parse(text@, format@) == Ok::<(i32, u16), Seq<char>>(date),
            Err(e) => date_parse(text@, format@) == Err::<(i32, u16), Seq<char>>(e@),
        },
{
    let format = time::format_description::parse_borrowed::<1>(format);
    let format = format.map_err(|e| e.to_string())?;
    let date = time::Date::parse(text, &format).map_err(|e| e.to_string())?;
    Ok((date.year(), date.ordinal()))
}

/// `time::Time::parse` with the format description that
/// `time::format_description::parse_borrowed` reads from `format` in the
/// first version of its syntax, read back with `as_hms_nano`. An error of
/// either call is handed on as its text.
#[verifier::external_body]
fn parse_time(text: &str, format: &str) -> (r: Result<(u8, u8, u8, u32), String>)
    ensures
        match r {
            Ok(time) => time_parse(text@, format@) == Ok::<(u8, u8, u8, u32), Seq<char>>(time),
            Err(e) => time_parse(text@, format@) == Err::<(u8, u8, u8, u32), Seq<char>>(e@),
        },
{
    let format = time::format_description::parse_borrowed::<1>(format);
    let format = format.map_err(|e| e.to_string())?;
    let time = time::Time::parse(text, &format).map_err(|e| e.to_string())?;
    Ok(time.as_hms_nano())
}

impl Timestamp {
    /// The timestamp as users read it, under [`DATE_TIME_FORMAT`].
    pub fn format(&self) -> (r: Option<String>)
        ensures
            match r {
                Some(text) => display_text(self@, DATE_TIME_FORMAT@) == Some(text@),
                None => display_text(self@, DATE_TIME_FORMAT@) is None,
            },
    {
        format_timestamp(self, DATE_TIME_FORMAT)
    }
}

/// The kinds of character that a due date is split and trimmed at.
#[derive(Clone, Copy, Debug, PartialEq, Eq)]
pub enum CharKind {
    /// White space.
    Space,
    /// Anything but white space.
    Ink,
    /// The capital letter T.
    CapitalT,
}

/// Whether a character is of a kind.
pub open spec fn is_of(c: char, kind: CharKind) -> bool {
    match kind {
        CharKind::Space => white_space(c),
        CharKind::Ink => !white_space(c),
        CharKind::CapitalT => c == 'T',
    }
}

/// Whether `at` is the place of the first character of a kind.
pub open spec fn is_first(text: Seq<char>, kind: CharKind, at: int) -> bool {
    &&& 0 <= at < text.len()
    &&& is_of(text[at], kind)
    &&& forall|j: int| 0 <= j < at ==> !is_of(#[trigger] text[j], kind)
}

/// Whether `at` is the place of the last character of a kind.
pub open spec fn is_last(text: Seq<char>, kind: CharKind, at: int) -> bool {
    &&& 0 <= at < text.len()
    &&& is_of(text[at], kind)
    &&& forall|j: int| at < j < text.len() ==> !is_of(#[trigger] text[j], kind)
}

/// The place of the first character of a kind, if there is one.
pub open spec fn first_of(text: Seq<char>, kind: CharKind) -> Option<int> {
    if exists|at: int| is_first(text, kind, at) {
        Some(choose|at: int| is_first(text, kind, at))
    } else {
        None
    }
}

/// The place of the last character of a kind, if there is one.
pub open spec fn last_of(text: Seq<char>, kind: CharKind) -> Option<int> {
    if exists|at: int| is_last(text, kind, at) {
        Some(choose|at: int| is_last(text, kind, at))
    } else {
        None
    }
}

/// A text without the white space at its ends.
pub open spec fn trimmed(text: Seq<char>) -> Seq<char> {
    match (first_of(text, CharKind::Ink), last_of(text, CharKind::Ink)) {
        (Some(from), Some(to)) => text.subrange(from, to + 1),
        _ => Seq::<char>::empty(),
    }
}

/// Where a due date is split into date and time: at its first white space,
/// or else at its first capital T.
pub open spec fn split_point(text: Seq<char>) -> Option<int> {
    match first_of(text, CharKind::Space) {
        Some(at) => Some(at),
        None => first_of(text, CharKind::CapitalT),
    }
}

/// The date and the time of a due date as written. The time starts at the
/// character where the text is split and loses the white space at its ends;
/// a text that is not split has no time.
pub open spec fn split_date_time(text: Seq<char>) -> (Seq<char>, Option<Seq<char>>) {
    match split_point(text) {
        Some(at) => (text.subrange(0, at), Some(trimmed(text.subrange(at, text.len() as int)))),
        None => (text, None),
    }
}

/// There is at most one first character of a kind.
proof fn lemma_first_is_unique(text: Seq<char>, kind: CharKind, at: int)
    requires
        is_first(text, kind, at),
    ensures
        first_of(text, kind) == Some(at),
{
    let other = choose|other: int| is_first(text, kind, other);
    if other < at {
        assert(!is_of(text[other], kind));
    }
    if at < other {
        assert(!is_of(text[at], kind));
    }
}

/// There is at most one last character of a kind.
proof fn lemma_last_is_unique(text: Seq<char>, kind: CharKind, at: int)
    requires
        is_last(text, kind, at),
    ensures
        last_of(text, kind) == Some(at),
{
    let other = choose|other: int| is_last(text, kind, other);
    if other < at {
        assert(!is_of(text[at], kind));
    }
    if at < other {
        assert(!is_of(text[other], kind));
    }
}

/// Whether a character is of a kind.
fn has_kind(c: char, kind: CharKind) -> (r: bool)
    ensures
        r == is_of(c, kind),
{
    match kind {
        CharKind::Space => is_whitespace(c),
        CharKind::Ink => !is_whitespace(c),
        CharKind::CapitalT => c == 'T',
    }
}

/// The place of the first character of a kind.
fn find_first(text: &str, kind: CharKind) -> (r: Option<usize>)
    ensures
        match r {
            Some(at) => first_of(text@, kind) == Some(at as int) && at < text@.len(),
            None => first_of(text@, kind) is None,
        },
{
    let length = text.unicode_len();
    let mut i: usize = 0;
    while i < length
        invariant
            length == text@.len(),
            i <= length,
            forall|j: int| 0 <= j < i ==> !is_of(#[trigger] text@[j], kind),
        decreases length - i,
    {
        if has_kind(text.get_char(i), kind) {
            proof {
                lemma_first_is_unique(text@, kind, i as int);
            }
            return Some(i);
        }
        i += 1;
    }
    None
}

/// The place of the last character of a kind.
fn find_last(text: &str, kind: CharKind) -> (r: Option<usize>)
    ensures
        match r {
            Some(at) => last_of(text@, kind) == Some(at as int) && at < text@.len(),
            None => last_of(text@, kind) is None,
        },
{
    let length = text.unicode_len();
    let mut i: usize = length;
    while i > 0
        invariant
            length == text@.len(),
            i <= length,
            forall|j: int| i <= j < length ==> !is_of(#[trigger] text@[j], kind),
        decreases i,
    {
        i -= 1;
        if has_kind(text.get_char(i), kind) {
            proof {
                lemma_last_is_unique(text@, kind, i as int);
            }
            return Some(i);
        }
    }
    None
}

/// A text without the white space at its ends.
pub fn trim(text: &str) -> (r: String)
    ensures
        r@ == trimmed(text@),
{
    let length = text.unicode_len();
    match (find_first(text, CharKind::Ink), find_last(text, CharKind::Ink)) {
        (Some(from), Some(to)) => {
            assert(to < length);
            proof {
                if to < from {
                    assert(!is_of(text@[to as int], CharKind::Ink));
                }
            }
            String::from_str(text.substring_char(from, to + 1))
        },
        _ => String::new(),
    }
}

/// Splits a due date as written into its date and its time.
pub fn split(text: &str) -> (r: (String, Option<String>))
    ensures
        r.0@ == split_date_time(text@).0,
        match r.1 {
            Some(time) => split_date_time(text@).1 == Some(time@),
            None => split_date_time(text@).1 is None,
        },
{
    let at = match find_first(text, CharKind::Space) {
        Some(at) => Some(at),
        None => find_first(text, CharKind::CapitalT),
    };
    match at {
        Some(at) => {
            let length = text.unicode_len();
            let date = String::from_str(text.substring_char(0, at));
            let time = trim(text.substring_char(at, length));
            (date, Some(time))
        },
        None => (String::from_str(text), None),
    }
}

/// The offset of a whole number of seconds, as hours, minutes and seconds of
/// one sign. Offsets reach up to 25 hours, 59 minutes and 59 seconds either
/// way.
pub open spec fn offset_of_seconds(seconds: i32) -> Option<(i8, i8, i8)> {
    if 0 <= seconds <= 93599 {
        Some(((seconds / 3600) as i8, ((seconds % 3600) / 60) as i8, (seconds % 60) as i8))
    } else if -93599 <= seconds < 0 {
        Some(
            (
                (-((-seconds) / 3600)) as i8,
                (-(((-seconds) % 3600) / 60)) as i8,
                (-((-seconds) % 60)) as i8,
            ),
        )
    } else {
        None
    }
}

/// The offset of a whole number of seconds.
pub fn offset_from_seconds(seconds: i32) -> (r: Option<(i8, i8, i8)>)
    ensures
        r == offset_of_seconds(seconds),
{
    if 0 <= seconds && seconds <= 93599 {
        Some(((seconds / 3600) as i8, ((seconds % 3600) / 60) as i8, (seconds % 60) as i8))
    } else if -93599 <= seconds && seconds < 0 {
        let size: i32 = -seconds;
        let hours: i32 = size / 3600;
        let minutes: i32 = (size % 3600) / 60;
        let rest: i32 = size % 60;
        Some(((-hours) as i8, (-minutes) as i8, (-rest) as i8))
    } else {
        None
    }
}

/// What is said of a date or a time that the calendar does not have.
pub open spec fn out_of_range_message() -> Seq<char> {
    "date, time or offset out of range"@
}

/// The due date that a user's text names, in the given offset from UTC: a
/// date as `year-month-day`, and behind white space a time as
/// `hour:minute` with `am` or `pm`. A text without a time means midnight.
/// The first of the date, the time and the offset that is in error gives the
/// error.
pub open spec fn spec_offset_date_time(
    text: Seq<char>,
    local_offset: Result<i32, Seq<char>>,
) -> Result<TimestampView, Seq<char>> {
    let (date_text, time_text) = split_date_time(text);
    let time = match time_text {
        Some(time_text) => time_parse(time_text, TIME_INPUT_FORMAT@),
        None => Ok((0u8, 0u8, 0u8, 0u32)),
    };
    match (date_parse(date_text, DATE_INPUT_FORMAT@), time, local_offset) {
        (Err(e), _, _) => Err(e),
        (Ok(_), Err(e), _) => Err(e),
        (Ok(_), Ok(_), Err(e)) => Err(e),
        (Ok((year, ordinal)), Ok((hour, minute, second, nanosecond)), Ok(seconds)) => {
            match offset_of_seconds(seconds) {
                Some((h, m, s)) => match timestamp_from_parts(
                    year,
                    ordinal,
                    hour,
                    minute,
                    second,
                    nanosecond,
                    h,
                    m,
                    s,
                ) {
                    Some(t) => Ok(t),
                    None => Err(out_of_range_message()),
                },
                None => Err(out_of_range_message()),
            }
        },
    }
}

/// Reads a due date as a user writes it. The offset from UTC is that of the
/// user's time zone, in seconds, or the reason why it is not known.
pub fn offset_date_time_from_str(s: &str, local_offset: Result<i32, String>) -> (r: Result<
    Timestamp,
    String,
>)
    ensures
        match r {
            Ok(t) => spec_offset_date_time(
                s@,
                match local_offset {
                    Ok(seconds) => Ok(seconds),
                    Err(e) => Err(e@),
                },
            ) == Ok::<TimestampView, Seq<char>>(t@),
            Err(e) => spec_offset_date_time(
                s@,
                match local_offset {
                    Ok(seconds) => Ok(seconds),
                    Err(e) => Err(e@),
                },
            ) == Err::<TimestampView, Seq<char>>(e@),
        },
{
    let (date_text, time_text) = split(s);
    let (year, ordinal) = match parse_date(date_text.as_str(), DATE_INPUT_FORMAT) {
        Ok(date) => date,
        Err(e) => {
            return Err(e);
        },
    };
    let (hour, minute, second, nanosecond) = match time_text {
        Some(time_text) => match parse_time(time_text.as_str(), TIME_INPUT_FORMAT) {
            Ok(time) => time,
            Err(e) => {
                return Err(e);
            },
        },
        None => (0, 0, 0, 0),
    };
    let seconds = match local_offset {
        Ok(seconds) => seconds,
        Err(e) => {
            return Err(e);
        },
    };
    let built = match offset_from_seconds(seconds) {
        Some((h, m, s)) => Timestamp::new(year, ordinal, hour, minute, second, nanosecond, h, m, s),
        None => None,
    };
    match built {
        Some(t) => Ok(t),
        None => Err(String::from_str("date, time or offset out of range")),
    }
}

/// What a user's text does to a due date: nothing where it is empty; `-` or
/// `none` takes the due date away; any other text sets the due date that it
/// was read as.
pub open spec fn spec_delta_time<T>(text: Seq<char>, read: Result<T, Seq<char>>) -> Result<
    Delta<Option<T>>,
    Seq<char>,
> {
    if text.len() == 0 {
        Ok(Delta::Unchanged)
    } else if text == "-"@ || text == "none"@ {
        Ok(Delta::Changed(None))
    } else {
        match read {
            Ok(due) => Ok(Delta::Changed(Some(due))),
            Err(e) => Err(e),
        }
    }
}

/// Reads what a user's text does to a due date, given the due date that the
/// text was read as.
pub fn delta_time_from_str(s: &str, read: Result<Timestamp, String>) -> (r: Result<
    Delta<Option<Timestamp>>,
    String,
>)
    ensures
        match (
            r,
            spec_delta_time(
                s@,
                match read {
                    Ok(due) => Ok(due@),
                    Err(e) => Err(e@),
                },
            ),
        ) {
            (Ok(Delta::Unchanged), Ok(Delta::Unchanged)) => true,
            (Ok(Delta::Changed(None)), Ok(Delta::Changed(None))) => true,
            (Ok(Delta::Changed(Some(a))), Ok(Delta::Changed(Some(b)))) => a@ == b,
            (Err(a), Err(b)) => a@ == b,
            _ => false,
        },
{
    if s.unicode_len() == 0 {
        Ok(Delta::Unchanged)
    } else if crate::task::same_text(s, "-") || crate::task::same_text(s, "none") {
        Ok(Delta::Changed(None))
    } else {
        match read {
            Ok(due) => Ok(Delta::Changed(Some(due))),
            Err(e) => Err(e),
        }
    }
}

} // verus!
