//! Due dates: a calendar date, a time of day and an offset from UTC, held as
//! the nine numbers that travel on the wire.

use vstd::prelude::*;

verus! {

/// Mathematical value of a [`Timestamp`].
pub ghost struct TimestampView {
    pub year: i32,
    /// Day of the year, from 1.
    pub ordinal: u16,
    pub hour: u8,
    pub minute: u8,
    pub second: u8,
    pub nanosecond: u32,
    pub offset_hours: i8,
    pub offset_minutes: i8,
    pub offset_seconds: i8,
}

/// Leap years of the proleptic Gregorian calendar, with the year 0 and the
/// years before it counted on.
pub open spec fn is_leap_year(year: int) -> bool {
    year % 4 == 0 && (year % 100 != 0 || year % 400 == 0)
}

/// The dates that exist: a year of at most four digits and a day in it. These
/// are the dates that `time::Date::from_ordinal_date` takes.
pub open spec fn valid_date(year: int, ordinal: int) -> bool {
    &&& -9999 <= year <= 9999
    &&& 1 <= ordinal
    &&& ordinal <= if is_leap_year(year) {
        366int
    } else {
        365int
    }
}

/// The times of day that exist: those that `time::Time::from_hms_nano`
/// takes.
pub open spec fn valid_time(hour: int, minute: int, second: int, nanosecond: int) -> bool {
    hour < 24 && minute < 60 && second < 60 && nanosecond < 1_000_000_000
}

/// The offset that three numbers name: each within its range, and the
/// smaller ones taking the sign of the larger where the signs differ. This is
/// what `time::UtcOffset::from_hms` makes of them.
pub open spec fn offset_from_hms(hours: i8, minutes: i8, seconds: i8) -> Option<(i8, i8, i8)> {
    if -25 <= hours <= 25 && -59 <= minutes <= 59 && -59 <= seconds <= 59 {
        let m: i8 = if (hours > 0 && minutes < 0) || (hours < 0 && minutes > 0) {
            (-minutes) as i8
        } else {
            minutes
        };
        let s: i8 = if (hours > 0 && seconds < 0) || (hours < 0 && seconds > 0) || (m > 0
            && seconds < 0) || (m < 0 && seconds > 0) {
            (-seconds) as i8
        } else {
            seconds
        };
        Some((hours, m, s))
    } else {
        None
    }
}

impl TimestampView {
    /// A date and a time of day that exist, with an offset whose parts are in
    /// range and agree in sign.
    pub open spec fn valid(self) -> bool {
        &&& valid_date(self.year as int, self.ordinal as int)
        &&& valid_time(
            self.hour as int,
            self.minute as int,
            self.second as int,
            self.nanosecond as int,
        )
        &&& offset_from_hms(self.offset_hours, self.offset_minutes, self.offset_seconds) == Some(
            (self.offset_hours, self.offset_minutes, self.offset_seconds),
        )
    }
}

/// The timestamp that nine numbers name, if they name one. The offset comes
/// out with its signs made to agree.
pub open spec fn timestamp_from_parts(
    year: i32,
    ordinal: u16,
    hour: u8,
    minute: u8,
    second: u8,
    nanosecond: u32,
    offset_hours: i8,
    offset_minutes: i8,
    offset_seconds: i8,
) -> Option<TimestampView> {
    if valid_date(year as int, ordinal as int) && valid_time(
        hour as int,
        minute as int,
        second as int,
        nanosecond as int,
    ) {
        match offset_from_hms(offset_hours, offset_minutes, offset_seconds) {
            Some((h, m, s)) => Some(
                TimestampView {
                    year,
                    ordinal,
                    hour,
                    minute,
                    second,
                    nanosecond,
                    offset_hours: h,
                    offset_minutes: m,
                    offset_seconds: s,
                },
            ),
            None => None,
        }
    } else {
        None
    }
}

/// Seconds since the Unix epoch of a timestamp, as
/// `time::OffsetDateTime::unix_timestamp` counts them. Nothing where `time`
/// does not take the parts for a date and time; it takes those of every
/// valid timestamp.
pub uninterp spec fn unix_seconds(t: TimestampView) -> Option<i64>;

/// The UTC date and time of a count of seconds since the Unix epoch, as
/// `time::OffsetDateTime::from_unix_timestamp` gives it: year, day of the
/// year, hour, minute, second. Nothing where the count is out of its range.
pub uninterp spec fn utc_from_unix(seconds: i64) -> Option<(i32, u16, u8, u8, u8)>;

/// What `time::OffsetDateTime::format` writes for a timestamp under a format
/// description, where it writes something.
pub uninterp spec fn display_text(t: TimestampView, format: Seq<char>) -> Option<Seq<char>>;

/// Whether the year has such a day.
fn date_exists(year: i32, ordinal: u16) -> (r: bool)
    ensures
        r == valid_date(year as int, ordinal as int),
{
    if year < -9999 || year > 9999 || ordinal < 1 {
        return false;
    }
    let size: i32 = if year < 0 {
        -year
    } else {
        year
    };
    let leap = size % 4 == 0 && (size % 100 != 0 || size % 400 == 0);
    assert(leap == is_leap_year(year as int));
    if leap {
        ordinal <= 366
    } else {
        ordinal <= 365
    }
}

/// Whether the day has such a time.
fn time_exists(hour: u8, minute: u8, second: u8, nanosecond: u32) -> (r: bool)
    ensures
        r == valid_time(hour as int, minute as int, second as int, nanosecond as int),
{
    hour < 24 && minute < 60 && second < 60 && nanosecond < 1_000_000_000
}

/// The offset that three numbers name.
fn checked_offset(hours: i8, minutes: i8, seconds: i8) -> (r: Option<(i8, i8, i8)>)
    ensures
        r == offset_from_hms(hours, minutes, seconds),
{
    if hours < -25 || hours > 25 || minutes < -59 || minutes > 59 || seconds < -59 || seconds
        > 59 {
        return None;
    }
    let m: i8 = if (hours > 0 && minutes < 0) || (hours < 0 && minutes > 0) {
        -minutes
    } else {
        minutes
    };
    let s: i8 = if (hours > 0 && seconds < 0) || (hours < 0 && seconds > 0) || (m > 0 && seconds
        < 0) || (m < 0 && seconds > 0) {
        -seconds
    } else {
        seconds
    };
    Some((hours, m, s))
}

/// `time::OffsetDateTime::unix_timestamp` of the date, time and offset that
/// the parts name. The parts go through `time::Date::from_ordinal_date`,
/// `time::Date::with_hms_nano`, `time::UtcOffset::from_hms` and
/// `time::PlainDateTime::assume_offset` first. These take every date, time
/// and offset that is valid, so that a valid timestamp always has its count
/// of seconds; nothing comes back where one of them refuses.
#[verifier::external_body]
fn unix_seconds_of(t: &Timestamp) -> (r: Option<i64>)
    ensures
        r == unix_seconds(t@),
        t@.valid() ==> r is Some,
{
    let date = time::Date::from_ordinal_date(t.year, t.ordinal).ok()?;
    let local = date.with_hms_nano(t.hour, t.minute, t.second, t.nanosecond).ok()?;
    let offset = time::UtcOffset::from_hms(t.offset_hours, t.offset_minutes, t.offset_seconds);
    Some(local.assume_offset(offset.ok()?).unix_timestamp())
}

/// `time::OffsetDateTime::from_unix_timestamp`, read back with `year`,
/// `ordinal`, `hour`, `minute` and `second`.
#[verifier::external_body]
fn utc_parts_of(seconds: i64) -> (r: Option<(i32, u16, u8, u8, u8)>)
    ensures
        r == utc_from_unix(seconds),
{
    let t = time::OffsetDateTime::from_unix_timestamp(seconds).ok()?;
    Some((t.year(), t.ordinal(), t.hour(), t.minute(), t.second()))
}

/// `time::OffsetDateTime::format` under the format description that
/// `time::format_description::parse_borrowed` reads from `format` in the
/// first version of its syntax, on the date, time and offset that the parts
/// of the timestamp name. The parts go through
/// `time::Date::from_ordinal_date`, `time::Date::with_hms_nano`,
/// `time::UtcOffset::from_hms` and `time::PlainDateTime::assume_offset`
/// first; nothing comes back where one of these calls refuses.
#[verifier::external_body]
pub(crate) fn format_timestamp(t: &Timestamp, format: &str) -> (r: Option<String>)
    ensures
        match r {
            Some(text) => display_text(t@, format@) == Some(text@),
            None => display_text(t@, format@) is None,
        },
{
    let format = time::format_description::parse_borrowed::<1>(format).ok()?;
    let date = time::Date::from_ordinal_date(t.year, t.ordinal).ok()?;
    let local = date.with_hms_nano(t.hour, t.minute, t.second, t.nanosecond).ok()?;
    let offset = time::UtcOffset::from_hms(t.offset_hours, t.offset_minutes, t.offset_seconds);
    local.assume_offset(offset.ok()?).format(&format).ok()
}

/// A point in time with its offset from UTC.
#[derive(Clone, Copy, Debug, PartialEq, Eq)]
pub struct Timestamp {
    year: i32,
    ordinal: u16,
    hour: u8,
    minute: u8,
    second: u8,
    nanosecond: u32,
    offset_hours: i8,
    offset_minutes: i8,
    offset_seconds: i8,
}

impl View for Timestamp {
    type V = TimestampView;

    closed spec fn view(&self) -> TimestampView {
        TimestampView {
            year: self.year,
            ordinal: self.ordinal,
            hour: self.hour,
            minute: self.minute,
            second: self.second,
            nanosecond: self.nanosecond,
            offset_hours: self.offset_hours,
            offset_minutes: self.offset_minutes,
            offset_seconds: self.offset_seconds,
        }
    }
}

impl Timestamp {
    #[verifier::type_invariant]
    spec fn well_formed(self) -> bool {
        self@.valid()
    }

    /// The timestamp that the nine numbers name, if they name one.
    pub fn new(
        year: i32,
        ordinal: u16,
        hour: u8,
        minute: u8,
        second: u8,
        nanosecond: u32,
        offset_hours: i8,
        offset_minutes: i8,
        offset_seconds: i8,
    ) -> (r: Option<Timestamp>)
        ensures
            match r {
                Some(t) => timestamp_from_parts(
                    year,
                    ordinal,
                    hour,
                    minute,
                    second,
                    nanosecond,
                    offset_hours,
                    offset_minutes,
                    offset_seconds,
                ) == Some(t@) && t@.valid(),
                None => timestamp_from_parts(
                    year,
                    ordinal,
                    hour,
                    minute,
                    second,
                    nanosecond,
                    offset_hours,
                    offset_minutes,
                    offset_seconds,
                ) is None,
            },
    {
        if !date_exists(year, ordinal) || !time_exists(hour, minute, second, nanosecond) {
            return None;
        }
        match checked_offset(offset_hours, offset_minutes, offset_seconds) {
            Some((h, m, s)) => Some(
                Timestamp {
                    year,
                    ordinal,
                    hour,
                    minute,
                    second,
                    nanosecond,
                    offset_hours: h,
                    offset_minutes: m,
                    offset_seconds: s,
                },
            ),
            None => None,
        }
    }

    /// Every timestamp has a valid value.
    pub fn check_valid(&self)
        ensures
            self@.valid(),
    {
        proof {
            use_type_invariant(self);
        }
    }

    /// The nine numbers: year, day of the year, hour, minute, second,
    /// nanosecond, and the offset's hours, minutes and seconds.
    pub fn parts(&self) -> (r: (i32, u16, u8, u8, u8, u32, i8, i8, i8))
        ensures
            r.0 == self@.year,
            r.1 == self@.ordinal,
            r.2 == self@.hour,
            r.3 == self@.minute,
            r.4 == self@.second,
            r.5 == self@.nanosecond,
            r.6 == self@.offset_hours,
            r.7 == self@.offset_minutes,
            r.8 == self@.offset_seconds,
            self@.valid(),
    {
        proof {
            use_type_invariant(self);
        }
        (
            self.year,
            self.ordinal,
            self.hour,
            self.minute,
            self.second,
            self.nanosecond,
            self.offset_hours,
            self.offset_minutes,
            self.offset_seconds,
        )
    }

    /// Seconds since the Unix epoch.
    pub fn unix_timestamp(&self) -> (seconds: i64)
        ensures
            unix_seconds(self@) == Some(seconds),
    {
        proof {
            use_type_invariant(self);
        }
        match unix_seconds_of(self) {
            Some(seconds) => seconds,
            None => {
                assert(false);
                0
            },
        }
    }

    /// The timestamp, in UTC, of a count of seconds since the Unix epoch.
    pub fn from_unix_timestamp(seconds: i64) -> (r: Option<Timestamp>)
        ensures
            match r {
                Some(t) => spec_from_unix(utc_from_unix(seconds)) == Some(t@),
                None => spec_from_unix(utc_from_unix(seconds)) is None,
            },
    {
        match utc_parts_of(seconds) {
            Some((year, ordinal, hour, minute, second)) => Timestamp::new(
                year,
                ordinal,
                hour,
                minute,
                second,
                0,
                0,
                0,
                0,
            ),
            None => None,
        }
    }
}

/// The UTC timestamp of the parts that the calendar gave, if they name one.
pub open spec fn spec_from_unix(parts: Option<(i32, u16, u8, u8, u8)>) -> Option<TimestampView> {
    match parts {
        Some((year, ordinal, hour, minute, second)) => timestamp_from_parts(
            year,
            ordinal,
            hour,
            minute,
            second,
            0,
            0,
            0,
            0,
        ),
        None => None,
    }
}

} // verus!
