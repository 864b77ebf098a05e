//! The mathematical model shared by both libraries: calendar dates, clock times and instants as
//! plain integers, and the ranges that `chrono` 0.4 and `jiff` 0.2 each accept.
use vstd::prelude::*;

verus! {

/// A proleptic Gregorian calendar date (astronomical year numbering: year 0 is 1 BCE).
pub struct CivilDate {
    pub year: int,
    pub month: int,
    pub day: int,
}

/// A time of day. `nanosecond` may reach into a second second (up to `1_999_999_999`) only in
/// `chrono`, to represent a leap second.
pub struct ClockTime {
    pub hour: int,
    pub minute: int,
    pub second: int,
    pub nanosecond: int,
}

/// A date together with a time of day.
pub struct CivilDateTime {
    pub date: CivilDate,
    pub time: ClockTime,
}

/// An instant as whole seconds since the Unix epoch plus a sub-second part in nanoseconds.
pub struct Instant {
    pub second: int,
    pub nanosecond: int,
}

/// The date of the given year, month and day.
pub open spec fn civil_date(year: int, month: int, day: int) -> CivilDate {
    CivilDate { year, month, day }
}

/// The time of day of the given components.
pub open spec fn clock_time(hour: int, minute: int, second: int, nanosecond: int) -> ClockTime {
    ClockTime { hour, minute, second, nanosecond }
}

/// The instant `second` seconds and `nanosecond` nanoseconds after the Unix epoch.
pub open spec fn instant(second: int, nanosecond: int) -> Instant {
    Instant { second, nanosecond }
}

/// Whether `year` is a leap year of the proleptic Gregorian calendar.
pub open spec fn is_leap_year(year: int) -> bool {
    year % 4 == 0 && (year % 100 != 0 || year % 400 == 0)
}

/// The number of days in `month` (1 to 12) of `year`.
pub open spec fn days_in_month(year: int, month: int) -> int {
    if month == 2 {
        if is_leap_year(year) { 29 } else { 28 }
    } else if month == 4 || month == 6 || month == 9 || month == 11 {
        30
    } else {
        31
    }
}

/// Whether month and day name a day that exists in the date's year.
pub open spec fn is_calendar_day(d: CivilDate) -> bool {
    &&& 1 <= d.month <= 12
    &&& 1 <= d.day <= days_in_month(d.year, d.month)
}

/// The first year that `chrono::NaiveDate` represents (262144 BCE).
pub open spec fn chrono_min_year() -> int { -262_143 }

/// The last year that `chrono::NaiveDate` represents.
pub open spec fn chrono_max_year() -> int { 262_142 }

/// The first year that `jiff::civil::Date` represents.
pub open spec fn jiff_min_year() -> int { -9_999 }

/// The last year that `jiff::civil::Date` represents.
pub open spec fn jiff_max_year() -> int { 9_999 }

/// The dates `chrono::NaiveDate` represents: every calendar day of the years -262143 to 262142.
pub open spec fn chrono_date_valid(d: CivilDate) -> bool {
    chrono_min_year() <= d.year <= chrono_max_year() && is_calendar_day(d)
}

/// The dates `jiff::civil::Date` represents: every calendar day of the years -9999 to 9999.
pub open spec fn jiff_date_valid(d: CivilDate) -> bool {
    jiff_min_year() <= d.year <= jiff_max_year() && is_calendar_day(d)
}

/// The times `chrono::NaiveTime` represents: the nanosecond part may exceed one second (a leap
/// second) only in the last second of a minute.
pub open spec fn chrono_time_valid(t: ClockTime) -> bool {
    &&& 0 <= t.hour < 24
    &&& 0 <= t.minute < 60
    &&& 0 <= t.second < 60
    &&& 0 <= t.nanosecond < 2_000_000_000
    &&& t.nanosecond >= 1_000_000_000 ==> t.second == 59
}

/// The times `jiff::civil::Time` represents; `jiff` has no leap seconds.
pub open spec fn jiff_time_valid(t: ClockTime) -> bool {
    &&& 0 <= t.hour <= 23
    &&& 0 <= t.minute <= 59
    &&& 0 <= t.second <= 59
    &&& 0 <= t.nanosecond <= 999_999_999
}

/// Whether a clock time is a `chrono` leap second.
pub open spec fn is_leap_second(t: ClockTime) -> bool {
    t.nanosecond >= 1_000_000_000
}

/// The Unix second of `-262143-01-01T00:00:00Z`, the first instant `chrono` represents.
pub open spec fn chrono_min_second() -> int { -8_334_601_228_800 }

/// The Unix second of `262142-12-31T23:59:59Z`, the last second `chrono` represents.
pub open spec fn chrono_max_second() -> int { 8_210_266_876_799 }

/// The Unix second of `-9999-01-02T01:59:59Z`, the first instant `jiff::Timestamp` represents.
pub open spec fn jiff_min_second() -> int { -377_705_023_201 }

/// The Unix second of `9999-12-30T22:00:00Z`, the last second `jiff::Timestamp` represents.
pub open spec fn jiff_max_second() -> int { 253_402_207_200 }

/// The instants `chrono::DateTime<Utc>` represents, as its `timestamp()` and
/// `timestamp_subsec_nanos()`: the nanoseconds may exceed one second (a leap second) only in
/// the last second of a minute.
pub open spec fn chrono_instant_valid(i: Instant) -> bool {
    &&& chrono_min_second() <= i.second <= chrono_max_second()
    &&& 0 <= i.nanosecond < 2_000_000_000
    &&& i.nanosecond >= 1_000_000_000 ==> i.second % 60 == 59
}

/// The instants `jiff::Timestamp` represents, as its `as_second()` and `subsec_nanosecond()`:
/// both parts share a sign, and the first second has no negative nanoseconds.
pub open spec fn jiff_instant_valid(i: Instant) -> bool {
    &&& jiff_min_second() <= i.second <= jiff_max_second()
    &&& -999_999_999 <= i.nanosecond <= 999_999_999
    &&& i.second < 0 ==> i.nanosecond <= 0
    &&& i.second > 0 ==> i.nanosecond >= 0
    &&& i.second == jiff_min_second() ==> i.nanosecond >= 0
}

/// What `jiff::Timestamp::new(second, nanosecond)` makes: `None` out of range, otherwise the
/// same instant with the nanoseconds moved to the sign of the seconds.
pub open spec fn jiff_timestamp_new(second: int, nanosecond: int) -> Option<Instant> {
    if !(jiff_min_second() <= second <= jiff_max_second())
        || !(-999_999_999 <= nanosecond <= 999_999_999)
        || (second == jiff_min_second() && nanosecond < 0) {
        None
    } else if nanosecond == 0 || second == 0 || (second < 0) == (nanosecond < 0) {
        Some(Instant { second, nanosecond })
    } else if second < 0 {
        Some(Instant { second: second + 1, nanosecond: nanosecond - 1_000_000_000 })
    } else {
        Some(Instant { second: second - 1, nanosecond: nanosecond + 1_000_000_000 })
    }
}

/// The instant in nanoseconds since the Unix epoch.
pub open spec fn total_nanos(i: Instant) -> int {
    i.second * 1_000_000_000 + i.nanosecond
}

/// The offsets `chrono::FixedOffset` represents: strictly less than a day either way.
pub open spec fn chrono_offset_valid(seconds: int) -> bool {
    -86_400 < seconds < 86_400
}

/// The offsets `jiff::tz::Offset` represents: `-25:59:59..=25:59:59`.
pub open spec fn jiff_offset_valid(seconds: int) -> bool {
    -93_599 <= seconds <= 93_599
}

/// A character with ASCII upper-case letters turned to lower case; every other character as is.
pub open spec fn ascii_lowercase(c: char) -> char {
    if 65 <= c as int <= 90 { (c as int + 32) as char } else { c }
}

/// Whether two names are the same once ASCII letters are compared without regard to case.
pub open spec fn same_ignoring_ascii_case(a: Seq<char>, b: Seq<char>) -> bool {
    &&& a.len() == b.len()
    &&& forall|i: int| 0 <= i < a.len() ==> ascii_lowercase(#[trigger] a[i]) == ascii_lowercase(b[i])
}

/// Whether a name is `jiff`'s name for its unknown time zone, "Etc/Unknown", in any ASCII case.
/// It is the one name under which `jiff` finds a zone that has no IANA name.
pub open spec fn names_unknown_zone(name: Seq<char>) -> bool {
    same_ignoring_ascii_case(name, "Etc/Unknown"@)
}

} // verus!
