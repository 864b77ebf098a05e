//! Values of `chrono` 0.4 and `chrono-tz` 0.10, held as the plain numbers and names that those
//! crates expose. Each value can only be made through the `chrono` constructor it stands for.
use chrono::{Datelike, Timelike};
use vstd::prelude::*;

use crate::civil::{
    names_unknown_zone,
    chrono_date_valid, chrono_instant_valid, chrono_offset_valid, chrono_time_valid, civil_date,
    clock_time, instant, CivilDate, CivilDateTime, ClockTime, Instant,
};

verus! {

/// `chrono::NaiveDate::from_ymd_opt`, read back through `year()`, `month()` and `day()`.
/// Per its documentation it returns `None` exactly for a day that does not exist or a year
/// outside `-262143..=262142`, and otherwise the date of those components.
#[verifier::external_body]
fn chrono_from_ymd_opt(year: i32, month: u32, day: u32) -> (r: Option<(i32, u32, u32)>)
    ensures
        r is Some <==> chrono_date_valid(
            civil_date(year as int, month as int, day as int),
        ),
        r matches Some(c) ==> c == (year, month, day),
{
    chrono::NaiveDate::from_ymd_opt(year, month, day).map(|d| (d.year(), d.month(), d.day()))
}

/// `chrono::NaiveTime::from_hms_nano_opt`, read back through `hour()`, `minute()`, `second()`
/// and `nanosecond()`. Its source returns `None` exactly when the hour, minute or second is out
/// of range, the nanoseconds reach two seconds, or a leap second is asked for outside the last
/// second of a minute.
#[verifier::external_body]
fn chrono_from_hms_nano_opt(hour: u32, minute: u32, second: u32, nano: u32) -> (r: Option<
    (u32, u32, u32, u32),
>)
    ensures
        r is Some <==> chrono_time_valid(
            clock_time(hour as int, minute as int, second as int, nano as int),
        ),
        r matches Some(c) ==> c == (hour, minute, second, nano),
{
    chrono::NaiveTime::from_hms_nano_opt(hour, minute, second, nano).map(
        |t| (t.hour(), t.minute(), t.second(), t.nanosecond()),
    )
}

/// `chrono::DateTime::<Utc>::from_timestamp`, read back through `timestamp()` and
/// `timestamp_subsec_nanos()`, with which it is documented to round-trip. Its source returns
/// `None` exactly when the day falls outside `chrono`'s dates, the nanoseconds reach two
/// seconds, or a leap second is asked for outside the last second of a minute.
#[verifier::external_body]
fn chrono_from_timestamp(secs: i64, nsecs: u32) -> (r: Option<(i64, u32)>)
    ensures
        r is Some <==> chrono_instant_valid(instant(secs as int, nsecs as int)),
        r matches Some(c) ==> c == (secs, nsecs),
{
    chrono::DateTime::from_timestamp(secs, nsecs).map(
        |d| (d.timestamp(), d.timestamp_subsec_nanos()),
    )
}

/// `chrono::FixedOffset::east_opt`, read back through `local_minus_utc()`: `Some` exactly when
/// `-86_400 < seconds < 86_400`.
#[verifier::external_body]
fn chrono_east_opt(seconds: i32) -> (r: Option<i32>)
    ensures
        r is Some <==> chrono_offset_valid(seconds as int),
        r matches Some(s) ==> s == seconds,
{
    chrono::FixedOffset::east_opt(seconds).map(|o| o.local_minus_utc())
}

/// Whether `chrono-tz` knows a time zone by this exact name. The set of names is compiled into
/// `chrono-tz`, so this depends on the name alone.
pub uninterp spec fn chrono_tz_knows(name: Seq<char>) -> bool;

/// Parsing a `chrono_tz::Tz` from its name, read back through `Tz::name()`. `chrono-tz` looks
/// the exact name up in its table, whose entries are the names that `Tz::name()` returns; no
/// entry is "Etc/Unknown" in any ASCII case.
#[verifier::external_body]
fn chrono_tz_parse(name: &str) -> (r: Result<String, chrono_tz::ParseError>)
    ensures
        r is Ok <==> chrono_tz_knows(name@),
        r matches Ok(n) ==> n@ == name@,
        r is Ok ==> !names_unknown_zone(name@),
{
    name.parse::<chrono_tz::Tz>().map(|tz| tz.name().to_string())
}

/// A `chrono::NaiveDate`: a calendar day of the years -262143 to 262142.
#[derive(Debug, PartialEq, Eq, Structural)]
pub struct NaiveDate {
    year: i32,
    month: u32,
    day: u32,
}

impl View for NaiveDate {
    type V = CivilDate;

    closed spec fn view(&self) -> CivilDate {
        CivilDate { year: self.year as int, month: self.month as int, day: self.day as int }
    }
}

impl NaiveDate {
    #[verifier::type_invariant]
    spec fn inv(self) -> bool {
        chrono_date_valid(self@)
    }

    /// The date of the given year, month and day; `None` if that day does not exist in
    /// `chrono`'s range.
    pub fn from_ymd_opt(year: i32, month: u32, day: u32) -> (r: Option<NaiveDate>)
        ensures
            r is Some <==> chrono_date_valid(
                civil_date(year as int, month as int, day as int),
            ),
            r matches Some(d) ==> d@ == civil_date(year as int, month as int, day as int),
    {
        match chrono_from_ymd_opt(year, month, day) {
            Some((y, m, d)) => Some(NaiveDate { year: y, month: m, day: d }),
            None => None,
        }
    }

    /// The year.
    pub fn year(&self) -> (r: i32)
        ensures
            r == self@.year,
            chrono_date_valid(self@),
    {
        proof { use_type_invariant(self); }
        self.year
    }

    /// The month, from 1 to 12.
    pub fn month(&self) -> (r: u32)
        ensures
            r == self@.month,
            chrono_date_valid(self@),
    {
        proof { use_type_invariant(self); }
        self.month
    }

    /// The day of the month, from 1.
    pub fn day(&self) -> (r: u32)
        ensures
            r == self@.day,
            chrono_date_valid(self@),
    {
        proof { use_type_invariant(self); }
        self.day
    }
}

/// A `chrono::NaiveTime`, which can be a leap second in the last second of a minute.
#[derive(Debug, PartialEq, Eq, Structural)]
pub struct NaiveTime {
    hour: u32,
    minute: u32,
    second: u32,
    nanosecond: u32,
}

impl View for NaiveTime {
    type V = ClockTime;

    closed spec fn view(&self) -> ClockTime {
        ClockTime {
            hour: self.hour as int,
            minute: self.minute as int,
            second: self.second as int,
            nanosecond: self.nanosecond as int,
        }
    }
}

impl NaiveTime {
    #[verifier::type_invariant]
    spec fn inv(self) -> bool {
        chrono_time_valid(self@)
    }

    /// The time of the given components; `None` if they are out of range, or if `nano` marks a
    /// leap second (`1_000_000_000` or more) outside the last second of a minute.
    pub fn from_hms_nano_opt(hour: u32, min: u32, sec: u32, nano: u32) -> (r: Option<NaiveTime>)
        ensures
            r is Some <==> chrono_time_valid(
                clock_time(hour as int, min as int, sec as int, nano as int),
            ),
            r matches Some(t) ==> t@ == clock_time(hour as int, min as int, sec as int, nano as int),
    {
        match chrono_from_hms_nano_opt(hour, min, sec, nano) {
            Some((h, m, s, n)) => Some(NaiveTime { hour: h, minute: m, second: s, nanosecond: n }),
            None => None,
        }
    }

    /// The hour, from 0 to 23.
    pub fn hour(&self) -> (r: u32)
        ensures
            r == self@.hour,
            chrono_time_valid(self@),
    {
        proof { use_type_invariant(self); }
        self.hour
    }

    /// The minute, from 0 to 59.
    pub fn minute(&self) -> (r: u32)
        ensures
            r == self@.minute,
            chrono_time_valid(self@),
    {
        proof { use_type_invariant(self); }
        self.minute
    }

    /// The second, from 0 to 59.
    pub fn second(&self) -> (r: u32)
        ensures
            r == self@.second,
            chrono_time_valid(self@),
    {
        proof { use_type_invariant(self); }
        self.second
    }

    /// The nanoseconds since the last whole second; `1_000_000_000` or more in a leap second.
    pub fn nanosecond(&self) -> (r: u32)
        ensures
            r == self@.nanosecond,
            chrono_time_valid(self@),
    {
        proof { use_type_invariant(self); }
        self.nanosecond
    }
}

/// A `chrono::NaiveDateTime`: a date and a time of day.
#[derive(Debug, PartialEq, Eq, Structural)]
pub struct NaiveDateTime {
    date: NaiveDate,
    time: NaiveTime,
}

impl View for NaiveDateTime {
    type V = CivilDateTime;

    closed spec fn view(&self) -> CivilDateTime {
        CivilDateTime { date: self.date@, time: self.time@ }
    }
}

impl NaiveDateTime {
    /// The date-time of `date` at `time`.
    pub fn new(date: NaiveDate, time: NaiveTime) -> (r: NaiveDateTime)
        ensures
            r@ == (CivilDateTime { date: date@, time: time@ }),
    {
        NaiveDateTime { date, time }
    }

    /// The date part.
    pub fn date(&self) -> (r: &NaiveDate)
        ensures
            r@ == self@.date,
    {
        &self.date
    }

    /// The time part.
    pub fn time(&self) -> (r: &NaiveTime)
        ensures
            r@ == self@.time,
    {
        &self.time
    }
}

/// `chrono::Utc`, the UTC time zone.
#[derive(Debug, PartialEq, Eq, Structural)]
pub struct Utc;

/// A `chrono::FixedOffset`: the seconds to add to UTC to get local time, less than a day.
#[derive(Debug, PartialEq, Eq, Structural)]
pub struct FixedOffset {
    local_minus_utc: i32,
}

impl View for FixedOffset {
    type V = int;

    closed spec fn view(&self) -> int {
        self.local_minus_utc as int
    }
}

impl FixedOffset {
    #[verifier::type_invariant]
    spec fn inv(self) -> bool {
        chrono_offset_valid(self@)
    }

    /// The offset `seconds` east of UTC; `None` unless `-86_400 < seconds < 86_400`.
    pub fn east_opt(seconds: i32) -> (r: Option<FixedOffset>)
        ensures
            r is Some <==> chrono_offset_valid(seconds as int),
            r matches Some(o) ==> o@ == seconds,
    {
        match chrono_east_opt(seconds) {
            Some(s) => Some(FixedOffset { local_minus_utc: s }),
            None => None,
        }
    }

    /// The number of seconds to add to UTC to get the local time.
    pub fn local_minus_utc(&self) -> (r: i32)
        ensures
            r == self@,
            chrono_offset_valid(r as int),
    {
        proof { use_type_invariant(self); }
        self.local_minus_utc
    }
}

/// A `chrono_tz::Tz`, held as its IANA name.
#[derive(Debug)]
pub struct Tz {
    name: String,
}

impl View for Tz {
    type V = Seq<char>;

    closed spec fn view(&self) -> Seq<char> {
        self.name@
    }
}

impl Tz {
    #[verifier::type_invariant]
    spec fn inv(self) -> bool {
        chrono_tz_knows(self@) && !names_unknown_zone(self@)
    }

    /// The time zone of this exact IANA name; an error if `chrono-tz` does not know it.
    pub fn parse(name: &str) -> (r: Result<Tz, chrono_tz::ParseError>)
        ensures
            r is Ok <==> chrono_tz_knows(name@),
            r matches Ok(tz) ==> tz@ == name@ && !names_unknown_zone(name@),
    {
        match chrono_tz_parse(name) {
            Ok(n) => Ok(Tz { name: n }),
            Err(e) => Err(e),
        }
    }

    /// The IANA name of this time zone.
    pub fn name(&self) -> (r: &str)
        ensures
            r@ == self@,
            chrono_tz_knows(r@),
            !names_unknown_zone(r@),
    {
        proof { use_type_invariant(self); }
        self.name.as_str()
    }
}

impl PartialEq for Tz {
    /// Two time zones are equal when they have the same IANA name.
    fn eq(&self, other: &Tz) -> (r: bool) {
        self.name == other.name
    }
}

impl Eq for Tz {
}

impl vstd::std_specs::cmp::PartialEqSpecImpl for Tz {
    open spec fn obeys_eq_spec() -> bool {
        true
    }

    open spec fn eq_spec(&self, other: &Tz) -> bool {
        self@ == other@
    }
}

/// A `chrono::DateTime<Z>`: an instant, held as its `timestamp()` and
/// `timestamp_subsec_nanos()`, in the time zone `Z` (`Utc`, `FixedOffset` or `Tz`).
#[derive(Debug, PartialEq, Eq, Structural)]
pub struct DateTime<Z> {
    second: i64,
    nanosecond: u32,
    zone: Z,
}

impl<Z> DateTime<Z> {
    #[verifier::type_invariant]
    spec fn inv(self) -> bool {
        chrono_instant_valid(self.spec_instant())
    }

    /// The instant, as whole Unix seconds and the nanoseconds since.
    pub closed spec fn spec_instant(self) -> Instant {
        Instant { second: self.second as int, nanosecond: self.nanosecond as int }
    }

    /// The time zone.
    pub closed spec fn spec_zone(self) -> Z {
        self.zone
    }

    /// The same instant in the time zone `zone`.
    pub fn with_timezone<Z2>(&self, zone: Z2) -> (r: DateTime<Z2>)
        ensures
            r.spec_instant() == self.spec_instant(),
            r.spec_zone() == zone,
    {
        proof { use_type_invariant(self); }
        DateTime { second: self.second, nanosecond: self.nanosecond, zone }
    }

    /// The number of non-leap seconds since the Unix epoch.
    pub fn timestamp(&self) -> (r: i64)
        ensures
            r == self.spec_instant().second,
            chrono_instant_valid(self.spec_instant()),
    {
        proof { use_type_invariant(self); }
        self.second
    }

    /// The nanoseconds since the last whole second; `1_000_000_000` or more in a leap second.
    pub fn timestamp_subsec_nanos(&self) -> (r: u32)
        ensures
            r == self.spec_instant().nanosecond,
            chrono_instant_valid(self.spec_instant()),
    {
        proof { use_type_invariant(self); }
        self.nanosecond
    }

    /// The time zone.
    pub fn timezone(&self) -> (r: &Z)
        ensures
            *r == self.spec_zone(),
    {
        &self.zone
    }
}

impl DateTime<Utc> {
    /// The UTC instant `secs` seconds and `nsecs` nanoseconds after the Unix epoch; `None` if it
    /// is outside `chrono`'s range, if `nsecs` reaches two seconds, or if it is a leap second
    /// outside the last second of a minute.
    pub fn from_timestamp(secs: i64, nsecs: u32) -> (r: Option<DateTime<Utc>>)
        ensures
            r is Some <==> chrono_instant_valid(
                instant(secs as int, nsecs as int),
            ),
            r matches Some(d) ==> d.spec_instant() == instant(secs as int, nsecs as int),
    {
        match chrono_from_timestamp(secs, nsecs) {
            Some((s, n)) => Some(DateTime { second: s, nanosecond: n, zone: Utc }),
            None => None,
        }
    }
}

} // verus!
