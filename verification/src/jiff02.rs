//! Values of `jiff` 0.2, held as the plain numbers and names that `jiff` exposes. Each value can
//! only be made through the `jiff` constructor it stands for; a time zone also carries the
//! `jiff` time zone itself, whose rules only `jiff` can apply.
use vstd::prelude::*;

use crate::civil::{
    civil_date, clock_time, instant, jiff_date_valid, jiff_instant_valid, jiff_offset_valid,
    jiff_time_valid, jiff_timestamp_new, names_unknown_zone, same_ignoring_ascii_case, CivilDate, CivilDateTime, ClockTime, Instant,
};
use crate::error::{Error, ErrorSource};

verus! {

/// `jiff::civil::Date::new`, read back through `year()`, `month()` and `day()`. Documented to
/// fail exactly when the year is outside `-9999..=9999` or the day does not exist; a failure is
/// handed on as the text of `jiff`'s error.
#[verifier::external_body]
fn jiff_date_new(year: i16, month: i8, day: i8) -> (r: Result<(i16, i8, i8), String>)
    ensures
        r is Ok <==> jiff_date_valid(civil_date(year as int, month as int, day as int)),
        r matches Ok(c) ==> c == (year, month, day),
{
    jiff::civil::Date::new(year, month, day).map(|d| (d.year(), d.month(), d.day())).map_err(
        |e| e.to_string(),
    )
}

/// `jiff::civil::Time::new`, read back through `hour()`, `minute()`, `second()` and
/// `subsec_nanosecond()`. Documented to fail unless every component is in range; a failure is
/// handed on as the text of `jiff`'s error.
#[verifier::external_body]
fn jiff_time_new(hour: i8, minute: i8, second: i8, subsec: i32) -> (r: Result<
    (i8, i8, i8, i32),
    String,
>)
    ensures
        r is Ok <==> jiff_time_valid(
            clock_time(hour as int, minute as int, second as int, subsec as int),
        ),
        r matches Ok(c) ==> c == (hour, minute, second, subsec),
{
    jiff::civil::Time::new(hour, minute, second, subsec).map(
        |t| (t.hour(), t.minute(), t.second(), t.subsec_nanosecond()),
    ).map_err(|e| e.to_string())
}

/// `jiff::Timestamp::new`, read back through `as_second()` and `subsec_nanosecond()`. Its
/// source fails outside the supported range and otherwise moves the nanoseconds to the sign of
/// the seconds, as `jiff_timestamp_new` states; a failure is handed on as the text of `jiff`'s
/// error.
#[verifier::external_body]
fn jiff_timestamp_new_call(second: i64, nanosecond: i32) -> (r: Result<(i64, i32), String>)
    ensures
        r is Ok <==> jiff_timestamp_new(second as int, nanosecond as int) is Some,
        r matches Ok(c) ==> jiff_timestamp_new(second as int, nanosecond as int) == Some(
            instant(c.0 as int, c.1 as int),
        ),
{
    jiff::Timestamp::new(second, nanosecond).map(|t| (t.as_second(), t.subsec_nanosecond())).map_err(
        |e| e.to_string(),
    )
}

/// `jiff::tz::Offset::from_seconds`, read back through `seconds()`. Documented to fail exactly
/// outside `-93_599..=93_599`; a failure is handed on as the text of `jiff`'s error.
#[verifier::external_body]
fn jiff_offset_from_seconds(seconds: i32) -> (r: Result<i32, String>)
    ensures
        r is Ok <==> jiff_offset_valid(seconds as int),
        r matches Ok(s) ==> s == seconds,
{
    jiff::tz::Offset::from_seconds(seconds).map(|o| o.seconds()).map_err(|e| e.to_string())
}

/// `jiff::tz::TimeZone::fixed` of the offset of `seconds`, with what its `iana_name()` and
/// `to_fixed_offset()` report. Per `jiff`'s source, a zero offset gives `TimeZone::UTC`, named
/// "UTC", any other offset an unnamed fixed zone, and both report their offset as fixed.
#[verifier::external_body]
fn jiff_time_zone_fixed(seconds: i32) -> (r: (jiff::tz::TimeZone, Option<String>, Option<i32>))
    requires
        jiff_offset_valid(seconds as int),
    ensures
        r.1 is Some <==> seconds == 0,
        r.1 matches Some(n) ==> n@ == "UTC"@,
        r.2 == Some(seconds),
{
    let zone = jiff::tz::TimeZone::fixed(jiff::tz::Offset::from_seconds(seconds).unwrap());
    let name = zone.iana_name().map(|n| n.to_string());
    let fixed = zone.to_fixed_offset().ok().map(|o| o.seconds());
    (zone, name, fixed)
}

/// `jiff::tz::TimeZone::UTC`, with what its `iana_name()` and `to_fixed_offset()` report: per
/// `jiff`'s source, the name "UTC" and the fixed offset zero.
#[verifier::external_body]
fn jiff_time_zone_utc() -> (r: (jiff::tz::TimeZone, Option<String>, Option<i32>))
    ensures
        r.1 is Some,
        r.1 matches Some(n) ==> n@ == "UTC"@,
        r.2 == Some(0i32),
{
    let zone = jiff::tz::TimeZone::UTC;
    let name = zone.iana_name().map(|n| n.to_string());
    let fixed = zone.to_fixed_offset().ok().map(|o| o.seconds());
    (zone, name, fixed)
}

/// `jiff::tz::TimeZone::get`, with what the zone found reports through `iana_name()` and
/// `to_fixed_offset()`. Whether a zone is found depends on the time zone database `jiff` finds
/// on this machine. Per `jiff`'s source, every zone it finds has an IANA name equal to the query
/// once ASCII case is ignored: the special names "UTC" and "Etc/Unknown", and the zoneinfo,
/// concatenated and bundled databases, are all looked up that way and the zone is named by the
/// entry that matched. The one zone found without a name is the unknown zone, found only under
/// "Etc/Unknown". A failure is handed on as the text of `jiff`'s error.
#[verifier::external_body]
fn jiff_time_zone_get(name: &str) -> (r: Result<(jiff::tz::TimeZone, Option<String>, Option<i32>), String>)
    ensures
        r matches Ok(p) ==> (p.1 matches Some(n) ==> same_ignoring_ascii_case(n@, name@)),
        r matches Ok(p) ==> (p.1 is Some || names_unknown_zone(name@)),
        r matches Ok(p) ==> (p.2 matches Some(s) ==> jiff_offset_valid(s as int)),
{
    match jiff::tz::TimeZone::get(name) {
        Ok(zone) => {
            let iana_name = zone.iana_name().map(|n| n.to_string());
            let fixed = zone.to_fixed_offset().ok().map(|o| o.seconds());
            Ok((zone, iana_name, fixed))
        },
        Err(e) => Err(e.to_string()),
    }
}

/// What a `jiff::tz::TimeZone` reports through `iana_name()` and `to_fixed_offset()`, handed
/// back with the zone itself. Only that a fixed offset is in `jiff`'s offset range is stated of
/// the reports: the rest depends on the zone.
#[verifier::external_body]
fn jiff_time_zone_parts(zone: jiff::tz::TimeZone) -> (r: (
    jiff::tz::TimeZone,
    Option<String>,
    Option<i32>,
))
    ensures
        r.0 == zone,
        r.2 matches Some(s) ==> jiff_offset_valid(s as int),
{
    let name = zone.iana_name().map(|n| n.to_string());
    let fixed = zone.to_fixed_offset().ok().map(|o| o.seconds());
    (zone, name, fixed)
}

/// The offset, in seconds, that a `jiff` time zone has at the instant `second` seconds and
/// `nanosecond` nanoseconds after the Unix epoch. It is what the zone's own rules give at that
/// instant, so it depends on the zone and the instant alone.
pub uninterp spec fn jiff_zone_offset_at(zone: jiff::tz::TimeZone, second: int, nanosecond: int) -> int;

/// `jiff::tz::TimeZone::to_offset`: the offset of the zone at an instant, in `jiff`'s offset
/// range. Per `jiff`'s source it depends on the zone and the instant alone, and a zone that
/// reports a fixed offset always gives that offset.
#[verifier::external_body]
fn jiff_offset_at(zone: &Zone, second: i64, nanosecond: i32) -> (r: i32)
    requires
        jiff_instant_valid(instant(second as int, nanosecond as int)),
    ensures
        r == jiff_zone_offset_at(zone.spec_jiff(), second as int, nanosecond as int),
        jiff_offset_valid(r as int),
        zone@.fixed_offset matches Some(f) ==> r == f,
{
    zone.zone.to_offset(jiff::Timestamp::new(second, nanosecond).unwrap()).seconds()
}

/// A `jiff::civil::Date`: a calendar day of the years -9999 to 9999.
#[derive(Debug, PartialEq, Eq, Structural)]
pub struct Date {
    year: i16,
    month: i8,
    day: i8,
}

impl View for Date {
    type V = CivilDate;

    closed spec fn view(&self) -> CivilDate {
        CivilDate { year: self.year as int, month: self.month as int, day: self.day as int }
    }
}

impl Date {
    #[verifier::type_invariant]
    spec fn inv(self) -> bool {
        jiff_date_valid(self@)
    }

    /// The date of the given year, month and day; an error (from `jiff`) if that day does not
    /// exist in `jiff`'s range.
    pub fn new(year: i16, month: i8, day: i8) -> (r: Result<Date, Error>)
        ensures
            r is Ok <==> jiff_date_valid(civil_date(year as int, month as int, day as int)),
            r matches Ok(d) ==> d@ == civil_date(year as int, month as int, day as int),
            r matches Err(e) ==> e.spec_source() == Some(ErrorSource::Jiff),
    {
        match jiff_date_new(year, month, day) {
            Ok((y, m, d)) => Ok(Date { year: y, month: m, day: d }),
            Err(text) => Err(Error::from_jiff(text)),
        }
    }

    /// The year.
    pub fn year(&self) -> (r: i16)
        ensures
            r == self@.year,
            jiff_date_valid(self@),
    {
        proof { use_type_invariant(self); }
        self.year
    }

    /// The month, from 1 to 12.
    pub fn month(&self) -> (r: i8)
        ensures
            r == self@.month,
            jiff_date_valid(self@),
    {
        proof { use_type_invariant(self); }
        self.month
    }

    /// The day of the month, from 1.
    pub fn day(&self) -> (r: i8)
        ensures
            r == self@.day,
            jiff_date_valid(self@),
    {
        proof { use_type_invariant(self); }
        self.day
    }
}

/// A `jiff::civil::Time`; `jiff` has no leap seconds.
#[derive(Debug, PartialEq, Eq, Structural)]
pub struct Time {
    hour: i8,
    minute: i8,
    second: i8,
    subsec_nanosecond: i32,
}

impl View for Time {
    type V = ClockTime;

    closed spec fn view(&self) -> ClockTime {
        ClockTime {
            hour: self.hour as int,
            minute: self.minute as int,
            second: self.second as int,
            nanosecond: self.subsec_nanosecond as int,
        }
    }
}

impl Time {
    #[verifier::type_invariant]
    spec fn inv(self) -> bool {
        jiff_time_valid(self@)
    }

    /// The time of the given components; an error (from `jiff`) unless each is in range.
    pub fn new(hour: i8, minute: i8, second: i8, subsec_nanosecond: i32) -> (r: Result<Time, Error>)
        ensures
            r is Ok <==> jiff_time_valid(
                clock_time(hour as int, minute as int, second as int, subsec_nanosecond as int),
            ),
            r matches Ok(t) ==> t@ == clock_time(
                hour as int,
                minute as int,
                second as int,
                subsec_nanosecond as int,
            ),
            r matches Err(e) ==> e.spec_source() == Some(ErrorSource::Jiff),
    {
        match jiff_time_new(hour, minute, second, subsec_nanosecond) {
            Ok((h, m, s, n)) => Ok(Time { hour: h, minute: m, second: s, subsec_nanosecond: n }),
            Err(text) => Err(Error::from_jiff(text)),
        }
    }

    /// The hour, from 0 to 23.
    pub fn hour(&self) -> (r: i8)
        ensures
            r == self@.hour,
            jiff_time_valid(self@),
    {
        proof { use_type_invariant(self); }
        self.hour
    }

    /// The minute, from 0 to 59.
    pub fn minute(&self) -> (r: i8)
        ensures
            r == self@.minute,
            jiff_time_valid(self@),
    {
        proof { use_type_invariant(self); }
        self.minute
    }

    /// The second, from 0 to 59.
    pub fn second(&self) -> (r: i8)
        ensures
            r == self@.second,
            jiff_time_valid(self@),
    {
        proof { use_type_invariant(self); }
        self.second
    }

    /// The nanoseconds since the last whole second, from 0 to 999,999,999.
    pub fn subsec_nanosecond(&self) -> (r: i32)
        ensures
            r == self@.nanosecond,
            jiff_time_valid(self@),
    {
        proof { use_type_invariant(self); }
        self.subsec_nanosecond
    }
}

/// A `jiff::civil::DateTime`: a date and a time of day.
#[derive(Debug, PartialEq, Eq, Structural)]
pub struct DateTime {
    date: Date,
    time: Time,
}

impl View for DateTime {
    type V = CivilDateTime;

    closed spec fn view(&self) -> CivilDateTime {
        CivilDateTime { date: self.date@, time: self.time@ }
    }
}

impl DateTime {
    /// The date-time of `date` at `time`.
    pub fn from_parts(date: Date, time: Time) -> (r: DateTime)
        ensures
            r@ == (CivilDateTime { date: date@, time: time@ }),
    {
        DateTime { date, time }
    }

    /// The date part.
    pub fn date(&self) -> (r: &Date)
        ensures
            r@ == self@.date,
    {
        &self.date
    }

    /// The time part.
    pub fn time(&self) -> (r: &Time)
        ensures
            r@ == self@.time,
    {
        &self.time
    }
}

/// A `jiff::Timestamp`: an instant, held as its `as_second()` and `subsec_nanosecond()`, which
/// share a sign.
#[derive(Debug, PartialEq, Eq, Structural)]
pub struct Timestamp {
    second: i64,
    nanosecond: i32,
}

impl View for Timestamp {
    type V = Instant;

    closed spec fn view(&self) -> Instant {
        Instant { second: self.second as int, nanosecond: self.nanosecond as int }
    }
}

impl Timestamp {
    #[verifier::type_invariant]
    spec fn inv(self) -> bool {
        jiff_instant_valid(self@)
    }

    /// The instant `second` seconds and `nanosecond` nanoseconds after the Unix epoch, whose
    /// signs need not agree; an error (from `jiff`) outside `jiff`'s range.
    pub fn new(second: i64, nanosecond: i32) -> (r: Result<Timestamp, Error>)
        ensures
            r is Ok <==> jiff_timestamp_new(second as int, nanosecond as int) is Some,
            r matches Ok(t) ==> jiff_timestamp_new(second as int, nanosecond as int) == Some(t@),
            r matches Err(e) ==> e.spec_source() == Some(ErrorSource::Jiff),
    {
        match jiff_timestamp_new_call(second, nanosecond) {
            Ok((s, n)) => Ok(Timestamp { second: s, nanosecond: n }),
            Err(text) => Err(Error::from_jiff(text)),
        }
    }

    /// The whole seconds since the Unix epoch.
    pub fn as_second(&self) -> (r: i64)
        ensures
            r == self@.second,
            jiff_instant_valid(self@),
    {
        proof { use_type_invariant(self); }
        self.second
    }

    /// The nanoseconds beyond `as_second()`, with the same sign.
    pub fn subsec_nanosecond(&self) -> (r: i32)
        ensures
            r == self@.nanosecond,
            jiff_instant_valid(self@),
    {
        proof { use_type_invariant(self); }
        self.nanosecond
    }

    /// This instant in the time zone `time_zone`, with the offset the zone has at it.
    pub fn to_zoned(self, time_zone: Zone) -> (r: Zoned)
        ensures
            r@.timestamp == self@,
            r@.time_zone == time_zone@,
            r.spec_jiff_zone() == time_zone.spec_jiff(),
            r@.offset == jiff_zone_offset_at(time_zone.spec_jiff(), self@.second, self@.nanosecond),
            time_zone@.fixed_offset matches Some(f) ==> r@.offset == f,
    {
        proof { use_type_invariant(&self); }
        let seconds = jiff_offset_at(&time_zone, self.second, self.nanosecond);
        Zoned { timestamp: self, time_zone, offset: Offset { seconds } }
    }
}

/// A `jiff::tz::Offset`: the seconds to add to UTC to get local time, up to 25:59:59.
#[derive(Debug, PartialEq, Eq, Structural)]
pub struct Offset {
    seconds: i32,
}

impl View for Offset {
    type V = int;

    closed spec fn view(&self) -> int {
        self.seconds as int
    }
}

impl Offset {
    #[verifier::type_invariant]
    spec fn inv(self) -> bool {
        jiff_offset_valid(self@)
    }

    /// The offset of `seconds`; an error (from `jiff`) outside `-93_599..=93_599`.
    pub fn from_seconds(seconds: i32) -> (r: Result<Offset, Error>)
        ensures
            r is Ok <==> jiff_offset_valid(seconds as int),
            r matches Ok(o) ==> o@ == seconds,
            r matches Err(e) ==> e.spec_source() == Some(ErrorSource::Jiff),
    {
        match jiff_offset_from_seconds(seconds) {
            Ok(s) => Ok(Offset { seconds: s }),
            Err(text) => Err(Error::from_jiff(text)),
        }
    }

    /// The offset of UTC itself, zero seconds.
    pub fn utc() -> (r: Offset)
        ensures
            r@ == 0,
    {
        Offset { seconds: 0 }
    }

    /// The number of seconds to add to UTC to get the local time.
    pub fn seconds(&self) -> (r: i32)
        ensures
            r == self@,
            jiff_offset_valid(r as int),
    {
        proof { use_type_invariant(self); }
        self.seconds
    }
}

/// What a `jiff` time zone reports of itself: its IANA name, if any, and its offset if it is a
/// fixed offset.
pub struct ZoneView {
    pub iana_name: Option<Seq<char>>,
    pub fixed_offset: Option<int>,
}

/// A time zone name that `jiff`'s database did not have, with the text of `jiff`'s error. Only
/// `Zone::get` makes one, when its lookup fails.
pub struct TimeZoneLookupFailure {
    text: String,
    name: String,
}

impl TimeZoneLookupFailure {
    /// The text of `jiff`'s error.
    pub closed spec fn spec_text(&self) -> Seq<char> {
        self.text@
    }

    /// The name that was looked up.
    pub closed spec fn spec_name(&self) -> Seq<char> {
        self.name@
    }

    /// The text of `jiff`'s error and the name that was looked up.
    pub(crate) fn into_parts(self) -> (r: (String, String))
        ensures
            r.0@ == self.spec_text(),
            r.1@ == self.spec_name(),
    {
        (self.text, self.name)
    }
}

/// A `jiff::tz::TimeZone`, together with what it reports through `iana_name()` and
/// `to_fixed_offset()`.
///
/// The fields are private and filled only by `from_parts`, from what the wrappers above read off
/// the very zone they hand back; `jiff_offset_at` relies on that agreement, which no invariant
/// can state because the zone itself is opaque.
#[derive(Debug)]
pub struct Zone {
    zone: jiff::tz::TimeZone,
    iana_name: Option<String>,
    fixed_offset: Option<i32>,
}

impl View for Zone {
    type V = ZoneView;

    closed spec fn view(&self) -> ZoneView {
        ZoneView {
            iana_name: match self.iana_name {
                Some(n) => Some(n@),
                None => None,
            },
            fixed_offset: match self.fixed_offset {
                Some(s) => Some(s as int),
                None => None,
            },
        }
    }
}

impl Zone {
    #[verifier::type_invariant]
    spec fn inv(self) -> bool {
        self@.fixed_offset matches Some(s) ==> jiff_offset_valid(s)
    }

    fn from_parts(parts: (jiff::tz::TimeZone, Option<String>, Option<i32>)) -> (r: Zone)
        requires
            parts.2 matches Some(s) ==> jiff_offset_valid(s as int),
        ensures
            r@.iana_name == (match parts.1 {
                Some(n) => Some(n@),
                None => None::<Seq<char>>,
            }),
            r@.fixed_offset == (match parts.2 {
                Some(s) => Some(s as int),
                None => None::<int>,
            }),
            r.spec_jiff() == parts.0,
    {
        let (zone, iana_name, fixed_offset) = parts;
        Zone { zone, iana_name, fixed_offset }
    }

    /// The `jiff` time zone this value carries.
    pub closed spec fn spec_jiff(&self) -> jiff::tz::TimeZone {
        self.zone
    }

    /// `jiff::tz::TimeZone::UTC`, named "UTC", with the fixed offset zero.
    pub fn utc() -> (r: Zone)
        ensures
            r@.iana_name == Some("UTC"@),
            r@.fixed_offset == Some(0int),
    {
        Zone::from_parts(jiff_time_zone_utc())
    }

    /// The time zone of the fixed offset `offset`: `utc()` for a zero offset, otherwise an
    /// unnamed zone.
    pub fn fixed(offset: Offset) -> (r: Zone)
        ensures
            r@.iana_name == (if offset@ == 0 { Some("UTC"@) } else { None::<Seq<char>> }),
            r@.fixed_offset == Some(offset@),
    {
        let seconds = offset.seconds();
        Zone::from_parts(jiff_time_zone_fixed(seconds))
    }

    /// The time zone of this IANA name in the database `jiff` finds on this machine, looked up
    /// without regard to ASCII case; an error (from `jiff`) if it has none of that name, which
    /// records the name.
    pub fn get(name: &str) -> (r: Result<Zone, Error>)
        ensures
            r matches Ok(z) ==> (z@.iana_name matches Some(n) ==> same_ignoring_ascii_case(n, name@)),
            r matches Ok(z) ==> (z@.iana_name is Some || names_unknown_zone(name@)),
            r matches Err(e) ==> e.spec_source() == Some(ErrorSource::Jiff),
            r matches Err(e) ==> e.spec_failed_lookup() == Some(name@),
    {
        match jiff_time_zone_get(name) {
            Ok(parts) => Ok(Zone::from_parts(parts)),
            Err(text) => {
                let failure = TimeZoneLookupFailure { text, name: name.to_owned() };
                Err(Error::from_failed_lookup(failure))
            },
        }
    }

    /// The `jiff` time zone `zone`, with what it reports of its name and fixed offset.
    pub fn from_jiff(zone: jiff::tz::TimeZone) -> (r: Zone)
        ensures
            r.spec_jiff() == zone,
    {
        Zone::from_parts(jiff_time_zone_parts(zone))
    }

    /// The `jiff` time zone itself.
    pub fn as_jiff(&self) -> (r: &jiff::tz::TimeZone)
        ensures
            *r == self.spec_jiff(),
    {
        &self.zone
    }

    /// The IANA name of this time zone, if it has one.
    pub fn iana_name(&self) -> (r: Option<&str>)
        ensures
            r is Some <==> self@.iana_name is Some,
            r matches Some(n) ==> self@.iana_name == Some(n@),
    {
        match &self.iana_name {
            Some(n) => Some(n.as_str()),
            None => None,
        }
    }

    /// The offset of this time zone if it is a fixed offset.
    pub fn to_fixed_offset(&self) -> (r: Option<Offset>)
        ensures
            r is Some <==> self@.fixed_offset is Some,
            r matches Some(o) ==> self@.fixed_offset == Some(o@),
    {
        proof { use_type_invariant(self); }
        match self.fixed_offset {
            Some(s) => Some(Offset { seconds: s }),
            None => None,
        }
    }
}

/// A `jiff::Zoned`: an instant in a time zone, with the offset the zone has at that instant.
#[derive(Debug)]
pub struct Zoned {
    timestamp: Timestamp,
    time_zone: Zone,
    offset: Offset,
}

/// An instant in a time zone, with the offset the zone has at that instant.
pub struct ZonedView {
    pub timestamp: Instant,
    pub time_zone: ZoneView,
    pub offset: int,
}

impl View for Zoned {
    type V = ZonedView;

    closed spec fn view(&self) -> ZonedView {
        ZonedView { timestamp: self.timestamp@, time_zone: self.time_zone@, offset: self.offset@ }
    }
}

impl Zoned {
    #[verifier::type_invariant]
    spec fn inv(self) -> bool {
        &&& self@.time_zone.fixed_offset matches Some(f) ==> self@.offset == f
        &&& self@.offset == jiff_zone_offset_at(
            self.spec_jiff_zone(),
            self@.timestamp.second,
            self@.timestamp.nanosecond,
        )
    }

    /// The `jiff` time zone this value is in.
    pub closed spec fn spec_jiff_zone(self) -> jiff::tz::TimeZone {
        self.time_zone.spec_jiff()
    }

    /// The instant.
    pub fn timestamp(&self) -> (r: &Timestamp)
        ensures
            r@ == self@.timestamp,
    {
        &self.timestamp
    }

    /// The offset of the time zone at the instant.
    pub fn offset(&self) -> (r: &Offset)
        ensures
            r@ == self@.offset,
            r@ == jiff_zone_offset_at(
                self.spec_jiff_zone(),
                self@.timestamp.second,
                self@.timestamp.nanosecond,
            ),
            self@.time_zone.fixed_offset matches Some(f) ==> r@ == f,
    {
        proof { use_type_invariant(self); }
        &self.offset
    }

    /// The time zone.
    pub fn time_zone(&self) -> (r: &Zone)
        ensures
            r@ == self@.time_zone,
            r.spec_jiff() == self.spec_jiff_zone(),
    {
        &self.time_zone
    }
}

impl PartialEq for Zoned {
    /// Two zoned values are equal when they are the same instant, whatever their time zones and
    /// offsets, as `jiff` compares them.
    fn eq(&self, other: &Zoned) -> (r: bool) {
        self.timestamp == other.timestamp
    }
}

impl Eq for Zoned {
}

impl vstd::std_specs::cmp::PartialEqSpecImpl for Zoned {
    open spec fn obeys_eq_spec() -> bool {
        true
    }

    open spec fn eq_spec(&self, other: &Zoned) -> bool {
        self@.timestamp == other@.timestamp
    }
}

} // verus!
