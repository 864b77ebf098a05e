//! Instants in a time zone: `chrono::DateTime` in `Utc`, a `FixedOffset` or a `chrono_tz::Tz`
//! against `jiff::Zoned`.
use vstd::prelude::*;

use crate::chrono04::{chrono_tz_knows, DateTime, FixedOffset, Tz, Utc};
use crate::chrono04_jiff02::offset::{fixed_offset_to_jiff, offset_out_of_range_error, offset_to_chrono};
use crate::chrono04_jiff02::timestamp::{in_jiff_range, timestamp_to_utc, utc_to_timestamp};
use crate::chrono04_jiff02::timezone::{fixed_zone, utc_zone, zone_to_tz, zone_to_tz_error};
use crate::civil::{
    chrono_instant_valid, chrono_offset_valid, jiff_instant_valid, jiff_offset_valid,
    same_ignoring_ascii_case, Instant,
};
use crate::error::{Error, ErrorSource};
use crate::jiff02::{jiff_zone_offset_at, Offset, Timestamp, Zone, ZonedView, Zoned};
use crate::{ToChrono, ToJiff, TryToChrono, TryToJiff};

verus! {

/// What converting a `chrono` instant at a fixed offset to `jiff` gives: its timestamp in the
/// fixed-offset zone of that offset, when the instant is in `jiff`'s range.
pub open spec fn fixed_datetime_to_zoned(i: Instant, offset: int) -> Option<ZonedView> {
    match utc_to_timestamp(i) {
        Some(timestamp) => Some(
            ZonedView { timestamp, time_zone: fixed_zone(fixed_offset_to_jiff(offset)), offset },
        ),
        None => None,
    }
}

/// What converting a `jiff` zoned instant to a `chrono` instant at a fixed offset gives: its
/// instant at its offset, when `chrono` can hold the offset.
pub open spec fn zoned_to_fixed_datetime(z: ZonedView) -> Option<(Instant, int)> {
    match offset_to_chrono(z.offset) {
        Some(offset) => Some((timestamp_to_utc(z.timestamp), offset)),
        None => None,
    }
}

/// What converting a `chrono` UTC instant to `jiff` gives: its timestamp in `jiff`'s UTC zone,
/// when the instant is in `jiff`'s range.
pub open spec fn utc_datetime_to_zoned(i: Instant) -> Option<ZonedView> {
    match utc_to_timestamp(i) {
        Some(timestamp) => Some(ZonedView { timestamp, time_zone: utc_zone(), offset: 0 }),
        None => None,
    }
}

/// What converting a `jiff` zoned instant to a `chrono` UTC instant gives: its instant.
pub open spec fn zoned_to_utc_datetime(z: ZonedView) -> Instant {
    timestamp_to_utc(z.timestamp)
}

/// What converting a `jiff` zoned instant to a `chrono` instant in a `chrono_tz::Tz` gives: its
/// instant in the zone of its time zone's IANA name, when `chrono-tz` knows that name.
pub open spec fn zoned_to_tz_datetime(z: ZonedView) -> Option<(Instant, Seq<char>)> {
    match zone_to_tz(z.time_zone) {
        Some(name) => Some((timestamp_to_utc(z.timestamp), name)),
        None => None,
    }
}

/// The instant of a `chrono` date-time as a `jiff` timestamp; fails, with `jiff`'s error,
/// exactly outside `jiff`'s range.
fn utc_timestamp<Z>(dt: &DateTime<Z>) -> (r: Result<Timestamp, Error>)
    ensures
        r is Ok <==> in_jiff_range(dt.spec_instant()),
        r matches Ok(t) ==> utc_to_timestamp(dt.spec_instant()) == Some(t@),
        r matches Err(e) ==> e.spec_source() == Some(ErrorSource::Jiff),
{
    let utc = dt.with_timezone(Utc);
    utc.try_to_jiff()
}

impl TryToJiff<Zoned> for DateTime<FixedOffset> {
    open spec fn try_to_jiff_ensures(&self, r: Result<Zoned, Error>) -> bool {
        &&& r is Ok <==> in_jiff_range(self.spec_instant())
        &&& r matches Ok(z) ==> fixed_datetime_to_zoned(self.spec_instant(), self.spec_zone()@)
            == Some(z@)
        &&& r matches Err(e) ==> e.spec_source() == Some(ErrorSource::Jiff)
    }

    /// Convert a `chrono::DateTime<chrono::FixedOffset>` to a `jiff::Zoned` in the fixed-offset
    /// zone of the same offset.
    ///
    /// This conversion is fallible because `chrono`'s `DateTime` range is larger than `jiff`'s
    /// `Timestamp` range.
    fn try_to_jiff(&self) -> Result<Zoned, Error> {
        let timestamp = match utc_timestamp(self) {
            Ok(t) => t,
            Err(e) => return Err(e),
        };
        let offset: Offset = self.timezone().to_jiff();
        Ok(timestamp.to_zoned(Zone::fixed(offset)))
    }
}

impl TryToChrono<DateTime<FixedOffset>> for Zoned {
    open spec fn try_to_chrono_ensures(&self, r: Result<DateTime<FixedOffset>, Error>) -> bool {
        &&& r is Ok <==> zoned_to_fixed_datetime(self@) is Some
        &&& r matches Ok(d) ==> zoned_to_fixed_datetime(self@) == Some(
            (d.spec_instant(), d.spec_zone()@),
        )
        &&& r matches Err(e) ==> offset_out_of_range_error(e)
    }

    /// Convert a `jiff::Zoned` to a `chrono::DateTime<chrono::FixedOffset>` at its offset.
    ///
    /// This conversion is fallible because `jiff`'s offset range (±25:59:59) is larger than
    /// `chrono`'s (under a day either way).
    fn try_to_chrono(&self) -> Result<DateTime<FixedOffset>, Error> {
        let utc: DateTime<Utc> = self.timestamp().to_chrono();
        let offset: FixedOffset = match self.offset().try_to_chrono() {
            Ok(o) => o,
            Err(e) => return Err(e),
        };
        Ok(utc.with_timezone(offset))
    }
}

impl TryToJiff<Zoned> for DateTime<Utc> {
    open spec fn try_to_jiff_ensures(&self, r: Result<Zoned, Error>) -> bool {
        &&& r is Ok <==> in_jiff_range(self.spec_instant())
        &&& r matches Ok(z) ==> utc_datetime_to_zoned(self.spec_instant()) == Some(z@)
        &&& r matches Err(e) ==> e.spec_source() == Some(ErrorSource::Jiff)
    }

    /// Convert a `chrono::DateTime<chrono::Utc>` to a `jiff::Zoned` in `jiff`'s UTC zone.
    ///
    /// This conversion is fallible because `chrono`'s `DateTime` range is larger than `jiff`'s
    /// `Timestamp` range.
    fn try_to_jiff(&self) -> Result<Zoned, Error> {
        let timestamp: Timestamp = match self.try_to_jiff() {
            Ok(t) => t,
            Err(e) => return Err(e),
        };
        Ok(timestamp.to_zoned(Zone::utc()))
    }
}

impl ToChrono<DateTime<Utc>> for Zoned {
    open spec fn to_chrono_ensures(&self, r: DateTime<Utc>) -> bool {
        r.spec_instant() == zoned_to_utc_datetime(self@)
    }

    /// Convert a `jiff::Zoned` to a `chrono::DateTime<chrono::Utc>` of the same instant.
    ///
    /// This conversion is infallible: `chrono::Utc` carries no time zone identity of its own,
    /// so any instant can always be expressed in it.
    fn to_chrono(&self) -> DateTime<Utc> {
        self.timestamp().to_chrono()
    }
}

impl TryToJiff<Zoned> for DateTime<Tz> {
    open spec fn try_to_jiff_ensures(&self, r: Result<Zoned, Error>) -> bool {
        &&& r is Ok ==> in_jiff_range(self.spec_instant())
        &&& r matches Ok(z) ==> utc_to_timestamp(self.spec_instant()) == Some(z@.timestamp)
        &&& r matches Ok(z) ==> z@.time_zone.iana_name is Some
        &&& r matches Ok(z) ==> z@.offset == jiff_zone_offset_at(
            z.spec_jiff_zone(),
            z@.timestamp.second,
            z@.timestamp.nanosecond,
        )
        &&& r matches Ok(z) ==> (z@.time_zone.iana_name matches Some(n) ==> same_ignoring_ascii_case(
            n,
            self.spec_zone()@,
        ))
        &&& r matches Err(e) ==> e.spec_source() == Some(ErrorSource::Jiff)
        &&& r matches Err(e) ==> (in_jiff_range(self.spec_instant()) ==> e.spec_failed_lookup()
            == Some(self.spec_zone()@))
    }

    /// Convert a `chrono::DateTime<chrono_tz::Tz>` to a `jiff::Zoned` in the `jiff` time zone of
    /// the same IANA name.
    ///
    /// This conversion is fallible because the instant may be out of `jiff`'s range, and
    /// because `jiff`'s time zone database may not know the name; the time zone, and so the
    /// offset, is the one `jiff` finds under that name.
    fn try_to_jiff(&self) -> Result<Zoned, Error> {
        let timestamp = match utc_timestamp(self) {
            Ok(t) => t,
            Err(e) => return Err(e),
        };
        let tz: Zone = match self.timezone().try_to_jiff() {
            Ok(z) => z,
            Err(e) => return Err(e),
        };
        Ok(timestamp.to_zoned(tz))
    }
}

impl TryToChrono<DateTime<Tz>> for Zoned {
    open spec fn try_to_chrono_ensures(&self, r: Result<DateTime<Tz>, Error>) -> bool {
        &&& r is Ok <==> zoned_to_tz_datetime(self@) is Some
        &&& r matches Ok(d) ==> zoned_to_tz_datetime(self@) == Some(
            (d.spec_instant(), d.spec_zone()@),
        )
        &&& r matches Err(e) ==> zone_to_tz_error(self@.time_zone, e)
    }

    /// Convert a `jiff::Zoned` to a `chrono::DateTime<chrono_tz::Tz>` in the `chrono-tz` zone of
    /// the same IANA name.
    ///
    /// This conversion is fallible because the time zone may have no IANA name, or one that
    /// `chrono-tz` does not know.
    fn try_to_chrono(&self) -> Result<DateTime<Tz>, Error> {
        let utc: DateTime<Utc> = self.timestamp().to_chrono();
        let tz: Tz = match self.time_zone().try_to_chrono() {
            Ok(tz) => tz,
            Err(e) => return Err(e),
        };
        Ok(utc.with_timezone(tz))
    }
}

/// Converting a `chrono` date-time at a fixed offset to `jiff` succeeds exactly in `jiff`'s
/// range, and gives the same instant at the same offset, in the fixed-offset zone of that offset.
pub proof fn law_fixed_datetime_to_zoned_keeps_offset(
    dt: DateTime<FixedOffset>,
    r: Result<Zoned, Error>,
)
    requires
        <DateTime<FixedOffset> as TryToJiff<Zoned>>::try_to_jiff_ensures(&dt, r),
    ensures
        r is Ok <==> in_jiff_range(dt.spec_instant()),
        r matches Ok(z) ==> utc_to_timestamp(dt.spec_instant()) == Some(z@.timestamp),
        r matches Ok(z) ==> z@.offset == dt.spec_zone()@,
        r matches Ok(z) ==> z@.time_zone.fixed_offset == Some(dt.spec_zone()@),
{
}

/// Converting a `jiff` zoned instant to a `chrono` date-time at a fixed offset succeeds exactly
/// when its offset is under a day either way, and keeps the instant and the offset.
pub proof fn law_zoned_to_fixed_datetime_keeps_offset(
    z: Zoned,
    r: Result<DateTime<FixedOffset>, Error>,
)
    requires
        <Zoned as TryToChrono<DateTime<FixedOffset>>>::try_to_chrono_ensures(&z, r),
    ensures
        r is Ok <==> -86_400 < z@.offset < 86_400,
        r matches Ok(d) ==> d.spec_zone()@ == z@.offset,
        r matches Ok(d) ==> d.spec_instant() == timestamp_to_utc(z@.timestamp),
{
}

/// Converting a `chrono` UTC date-time to `jiff` succeeds exactly in `jiff`'s range, and gives
/// the same instant in `jiff`'s UTC zone at offset zero.
pub proof fn law_utc_datetime_to_zoned_is_utc(dt: DateTime<Utc>, r: Result<Zoned, Error>)
    requires
        <DateTime<Utc> as TryToJiff<Zoned>>::try_to_jiff_ensures(&dt, r),
    ensures
        r is Ok <==> in_jiff_range(dt.spec_instant()),
        r matches Ok(z) ==> utc_to_timestamp(dt.spec_instant()) == Some(z@.timestamp),
        r matches Ok(z) ==> z@.offset == 0 && z@.time_zone.fixed_offset == Some(0int)
            && z@.time_zone.iana_name == Some("UTC"@),
{
}

/// Converting a `chrono` date-time in a `chrono_tz::Tz` to `jiff` fails only outside `jiff`'s
/// range or when `jiff`'s database lookup of the zone's own name fails; otherwise it gives the
/// same instant in a zone of that name (up to ASCII case), at that zone's own offset there.
pub proof fn law_tz_datetime_to_zoned_fails_only_out_of_range_or_in_lookup(
    dt: DateTime<Tz>,
    r: Result<Zoned, Error>,
)
    requires
        <DateTime<Tz> as TryToJiff<Zoned>>::try_to_jiff_ensures(&dt, r),
    ensures
        r matches Err(e) ==> (!in_jiff_range(dt.spec_instant()) || e.spec_failed_lookup() == Some(
            dt.spec_zone()@,
        )),
        r is Ok ==> in_jiff_range(dt.spec_instant()),
        r matches Ok(z) ==> utc_to_timestamp(dt.spec_instant()) == Some(z@.timestamp),
        r matches Ok(z) ==> (z@.time_zone.iana_name matches Some(n) && same_ignoring_ascii_case(
            n,
            dt.spec_zone()@,
        )),
        r matches Ok(z) ==> z@.offset == jiff_zone_offset_at(
            z.spec_jiff_zone(),
            z@.timestamp.second,
            z@.timestamp.nanosecond,
        ),
{
}

/// Converting a `jiff` zoned instant to a `chrono` date-time in a `chrono_tz::Tz` gives the same
/// instant in the `chrono-tz` zone of its time zone's own IANA name: a zone without a name never
/// converts, and a named one converts exactly when `chrono-tz` knows its name.
pub proof fn law_zoned_to_tz_datetime_keeps_name(z: Zoned, r: Result<DateTime<Tz>, Error>)
    requires
        <Zoned as TryToChrono<DateTime<Tz>>>::try_to_chrono_ensures(&z, r),
    ensures
        r matches Ok(d) ==> z@.time_zone.iana_name == Some(d.spec_zone()@),
        r matches Ok(d) ==> d.spec_instant() == timestamp_to_utc(z@.timestamp),
        z@.time_zone.iana_name is None ==> r is Err,
        z@.time_zone.iana_name matches Some(n) ==> (r is Ok <==> chrono_tz_knows(n)),
{
}

/// A `chrono` instant at a fixed offset, in `jiff`'s range and not a leap second, converts to
/// `jiff` and back to the same instant at the same offset.
pub proof fn law_zoned_fixed_roundtrip_chrono_jiff_chrono(i: Instant, offset: int)
    requires
        chrono_instant_valid(i),
        chrono_offset_valid(offset),
        in_jiff_range(i),
        i.nanosecond < 1_000_000_000,
    ensures
        fixed_datetime_to_zoned(i, offset) matches Some(z) && zoned_to_fixed_datetime(z) == Some(
            (i, offset),
        ),
{
}

/// A `jiff` instant whose offset `chrono` can hold converts to `chrono` and back to the same
/// timestamp at the same offset.
pub proof fn law_zoned_fixed_roundtrip_jiff_chrono_jiff(z: ZonedView)
    requires
        jiff_instant_valid(z.timestamp),
        jiff_offset_valid(z.offset),
        chrono_offset_valid(z.offset),
    ensures
        zoned_to_fixed_datetime(z) matches Some((i, offset)) && fixed_datetime_to_zoned(i, offset)
            matches Some(back) && back.timestamp == z.timestamp && back.offset == z.offset,
{
}

/// A `chrono` UTC instant in `jiff`'s range and not a leap second converts to `jiff`, at offset
/// zero, and back to itself.
pub proof fn law_zoned_utc_roundtrip_chrono_jiff_chrono(i: Instant)
    requires
        chrono_instant_valid(i),
        in_jiff_range(i),
        i.nanosecond < 1_000_000_000,
    ensures
        utc_datetime_to_zoned(i) matches Some(z) && z.offset == 0 && zoned_to_utc_datetime(z) == i,
{
}

/// Every `jiff` zoned instant converts to a `chrono` UTC instant and back to the same
/// timestamp.
pub proof fn law_zoned_utc_roundtrip_jiff_chrono_jiff(z: ZonedView)
    requires
        jiff_instant_valid(z.timestamp),
    ensures
        chrono_instant_valid(zoned_to_utc_datetime(z)),
        utc_datetime_to_zoned(zoned_to_utc_datetime(z)) matches Some(back) && back.timestamp
            == z.timestamp,
{
}

/// A `jiff` zoned instant whose time zone has an IANA name that `chrono-tz` knows converts to
/// the same instant in the `chrono-tz` zone of that name, whose instant converts back to the
/// same timestamp.
pub proof fn law_zoned_named_roundtrip_keeps_instant(z: ZonedView, name: Seq<char>)
    requires
        jiff_instant_valid(z.timestamp),
        z.time_zone.iana_name == Some(name),
        chrono_tz_knows(name),
    ensures
        zoned_to_tz_datetime(z) matches Some((i, n)) && n == name && utc_to_timestamp(i) == Some(
            z.timestamp,
        ),
{
}

} // verus!
