//! Time zones: `chrono::Utc`, `chrono::FixedOffset` and `chrono_tz::Tz` against
//! `jiff::tz::TimeZone`.
use vstd::prelude::*;

use crate::chrono04::{chrono_tz_knows, FixedOffset, Tz, Utc};
use crate::chrono04_jiff02::offset::{fixed_offset_to_jiff, offset_out_of_range_error, offset_to_chrono};
use crate::civil::{chrono_offset_valid, jiff_offset_valid, same_ignoring_ascii_case};
use crate::error::{Error, ErrorSource};
use crate::jiff02::{Offset, Zone, ZoneView};
use crate::{ToJiff, TryToChrono, TryToJiff};

verus! {

/// What `jiff::tz::TimeZone::fixed` of an offset reports: the name "UTC" for a zero offset and
/// no name otherwise, and the offset as its fixed offset.
pub open spec fn fixed_zone(seconds: int) -> ZoneView {
    ZoneView {
        iana_name: if seconds == 0 { Some("UTC"@) } else { None },
        fixed_offset: Some(seconds),
    }
}

/// What `jiff::tz::TimeZone::UTC` reports: the name "UTC" and the fixed offset zero.
pub open spec fn utc_zone() -> ZoneView {
    ZoneView { iana_name: Some("UTC"@), fixed_offset: Some(0) }
}

/// What converting a `jiff` time zone to a `chrono` fixed offset gives: its fixed offset when
/// it has one that `chrono` can hold, otherwise nothing.
pub open spec fn zone_to_fixed_offset(z: ZoneView) -> Option<int> {
    match z.fixed_offset {
        Some(seconds) => offset_to_chrono(seconds),
        None => None,
    }
}

/// Whether converting a `jiff` time zone to `chrono::Utc` succeeds: when its fixed offset is
/// zero.
pub open spec fn zone_is_utc(z: ZoneView) -> bool {
    z.fixed_offset == Some(0int)
}

/// What converting a `jiff` time zone to a `chrono_tz::Tz` gives: the zone of its IANA name
/// when it has one that `chrono-tz` knows, otherwise nothing.
pub open spec fn zone_to_tz(z: ZoneView) -> Option<Seq<char>> {
    match z.iana_name {
        Some(name) => if chrono_tz_knows(name) { Some(name) } else { None },
        None => None,
    }
}

/// The error of converting a `jiff` time zone to a `chrono_tz::Tz` that fails: a zone without
/// an IANA name, or a name that `chrono-tz` does not know.
pub open spec fn zone_to_tz_error(z: ZoneView, e: Error) -> bool {
    match z.iana_name {
        Some(_) => e.spec_message() == "failed to parse timezone"@ && e.spec_source() matches Some(
            ErrorSource::TimeZoneParse(_),
        ),
        None => e.spec_message() == "time zone has no IANA name"@ && e.spec_source() is None,
    }
}

/// The error of converting a `jiff` time zone to a `chrono` fixed offset that fails: a zone
/// that is not a fixed offset, or an offset of a day or more.
pub open spec fn zone_to_fixed_offset_error(z: ZoneView, e: Error) -> bool {
    match z.fixed_offset {
        Some(_) => offset_out_of_range_error(e),
        None => e.spec_message() == "time zone is not a fixed offset"@ && e.spec_source() is None,
    }
}

impl TryToChrono<Tz> for Zone {
    open spec fn try_to_chrono_ensures(&self, r: Result<Tz, Error>) -> bool {
        &&& r is Ok <==> zone_to_tz(self@) is Some
        &&& r matches Ok(tz) ==> zone_to_tz(self@) == Some(tz@)
        &&& r matches Err(e) ==> zone_to_tz_error(self@, e)
    }

    /// Convert a `jiff::tz::TimeZone` to a `chrono_tz::Tz`.
    ///
    /// This conversion is fallible because `jiff` also supports time zones without an IANA name
    /// (e.g. fixed-offset and POSIX time zones), and because `chrono-tz`'s database of IANA
    /// names may not exactly match `jiff`'s.
    fn try_to_chrono(&self) -> Result<Tz, Error> {
        let name = match self.iana_name() {
            Some(name) => name,
            None => return Err(Error::new("time zone has no IANA name")),
        };
        match Tz::parse(name) {
            Ok(tz) => Ok(tz),
            Err(e) => Err(Error::from_tz_parse(e)),
        }
    }
}

impl TryToJiff<Zone> for Tz {
    open spec fn try_to_jiff_ensures(&self, r: Result<Zone, Error>) -> bool {
        &&& r matches Ok(z) ==> z@.iana_name is Some
        &&& r matches Ok(z) ==> (z@.iana_name matches Some(n) ==> same_ignoring_ascii_case(n, self@))
        &&& r matches Err(e) ==> e.spec_source() == Some(ErrorSource::Jiff)
        &&& r matches Err(e) ==> e.spec_failed_lookup() == Some(self@)
    }

    /// Convert a `chrono_tz::Tz` to a `jiff::tz::TimeZone`: the zone of the same IANA name
    /// (without regard to ASCII case) in the time zone database `jiff` finds on this machine.
    ///
    /// This conversion is fallible because `jiff`'s time zone database may not exactly match
    /// `chrono-tz`'s; whether it succeeds depends on that database.
    fn try_to_jiff(&self) -> Result<Zone, Error> {
        Zone::get(self.name())
    }
}

impl TryToChrono<FixedOffset> for Zone {
    open spec fn try_to_chrono_ensures(&self, r: Result<FixedOffset, Error>) -> bool {
        &&& r is Ok <==> zone_to_fixed_offset(self@) is Some
        &&& r matches Ok(o) ==> zone_to_fixed_offset(self@) == Some(o@)
        &&& r matches Err(e) ==> zone_to_fixed_offset_error(self@, e)
    }

    /// Convert a `jiff::tz::TimeZone` to a `chrono::FixedOffset`.
    ///
    /// This conversion is fallible because the time zone might not be a fixed offset, or its
    /// offset might be out of `chrono`'s range.
    fn try_to_chrono(&self) -> Result<FixedOffset, Error> {
        let offset = match self.to_fixed_offset() {
            Some(offset) => offset,
            None => return Err(Error::new("time zone is not a fixed offset")),
        };
        offset.try_to_chrono()
    }
}

impl ToJiff<Zone> for FixedOffset {
    open spec fn to_jiff_ensures(&self, r: Zone) -> bool {
        &&& r@ == fixed_zone(fixed_offset_to_jiff(self@))
    }

    /// Convert a `chrono::FixedOffset` to a `jiff::tz::TimeZone`: the fixed-offset zone of the
    /// same offset (which `jiff` makes its UTC zone for a zero offset).
    ///
    /// This conversion is infallible because every `chrono` offset is a `jiff` offset.
    fn to_jiff(&self) -> Zone {
        let offset: Offset = self.to_jiff();
        Zone::fixed(offset)
    }
}

impl TryToChrono<Utc> for Zone {
    open spec fn try_to_chrono_ensures(&self, r: Result<Utc, Error>) -> bool {
        &&& r is Ok <==> zone_is_utc(self@)
        &&& r matches Err(e) ==> e.spec_message() == "time zone is not UTC"@ && e.spec_source() is None
    }

    /// Convert a `jiff::tz::TimeZone` to `chrono::Utc`.
    ///
    /// This conversion is fallible because the time zone might not be UTC: it succeeds exactly
    /// for the zones whose fixed offset is zero.
    fn try_to_chrono(&self) -> Result<Utc, Error> {
        match self.to_fixed_offset() {
            Some(offset) => {
                if offset.seconds() == 0 {
                    return Ok(Utc);
                }
            },
            None => {},
        }
        Err(Error::new("time zone is not UTC"))
    }
}

impl ToJiff<Zone> for Utc {
    open spec fn to_jiff_ensures(&self, r: Zone) -> bool {
        &&& r@ == utc_zone()
    }

    /// Convert `chrono::Utc` to a `jiff::tz::TimeZone`: always `jiff::tz::TimeZone::UTC`.
    fn to_jiff(&self) -> Zone {
        Zone::utc()
    }
}

/// Converting a `chrono` fixed offset to a `jiff` time zone gives the zone whose fixed offset is
/// that same number of seconds, named "UTC" exactly when the offset is zero.
pub proof fn law_fixed_offset_zone_keeps_offset(o: FixedOffset, r: Zone)
    requires
        <FixedOffset as ToJiff<Zone>>::to_jiff_ensures(&o, r),
    ensures
        r@.fixed_offset == Some(o@),
        r@.iana_name is Some <==> o@ == 0,
{
}

/// Converting a `jiff` time zone to a `chrono` fixed offset succeeds exactly for a zone with a
/// fixed offset under a day either way, and gives that same number of seconds.
pub proof fn law_zone_to_fixed_offset_keeps_offset(z: Zone, r: Result<FixedOffset, Error>)
    requires
        <Zone as TryToChrono<FixedOffset>>::try_to_chrono_ensures(&z, r),
    ensures
        r is Ok <==> (z@.fixed_offset matches Some(s) && -86_400 < s < 86_400),
        r matches Ok(o) ==> z@.fixed_offset == Some(o@),
{
}

/// Converting a `jiff` time zone to a `chrono_tz::Tz` gives the `chrono-tz` zone of the zone's
/// own IANA name: a zone without a name never converts, and a named zone converts exactly when
/// `chrono-tz` knows its name.
pub proof fn law_zone_to_tz_keeps_name(z: Zone, r: Result<Tz, Error>)
    requires
        <Zone as TryToChrono<Tz>>::try_to_chrono_ensures(&z, r),
    ensures
        r matches Ok(tz) ==> z@.iana_name == Some(tz@),
        z@.iana_name is None ==> r is Err,
        z@.iana_name matches Some(n) ==> (r is Ok <==> chrono_tz_knows(n)),
{
}

/// Converting a `chrono_tz::Tz` to a `jiff` time zone fails only when `jiff`'s database lookup
/// of the zone's own name fails, and otherwise gives a zone of that name up to ASCII case.
pub proof fn law_tz_to_jiff_fails_only_in_lookup(tz: Tz, r: Result<Zone, Error>)
    requires
        <Tz as TryToJiff<Zone>>::try_to_jiff_ensures(&tz, r),
    ensures
        r matches Err(e) ==> e.spec_failed_lookup() == Some(tz@),
        r matches Ok(z) ==> (z@.iana_name matches Some(n) && same_ignoring_ascii_case(n, tz@)),
{
}

/// Every `chrono` fixed offset becomes a `jiff` fixed-offset zone that converts back to it.
pub proof fn law_fixed_zone_roundtrip_chrono_jiff_chrono(seconds: int)
    requires
        chrono_offset_valid(seconds),
    ensures
        zone_to_fixed_offset(fixed_zone(fixed_offset_to_jiff(seconds))) == Some(seconds),
{
}

/// A `jiff` zone with a fixed offset that `chrono` can hold converts to that offset, whose
/// zone again has that fixed offset.
pub proof fn law_fixed_zone_roundtrip_jiff_chrono_jiff(z: ZoneView)
    requires
        z.fixed_offset matches Some(s) && jiff_offset_valid(s) && chrono_offset_valid(s),
    ensures
        zone_to_fixed_offset(z) matches Some(c) && fixed_zone(fixed_offset_to_jiff(c)).fixed_offset
            == z.fixed_offset,
{
}

/// A `jiff` zone that is not a fixed offset converts to no `chrono` fixed offset and is not UTC.
pub proof fn law_dynamic_zone_is_neither_fixed_nor_utc(z: ZoneView)
    requires
        z.fixed_offset is None,
    ensures
        zone_to_fixed_offset(z) is None,
        !zone_is_utc(z),
{
}

/// `chrono::Utc` becomes a `jiff` zone that converts back to `chrono::Utc`, and a nonzero fixed
/// offset becomes a zone that does not.
pub proof fn law_utc_zone_roundtrip(seconds: int)
    ensures
        zone_is_utc(utc_zone()),
        zone_is_utc(fixed_zone(seconds)) <==> seconds == 0,
{
}

} // verus!
