//! Instants: `chrono::DateTime<Utc>` and `jiff::Timestamp`.
use vstd::prelude::*;

use crate::chrono04::{DateTime, Utc};
use crate::chrono04_jiff02::time::clamp_nanosecond;
use crate::civil::{
    chrono_instant_valid, instant, jiff_instant_valid, jiff_max_second, jiff_min_second,
    jiff_timestamp_new, total_nanos, Instant,
};
use crate::error::{Error, ErrorSource};
use crate::jiff02::Timestamp;
use crate::{ToChrono, TryToJiff};

verus! {

/// What converting a `chrono` instant to `jiff` gives: `jiff::Timestamp::new` of its seconds
/// and of its nanoseconds clamped below one second (so a leap second becomes the last
/// nanosecond of the second before it).
pub open spec fn utc_to_timestamp(i: Instant) -> Option<Instant> {
    jiff_timestamp_new(i.second, clamp_nanosecond(i.nanosecond))
}

/// What converting a `jiff` instant to `chrono` gives: the same instant with non-negative
/// nanoseconds, borrowing a second when `jiff`'s nanoseconds are negative.
pub open spec fn timestamp_to_utc(i: Instant) -> Instant {
    if i.nanosecond < 0 {
        instant(i.second - 1, i.nanosecond + 1_000_000_000)
    } else {
        i
    }
}

/// Whether the whole seconds of an instant are in `jiff`'s range.
pub open spec fn in_jiff_range(i: Instant) -> bool {
    jiff_min_second() <= i.second <= jiff_max_second()
}

impl TryToJiff<Timestamp> for DateTime<Utc> {
    open spec fn try_to_jiff_ensures(&self, r: Result<Timestamp, Error>) -> bool {
        &&& r is Ok <==> in_jiff_range(self.spec_instant())
        &&& r is Ok <==> utc_to_timestamp(self.spec_instant()) is Some
        &&& r matches Ok(t) ==> utc_to_timestamp(self.spec_instant()) == Some(t@)
        &&& r matches Err(e) ==> e.spec_source() == Some(ErrorSource::Jiff)
    }

    /// Convert a `chrono::DateTime<chrono::Utc>` to a `jiff::Timestamp`.
    ///
    /// This conversion is fallible because `chrono`'s range is larger than `jiff`'s: it fails,
    /// with `jiff`'s error, exactly when the seconds are outside `jiff`'s range. A leap second
    /// is converted to the last nanosecond of the second before it.
    fn try_to_jiff(&self) -> Result<Timestamp, Error> {
        Timestamp::new(self.timestamp(), self.timestamp_subsec_nanos().min(999_999_999) as i32)
    }
}

impl ToChrono<DateTime<Utc>> for Timestamp {
    open spec fn to_chrono_ensures(&self, r: DateTime<Utc>) -> bool {
        &&& r.spec_instant() == timestamp_to_utc(self@)
    }

    /// Convert a `jiff::Timestamp` to a `chrono::DateTime<chrono::Utc>`.
    ///
    /// This conversion is infallible because `jiff`'s range is a subset of `chrono`'s.
    fn to_chrono(&self) -> DateTime<Utc> {
        // `jiff`'s seconds and nanoseconds share a sign (both negative before the Unix epoch),
        // whereas `chrono` expects non-negative nanoseconds.
        let mut secs = self.as_second();
        let mut nanos = self.subsec_nanosecond();
        if nanos < 0 {
            secs -= 1;
            nanos += 1_000_000_000;
        }
        DateTime::from_timestamp(secs, nanos as u32).expect("Conversion never fails")
    }
}

/// Every `jiff` instant is a `chrono` instant, and converts back to itself.
pub proof fn law_timestamp_roundtrip_jiff_chrono_jiff(i: Instant)
    requires
        jiff_instant_valid(i),
    ensures
        chrono_instant_valid(timestamp_to_utc(i)),
        utc_to_timestamp(timestamp_to_utc(i)) == Some(i),
{
}

/// A `chrono` instant converts to `jiff` exactly when its seconds are in `jiff`'s range; then,
/// unless it is a leap second, it converts back to itself.
pub proof fn law_timestamp_roundtrip_chrono_jiff_chrono(i: Instant)
    requires
        chrono_instant_valid(i),
    ensures
        utc_to_timestamp(i) is Some <==> in_jiff_range(i),
        utc_to_timestamp(i) matches Some(j) ==> jiff_instant_valid(j),
        i.nanosecond < 1_000_000_000 ==> (utc_to_timestamp(i) matches Some(j) ==> timestamp_to_utc(j)
            == i),
{
}

/// Converting a `chrono` instant to `jiff` keeps the instant, counted in nanoseconds, except
/// that a leap second becomes the last nanosecond of the second before it.
pub proof fn law_timestamp_chrono_jiff_same_instant(i: Instant)
    requires
        chrono_instant_valid(i),
    ensures
        utc_to_timestamp(i) matches Some(j) ==> total_nanos(j) == total_nanos(
            instant(i.second, clamp_nanosecond(i.nanosecond)),
        ),
        i.nanosecond >= 1_000_000_000 ==> (utc_to_timestamp(i) matches Some(j) ==> total_nanos(j)
            == i.second * 1_000_000_000 + 999_999_999),
{
}

/// Converting a `jiff` instant to `chrono` keeps the instant, counted in nanoseconds.
pub proof fn law_timestamp_jiff_chrono_same_instant(i: Instant)
    requires
        jiff_instant_valid(i),
    ensures
        total_nanos(timestamp_to_utc(i)) == total_nanos(i),
{
}

} // verus!
