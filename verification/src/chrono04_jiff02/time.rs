//! Times of day: `chrono::NaiveTime` and `jiff::civil::Time`.
use vstd::prelude::*;

use crate::chrono04::NaiveTime;
use crate::civil::{chrono_time_valid, clock_time, is_leap_second, jiff_time_valid, ClockTime};
use crate::jiff02::Time;
use crate::{ToChrono, ToJiff};

verus! {

/// The nanoseconds of a `chrono` time clamped to the last nanosecond of the second, which is
/// how a leap second becomes a `jiff` time.
pub open spec fn clamp_nanosecond(nanosecond: int) -> int {
    if nanosecond < 999_999_999 { nanosecond } else { 999_999_999 }
}

/// What converting a `chrono` time to `jiff` gives: the same time, a leap second becoming the
/// last nanosecond of its minute.
pub open spec fn naive_time_to_jiff(t: ClockTime) -> ClockTime {
    clock_time(t.hour, t.minute, t.second, clamp_nanosecond(t.nanosecond))
}

/// What converting a `jiff` time to `chrono` gives: the same time.
pub open spec fn time_to_chrono(t: ClockTime) -> ClockTime {
    t
}

impl ToJiff<Time> for NaiveTime {
    open spec fn to_jiff_ensures(&self, r: Time) -> bool {
        &&& r@ == naive_time_to_jiff(self@)
    }

    /// Convert a `chrono::NaiveTime` to a `jiff::civil::Time`.
    ///
    /// This conversion is infallible with one caveat: `jiff` does not support leap seconds, so a
    /// `chrono` leap second is converted to the last nanosecond of its minute, as `jiff` itself
    /// does when it parses one.
    fn to_jiff(&self) -> Time {
        // The hour (0 to 23), minute (0 to 59) and second (0 to 59) fit in an `i8`, and the
        // nanoseconds clamped below one second fit in an `i32`.
        Time::new(
            self.hour() as i8,
            self.minute() as i8,
            self.second() as i8,
            self.nanosecond().min(999_999_999) as i32,
        ).expect("Conversion never fails")
    }
}

impl ToChrono<NaiveTime> for Time {
    open spec fn to_chrono_ensures(&self, r: NaiveTime) -> bool {
        &&& r@ == time_to_chrono(self@)
    }

    /// Convert a `jiff::civil::Time` to a `chrono::NaiveTime`.
    ///
    /// This conversion is infallible because `jiff`'s times are a subset of `chrono`'s, and
    /// `jiff` has no leap seconds.
    fn to_chrono(&self) -> NaiveTime {
        NaiveTime::from_hms_nano_opt(
            self.hour() as u32,
            self.minute() as u32,
            self.second() as u32,
            self.subsec_nanosecond() as u32,
        ).expect("Conversion never fails")
    }
}

/// Every `jiff` time is a `chrono` time, and converts back to itself.
pub proof fn law_time_roundtrip_jiff_chrono_jiff(t: ClockTime)
    requires
        jiff_time_valid(t),
    ensures
        chrono_time_valid(time_to_chrono(t)),
        naive_time_to_jiff(time_to_chrono(t)) == t,
{
}

/// A `chrono` time that is not a leap second keeps every component in `jiff`, and converts
/// back to itself.
pub proof fn law_time_roundtrip_chrono_jiff_chrono(t: ClockTime)
    requires
        chrono_time_valid(t),
        !is_leap_second(t),
    ensures
        naive_time_to_jiff(t) == t,
        jiff_time_valid(naive_time_to_jiff(t)),
        time_to_chrono(naive_time_to_jiff(t)) == t,
{
}

/// A `chrono` leap second becomes the last nanosecond of its minute in `jiff`: same hour and
/// minute, second 59 and nanosecond 999,999,999.
pub proof fn law_time_leap_second_normalizes(t: ClockTime)
    requires
        chrono_time_valid(t),
        is_leap_second(t),
    ensures
        naive_time_to_jiff(t) == clock_time(t.hour, t.minute, 59, 999_999_999),
        jiff_time_valid(naive_time_to_jiff(t)),
{
}

} // verus!
