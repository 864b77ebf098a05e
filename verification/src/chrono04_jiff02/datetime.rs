//! Civil date-times: `chrono::NaiveDateTime` and `jiff::civil::DateTime`.
use vstd::prelude::*;

use crate::chrono04::{NaiveDate, NaiveDateTime, NaiveTime};
use crate::chrono04_jiff02::date::{date_error_matches, date_to_chrono, naive_date_to_jiff};
use crate::chrono04_jiff02::time::{naive_time_to_jiff, time_to_chrono};
use crate::civil::{
    chrono_date_valid, chrono_time_valid, is_leap_second, jiff_date_valid, jiff_max_year,
    jiff_min_year, jiff_time_valid, CivilDateTime,
};
use crate::error::Error;
use crate::jiff02::{Date, DateTime, Time};
use crate::{ToChrono, ToJiff, TryToJiff};

verus! {

/// What converting a `chrono` date-time to `jiff` gives: nothing when the date is out of
/// `jiff`'s range, otherwise the converted date at the converted time.
pub open spec fn naive_datetime_to_jiff(dt: CivilDateTime) -> Option<CivilDateTime> {
    match naive_date_to_jiff(dt.date) {
        Some(date) => Some(CivilDateTime { date, time: naive_time_to_jiff(dt.time) }),
        None => None,
    }
}

/// What converting a `jiff` date-time to `chrono` gives: the converted date at the converted
/// time.
pub open spec fn datetime_to_chrono(dt: CivilDateTime) -> CivilDateTime {
    CivilDateTime { date: date_to_chrono(dt.date), time: time_to_chrono(dt.time) }
}

impl TryToJiff<DateTime> for NaiveDateTime {
    open spec fn try_to_jiff_ensures(&self, r: Result<DateTime, Error>) -> bool {
        &&& r is Ok <==> naive_datetime_to_jiff(self@) is Some
        &&& r matches Ok(d) ==> naive_datetime_to_jiff(self@) == Some(d@)
        &&& r matches Err(e) ==> date_error_matches(self@.date.year, e)
    }

    /// Convert a `chrono::NaiveDateTime` to a `jiff::civil::DateTime`.
    ///
    /// This conversion is fallible because `chrono`'s date range is larger than `jiff`'s: it
    /// fails exactly when the date does, with the same error. A leap second becomes the last
    /// nanosecond of its minute.
    fn try_to_jiff(&self) -> Result<DateTime, Error> {
        let date: Date = match self.date().try_to_jiff() {
            Ok(d) => d,
            Err(e) => return Err(e),
        };
        let time: Time = self.time().to_jiff();
        let date_time = DateTime::from_parts(date, time);
        Ok(date_time)
    }
}

impl ToChrono<NaiveDateTime> for DateTime {
    open spec fn to_chrono_ensures(&self, r: NaiveDateTime) -> bool {
        &&& r@ == datetime_to_chrono(self@)
    }

    /// Convert a `jiff::civil::DateTime` to a `chrono::NaiveDateTime`.
    ///
    /// This conversion is infallible because the conversions of its date and of its time are.
    fn to_chrono(&self) -> NaiveDateTime {
        let date: NaiveDate = self.date().to_chrono();
        let time: NaiveTime = self.time().to_chrono();
        NaiveDateTime::new(date, time)
    }
}

/// Every `jiff` date-time converts to `chrono` and back to itself.
pub proof fn law_datetime_roundtrip_jiff_chrono_jiff(dt: CivilDateTime)
    requires
        jiff_date_valid(dt.date),
        jiff_time_valid(dt.time),
    ensures
        naive_datetime_to_jiff(datetime_to_chrono(dt)) == Some(dt),
{
}

/// A `chrono` date-time converts to `jiff` exactly when its year is in `jiff`'s range; then,
/// unless it is a leap second, it keeps every component and converts back to itself.
pub proof fn law_datetime_roundtrip_chrono_jiff_chrono(dt: CivilDateTime)
    requires
        chrono_date_valid(dt.date),
        chrono_time_valid(dt.time),
    ensures
        naive_datetime_to_jiff(dt) is Some <==> jiff_min_year() <= dt.date.year <= jiff_max_year(),
        !is_leap_second(dt.time) ==> (naive_datetime_to_jiff(dt) matches Some(j) ==> j == dt
            && datetime_to_chrono(j) == dt),
{
}

} // verus!
