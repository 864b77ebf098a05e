//! Calendar dates: `chrono::NaiveDate` and `jiff::civil::Date`.
use vstd::prelude::*;

use crate::chrono04::NaiveDate;
use crate::civil::{chrono_date_valid, jiff_date_valid, jiff_max_year, jiff_min_year, CivilDate};
use crate::error::{Error, ErrorSource};
use crate::jiff02::Date;
use crate::text::{decimal, push_decimal};
use vstd::string::StringExecFns;
use crate::{ToChrono, TryToJiff};

verus! {

/// What converting a `chrono` date to `jiff` gives: the same date when its year is in `jiff`'s
/// range, otherwise nothing.
pub open spec fn naive_date_to_jiff(d: CivilDate) -> Option<CivilDate> {
    if jiff_min_year() <= d.year <= jiff_max_year() {
        Some(d)
    } else {
        None
    }
}

/// What converting a `jiff` date to `chrono` gives: the same date.
pub open spec fn date_to_chrono(d: CivilDate) -> CivilDate {
    d
}

/// Whether an integer fits in an `i16`.
pub open spec fn fits_i16(x: int) -> bool {
    -32_768 <= x <= 32_767
}

/// The message of the error for a `chrono` year that does not fit in `jiff`'s `i16` year.
pub open spec fn year_out_of_range_message(year: int) -> Seq<char> {
    "chrono year "@ + decimal(year) + " is out of range for jiff's i16 year"@
}

/// The error of converting a `chrono` date whose year `jiff` cannot hold: the message above
/// when the year does not even fit in an `i16`, otherwise the error `jiff` gives.
pub open spec fn date_error_matches(year: int, e: Error) -> bool {
    if fits_i16(year) {
        e.spec_source() == Some(ErrorSource::Jiff)
    } else {
        e.spec_message() == year_out_of_range_message(year) && e.spec_source() is None
    }
}

impl TryToJiff<Date> for NaiveDate {
    open spec fn try_to_jiff_ensures(&self, r: Result<Date, Error>) -> bool {
        &&& r is Ok <==> naive_date_to_jiff(self@) is Some
        &&& r matches Ok(d) ==> naive_date_to_jiff(self@) == Some(d@)
        &&& r matches Err(e) ==> date_error_matches(self@.year, e)
    }

    /// Convert a `chrono::NaiveDate` to a `jiff::civil::Date`.
    ///
    /// This conversion is fallible because `chrono`'s date range is larger than `jiff`'s date
    /// range: it fails exactly for the years outside `-9999..=9999`.
    fn try_to_jiff(&self) -> Result<Date, Error> {
        let year = self.year();
        if year < -32_768 || year > 32_767 {
            let mut message = "chrono year ".to_owned();
            push_decimal(&mut message, year);
            message.append(" is out of range for jiff's i16 year");
            return Err(Error::new(message.as_str()));
        }
        // The month (1 to 12) and the day (1 to 31) fit in an `i8`.
        Date::new(year as i16, self.month() as i8, self.day() as i8)
    }
}

impl ToChrono<NaiveDate> for Date {
    open spec fn to_chrono_ensures(&self, r: NaiveDate) -> bool {
        &&& r@ == date_to_chrono(self@)
    }

    /// Convert a `jiff::civil::Date` to a `chrono::NaiveDate`.
    ///
    /// This conversion is infallible because `jiff`'s date range is a subset of `chrono`'s.
    fn to_chrono(&self) -> NaiveDate {
        NaiveDate::from_ymd_opt(self.year() as i32, self.month() as u32, self.day() as u32).expect(
            "Conversion never fails",
        )
    }
}

/// Every `jiff` date is a `chrono` date, and converts back to itself.
pub proof fn law_date_roundtrip_jiff_chrono_jiff(d: CivilDate)
    requires
        jiff_date_valid(d),
    ensures
        chrono_date_valid(date_to_chrono(d)),
        naive_date_to_jiff(date_to_chrono(d)) == Some(d),
{
}

/// A `chrono` date converts to `jiff` exactly when its year is in `jiff`'s range, keeping its
/// year, month and day, and then converts back to itself.
pub proof fn law_date_roundtrip_chrono_jiff_chrono(d: CivilDate)
    requires
        chrono_date_valid(d),
    ensures
        naive_date_to_jiff(d) is Some <==> jiff_min_year() <= d.year <= jiff_max_year(),
        naive_date_to_jiff(d) matches Some(j) ==> jiff_date_valid(j) && j == d
            && date_to_chrono(j) == d,
{
}

} // verus!
