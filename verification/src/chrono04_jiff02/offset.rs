//! UTC offsets: `chrono::FixedOffset` and `jiff::tz::Offset`.
use vstd::prelude::*;

use crate::chrono04::FixedOffset;
use crate::civil::{chrono_offset_valid, jiff_offset_valid};
use crate::error::{Error, ErrorSource, OutOfRangeError};
use crate::jiff02::Offset;
use crate::{ToJiff, TryToChrono};

verus! {

/// What converting a `chrono` offset to `jiff` gives: the same number of seconds.
pub open spec fn fixed_offset_to_jiff(seconds: int) -> int {
    seconds
}

/// What converting a `jiff` offset to `chrono` gives: the same number of seconds when it is
/// under a day either way, otherwise nothing.
pub open spec fn offset_to_chrono(seconds: int) -> Option<int> {
    if chrono_offset_valid(seconds) { Some(seconds) } else { None }
}

/// The error of converting a `jiff` offset that `chrono` cannot hold.
pub open spec fn offset_out_of_range_error(e: Error) -> bool {
    &&& e.spec_message() == "Value out of range for target type"@
    &&& e.spec_source() == Some(ErrorSource::OutOfRange(OutOfRangeError))
}

impl ToJiff<Offset> for FixedOffset {
    open spec fn to_jiff_ensures(&self, r: Offset) -> bool {
        r@ == fixed_offset_to_jiff(self@)
    }

    /// Convert a `chrono::FixedOffset` to a `jiff::tz::Offset`.
    ///
    /// This conversion is infallible because `chrono`'s offset range (under a day either way)
    /// is a subset of `jiff`'s (±25:59:59).
    fn to_jiff(&self) -> Offset {
        Offset::from_seconds(self.local_minus_utc()).expect("Conversion never fails")
    }
}

impl TryToChrono<FixedOffset> for Offset {
    open spec fn try_to_chrono_ensures(&self, r: Result<FixedOffset, Error>) -> bool {
        &&& r is Ok <==> offset_to_chrono(self@) is Some
        &&& r matches Ok(o) ==> offset_to_chrono(self@) == Some(o@)
        &&& r matches Err(e) ==> offset_out_of_range_error(e)
    }

    /// Convert a `jiff::tz::Offset` to a `chrono::FixedOffset`.
    ///
    /// This conversion is fallible because `jiff`'s offset range (±25:59:59) is larger than
    /// `chrono`'s (under a day either way): it fails exactly for the offsets of a day or more.
    fn try_to_chrono(&self) -> Result<FixedOffset, Error> {
        match FixedOffset::east_opt(self.seconds()) {
            Some(o) => Ok(o),
            None => {
                let cause = OutOfRangeError;
                Err(Error::with_source(cause.message(), ErrorSource::OutOfRange(cause)))
            },
        }
    }
}

/// Converting a `chrono` offset to `jiff` keeps its number of seconds.
pub proof fn law_offset_to_jiff_keeps_seconds(o: FixedOffset, r: Offset)
    requires
        <FixedOffset as ToJiff<Offset>>::to_jiff_ensures(&o, r),
    ensures
        r@ == o@,
{
}

/// Converting a `jiff` offset to `chrono` succeeds exactly for an offset under a day either way,
/// and keeps its number of seconds.
pub proof fn law_offset_to_chrono_keeps_seconds(o: Offset, r: Result<FixedOffset, Error>)
    requires
        <Offset as TryToChrono<FixedOffset>>::try_to_chrono_ensures(&o, r),
    ensures
        r is Ok <==> -86_400 < o@ < 86_400,
        r matches Ok(c) ==> c@ == o@,
{
}

/// Every `chrono` offset is a `jiff` offset, and converts back to itself.
pub proof fn law_offset_roundtrip_chrono_jiff_chrono(seconds: int)
    requires
        chrono_offset_valid(seconds),
    ensures
        jiff_offset_valid(fixed_offset_to_jiff(seconds)),
        offset_to_chrono(fixed_offset_to_jiff(seconds)) == Some(seconds),
{
}

/// A `jiff` offset converts to `chrono` exactly when it is under a day either way, keeping its
/// seconds, and then converts back to itself.
pub proof fn law_offset_roundtrip_jiff_chrono_jiff(seconds: int)
    requires
        jiff_offset_valid(seconds),
    ensures
        offset_to_chrono(seconds) is Some <==> -86_400 < seconds < 86_400,
        offset_to_chrono(seconds) matches Some(c) ==> fixed_offset_to_jiff(c) == seconds,
{
}

} // verus!
