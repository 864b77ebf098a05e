//! The outside types that the library carries without looking inside them.
use vstd::prelude::*;

verus! {

#[verifier::external_type_specification]
#[verifier::external_body]
pub struct ExTzParseError(chrono_tz::ParseError);

#[verifier::external_type_specification]
#[verifier::external_body]
pub struct ExJiffTimeZone(jiff::tz::TimeZone);

} // verus!
