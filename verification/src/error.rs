//! The error type of the fallible conversions, and the causes it can carry.
use vstd::prelude::*;

use crate::jiff02::TimeZoneLookupFailure;

verus! {

/// The text of `chrono_tz::ParseError`'s `Display` implementation, which writes
/// "failed to parse timezone".
#[verifier::external_body]
fn tz_parse_error_text(e: &chrono_tz::ParseError) -> (r: String)
    ensures
        r@ == "failed to parse timezone"@,
{
    format!("{}", e)
}

/// A value was out of range for the type it was converted to.
#[derive(Debug)]
pub struct OutOfRangeError;

impl OutOfRangeError {
    /// The human-readable description of this error.
    pub fn message(&self) -> (r: &'static str)
        ensures
            r@ == "Value out of range for target type"@,
    {
        "Value out of range for target type"
    }
}

/// A time zone was expected to be UTC and was not.
#[derive(Debug)]
pub struct NotUtcError;

impl NotUtcError {
    /// The human-readable description of this error.
    pub fn message(&self) -> (r: &'static str)
        ensures
            r@ == "Time zone is not UTC"@,
    {
        "Time zone is not UTC"
    }
}

/// A conversion to a `chrono` value failed.
#[derive(Debug)]
pub struct ToChronoError;

/// Why a `jiff` time zone could not be turned into a `chrono_tz::Tz`.
#[derive(Debug)]
pub enum TimeZoneConversionError {
    /// The time zone has no IANA name.
    NoIanaName,
    /// `chrono-tz` does not know the IANA name.
    TimeZoneParse(chrono_tz::ParseError),
}

impl TimeZoneConversionError {
    /// The human-readable description of this error.
    pub fn message(&self) -> (r: &'static str)
        ensures
            r@ == "Failed to convert time zone"@,
    {
        "Failed to convert time zone"
    }
}

/// The underlying cause of an [`Error`].
#[derive(Debug)]
pub enum ErrorSource {
    /// `jiff` rejected a value; the error's message is the text `jiff` gave.
    Jiff,
    /// `chrono-tz` did not recognise a time zone name.
    TimeZoneParse(chrono_tz::ParseError),
    /// A value was out of range for the target type.
    OutOfRange(OutOfRangeError),
}

/// The error type returned by the fallible conversions in this crate.
///
/// It carries a human-readable message and, where applicable, the underlying cause.
#[derive(Debug)]
pub struct Error {
    message: String,
    source: Option<ErrorSource>,
    failed_lookup: Option<String>,
}

impl Error {
    /// The message of this error.
    pub closed spec fn spec_message(self) -> Seq<char> {
        self.message@
    }

    /// The underlying cause of this error, if any.
    pub closed spec fn spec_source(self) -> Option<ErrorSource> {
        self.source
    }

    /// The time zone name that `jiff`'s database failed to find, when that is what this error
    /// reports.
    pub closed spec fn spec_failed_lookup(self) -> Option<Seq<char>> {
        match self.failed_lookup {
            Some(name) => Some(name@),
            None => None,
        }
    }

    /// An error with the given message and no underlying cause.
    pub fn new(message: &str) -> (r: Error)
        ensures
            r.spec_message() == message@,
            r.spec_source() is None,
            r.spec_failed_lookup() is None,
    {
        Error { message: message.to_owned(), source: None, failed_lookup: None }
    }

    /// An error with the given message, caused by `source`.
    pub fn with_source(message: &str, source: ErrorSource) -> (r: Error)
        ensures
            r.spec_message() == message@,
            r.spec_source() == Some(source),
            r.spec_failed_lookup() is None,
    {
        Error { message: message.to_owned(), source: Some(source), failed_lookup: None }
    }

    /// An error caused by `jiff`, whose message is `text`, the text `jiff` gave for it.
    pub fn from_jiff(text: String) -> (r: Error)
        ensures
            r.spec_message() == text@,
            r.spec_source() == Some(ErrorSource::Jiff),
            r.spec_failed_lookup() is None,
    {
        Error { message: text, source: Some(ErrorSource::Jiff), failed_lookup: None }
    }

    /// The error of a time zone name that `jiff`'s database does not have, whose message is the
    /// text `jiff` gave for it.
    pub(crate) fn from_failed_lookup(failure: TimeZoneLookupFailure) -> (r: Error)
        ensures
            r.spec_message() == failure.spec_text(),
            r.spec_source() == Some(ErrorSource::Jiff),
            r.spec_failed_lookup() == Some(failure.spec_name()),
    {
        let (text, name) = failure.into_parts();
        Error { message: text, source: Some(ErrorSource::Jiff), failed_lookup: Some(name) }
    }

    /// An error caused by `chrono-tz` not recognising a time zone name.
    pub fn from_tz_parse(e: chrono_tz::ParseError) -> (r: Error)
        ensures
            r.spec_message() == "failed to parse timezone"@,
            r.spec_source() == Some(ErrorSource::TimeZoneParse(e)),
            r.spec_failed_lookup() is None,
    {
        let text = tz_parse_error_text(&e);
        Error::with_source(text.as_str(), ErrorSource::TimeZoneParse(e))
    }

    /// The human-readable message of this error.
    pub fn message(&self) -> (r: &str)
        ensures
            r@ == self.spec_message(),
    {
        self.message.as_str()
    }

    /// The time zone name that `jiff`'s database failed to find, when that is what this error
    /// reports.
    pub fn failed_lookup(&self) -> (r: Option<&str>)
        ensures
            r is Some <==> self.spec_failed_lookup() is Some,
            r matches Some(n) ==> self.spec_failed_lookup() == Some(n@),
    {
        match &self.failed_lookup {
            Some(n) => Some(n.as_str()),
            None => None,
        }
    }

    /// The underlying cause of this error, if any.
    pub fn source(&self) -> (r: &Option<ErrorSource>)
        ensures
            *r == self.spec_source(),
    {
        &self.source
    }
}

} // verus!
