//! Conversions between `chrono` and `jiff` values.
//!
//! Both crates' values are held here as the plain numbers and names they expose
//! ([`chrono04`] and [`jiff02`]), made only through the constructors of those crates. The
//! conversions between them ([`chrono04_jiff02`]) are exposed as the [`ToJiff`]/[`ToChrono`]
//! traits for infallible conversions and the [`TryToJiff`]/[`TryToChrono`] traits for fallible
//! ones, and each states exactly what it returns and when it fails.
use vstd::prelude::*;

pub mod civil;
pub mod text;
pub mod error;
mod outside;
pub mod chrono04;
pub mod jiff02;
pub mod chrono04_jiff02;

pub use error::Error;

verus! {

/// Infallible conversions from `chrono` values to `jiff` values.
pub trait ToJiff<J> {
    /// What each conversion promises of its result.
    spec fn to_jiff_ensures(&self, r: J) -> bool;

    /// Convert this `chrono` value to the corresponding `jiff` value.
    ///
    /// This conversion is infallible, so it will always succeed.
    fn to_jiff(&self) -> (r: J)
        ensures
            self.to_jiff_ensures(r),
    ;
}

/// Infallible conversions from `jiff` values to `chrono` values.
pub trait ToChrono<C> {
    /// What each conversion promises of its result.
    spec fn to_chrono_ensures(&self, r: C) -> bool;

    /// Convert this `jiff` value to the corresponding `chrono` value.
    ///
    /// This conversion is infallible, so it will always succeed.
    fn to_chrono(&self) -> (r: C)
        ensures
            self.to_chrono_ensures(r),
    ;
}

/// Fallible conversions from `chrono` values to `jiff` values.
pub trait TryToJiff<J> {
    /// What each conversion promises of its result.
    spec fn try_to_jiff_ensures(&self, r: Result<J, Error>) -> bool;

    /// Convert this `chrono` value to the corresponding `jiff` value, or say why it cannot be.
    ///
    /// When each conversion fails is stated on its implementation.
    fn try_to_jiff(&self) -> (r: Result<J, Error>)
        ensures
            self.try_to_jiff_ensures(r),
    ;
}

/// Fallible conversions from `jiff` values to `chrono` values.
pub trait TryToChrono<C> {
    /// What each conversion promises of its result.
    spec fn try_to_chrono_ensures(&self, r: Result<C, Error>) -> bool;

    /// Convert this `jiff` value to the corresponding `chrono` value, or say why it cannot be.
    ///
    /// When each conversion fails is stated on its implementation.
    fn try_to_chrono(&self) -> (r: Result<C, Error>)
        ensures
            self.try_to_chrono_ensures(r),
    ;
}

} // verus!
