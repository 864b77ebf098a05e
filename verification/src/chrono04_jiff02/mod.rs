//! The conversions between `chrono` 0.4 and `jiff` 0.2 values, and the laws they obey.
pub mod date;
pub mod time;
pub mod datetime;
pub mod timestamp;
pub mod offset;
pub mod timezone;
pub mod zoned;
