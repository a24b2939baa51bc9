//! A timezone-less calendar timestamp with second precision: validated
//! construction from calendar fields and from two fixed text patterns.

pub mod calendar;
pub mod datetime;
pub mod error;
pub mod pattern;

pub use datetime::DateTime;
pub use error::DateTimeError;
