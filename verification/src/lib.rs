//! Reading a Unix epoch whose unit is not stated.
//!
//! A count of ticks since 1970-01-01T00:00:00Z may be in seconds,
//! milliseconds, microseconds or nanoseconds. [`classify`] infers the unit
//! from the magnitude of the count alone; [`Units::to_date_time`] splits the
//! count exactly into whole seconds and a nanosecond remainder and asks
//! `chrono` for the date and time of that instant; [`int_to_datetime`] does
//! both, and [`try_parse`] starts from text.
//!
//! The arithmetic and the rules are proved. What `chrono` and the standard
//! library contribute is stated in [`calendar`] and [`decimal`] and taken on
//! trust.

pub mod calendar;
pub mod convert;
pub mod decimal;
pub mod units;

pub use convert::{int_to_datetime, try_parse, ParsedTime};
pub use units::{classify, Units};
