//! Time-unit conversion and date-time formatting against a fixed catalog of
//! patterns.
//!
//! [`TimeUnit`] converts integer magnitudes between granularities from
//! nanoseconds to days and builds duration values from them. The
//! [`formatter`] module renders instants according to a
//! [`formatter::pattern::DateTimePattern`].

pub mod collaborators;
pub mod formatter;
pub mod text;
pub mod time_unit;

pub use time_unit::TimeUnit;
