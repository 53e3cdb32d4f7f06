//! Date-time formatting with a catalog of patterns.
//!
//! A [`DefaultDateTimeFormatter`] holds one pattern, its activated pattern,
//! and renders instants under it or under a pattern given with the call.
//! Every pattern but `Timestamp` is rendered by the date-time collaborator
//! from the pattern's template; `Timestamp` is rendered here, as the
//! instant's seconds count in decimal.

pub mod instant;
pub mod pattern;

use crate::collaborators::{format_naive, format_utc, naive_formatted, utc_formatted};
use crate::formatter::instant::{InstantView, NaiveInstant, UtcInstant};
use crate::formatter::pattern::DateTimePattern;
use crate::text::{decimal, decimal_text};
use vstd::prelude::*;

verus! {

/// The text of a timezone-aware instant under `pattern`.
pub open spec fn utc_text(instant: InstantView, pattern: DateTimePattern) -> Seq<char> {
    if pattern == DateTimePattern::Timestamp {
        decimal_text(instant.secs)
    } else {
        utc_formatted(instant.secs, instant.nanos, pattern.template())
    }
}

/// The text of an instant without a timezone under `pattern`, rendered as
/// it stands.
pub open spec fn naive_text(instant: InstantView, pattern: DateTimePattern) -> Seq<char> {
    if pattern == DateTimePattern::Timestamp {
        decimal_text(instant.secs)
    } else {
        naive_formatted(instant.secs, instant.nanos, pattern.template())
    }
}

/// A formatter bound to one pattern. It is a plain value: binding another
/// pattern makes another formatter.
pub struct DefaultDateTimeFormatter {
    /// The activated pattern.
    pub pattern: DateTimePattern,
}

impl DefaultDateTimeFormatter {
    /// The formatter bound to `YyyyMmDdHhMmSs`.
    pub fn builtin() -> (formatter: Self)
        ensures
            formatter.pattern == DateTimePattern::YyyyMmDdHhMmSs,
    {
        DefaultDateTimeFormatter::new(DateTimePattern::YyyyMmDdHhMmSs)
    }

    /// The formatter bound to `pattern`.
    pub fn new(pattern: DateTimePattern) -> (formatter: Self)
        ensures
            formatter.pattern == pattern,
    {
        DefaultDateTimeFormatter { pattern }
    }

    /// A new formatter bound to `pattern`; this one stays as it is.
    pub fn of_pattern(&self, pattern: DateTimePattern) -> (formatter: DefaultDateTimeFormatter)
        ensures
            formatter.pattern == pattern,
    {
        DefaultDateTimeFormatter::new(pattern)
    }

    /// The pattern this formatter is bound to.
    pub fn activated_pattern(&self) -> (pattern: DateTimePattern)
        ensures
            pattern == self.pattern,
    {
        self.pattern
    }

    /// Renders a timezone-aware instant under the activated pattern.
    pub fn format_date_time_utc_default(&self, datetime: &UtcInstant) -> (text: String)
        ensures
            text@ == utc_text(datetime@, self.pattern),
    {
        self.format_date_time_utc(datetime, self.activated_pattern())
    }

    /// Renders a timezone-aware instant under `pattern`.
    pub fn format_date_time_utc(
        &self,
        datetime: &UtcInstant,
        pattern: DateTimePattern,
    ) -> (text: String)
        ensures
            text@ == utc_text(datetime@, pattern),
    {
        let secs: i64 = datetime.timestamp();
        match pattern {
            DateTimePattern::Timestamp => decimal(secs),
            _ => format_utc(secs, datetime.timestamp_subsec_nanos(), pattern.pattern_of()),
        }
    }

    /// Reads an instant without a timezone as UTC and renders it under the
    /// activated pattern.
    pub fn format_naive_date_time_utc_default(&self, datetime: &NaiveInstant) -> (text: String)
        ensures
            text@ == utc_text(datetime@, self.pattern),
    {
        let datetime_utc = datetime.and_utc();
        self.format_date_time_utc(&datetime_utc, self.activated_pattern())
    }

    /// Reads an instant without a timezone as UTC and renders it under
    /// `pattern`.
    pub fn format_naive_date_time_utc(
        &self,
        datetime: &NaiveInstant,
        pattern: DateTimePattern,
    ) -> (text: String)
        ensures
            text@ == utc_text(datetime@, pattern),
    {
        let datetime_utc = datetime.and_utc();
        self.format_date_time_utc(&datetime_utc, pattern)
    }

    /// Renders an instant without a timezone, as it stands, under the
    /// activated pattern.
    pub fn format_naive_date_time_default(&self, datetime: &NaiveInstant) -> (text: String)
        ensures
            text@ == naive_text(datetime@, self.pattern),
    {
        self.format_naive_date_time(datetime, self.activated_pattern())
    }

    /// Renders an instant without a timezone, as it stands, under `pattern`.
    pub fn format_naive_date_time(
        &self,
        datetime: &NaiveInstant,
        pattern: DateTimePattern,
    ) -> (text: String)
        ensures
            text@ == naive_text(datetime@, pattern),
    {
        let secs: i64 = datetime.timestamp();
        match pattern {
            DateTimePattern::Timestamp => decimal(secs),
            _ => format_naive(secs, datetime.timestamp_subsec_nanos(), pattern.pattern_of()),
        }
    }
}

impl Default for DefaultDateTimeFormatter {
    /// The formatter bound to `YyyyMmDdHhMmSs`.
    fn default() -> (formatter: Self)
        ensures
            formatter.pattern == DateTimePattern::YyyyMmDdHhMmSs,
    {
        DefaultDateTimeFormatter::builtin()
    }
}

/// Renders a timezone-aware instant under `YyyyMmDdHhMmSs`.
pub fn format_date_time_utc_default(datetime: &UtcInstant) -> (text: String)
    ensures
        text@ == utc_text(datetime@, DateTimePattern::YyyyMmDdHhMmSs),
{
    DefaultDateTimeFormatter::builtin().format_date_time_utc_default(datetime)
}

/// Reads an instant without a timezone as UTC and renders it under
/// `YyyyMmDdHhMmSs`.
pub fn format_naive_date_time_utc_default(datetime: &NaiveInstant) -> (text: String)
    ensures
        text@ == utc_text(datetime@, DateTimePattern::YyyyMmDdHhMmSs),
{
    DefaultDateTimeFormatter::builtin().format_naive_date_time_utc_default(datetime)
}

/// Renders an instant without a timezone, as it stands, under
/// `YyyyMmDdHhMmSs`.
pub fn format_naive_date_time_default(datetime: &NaiveInstant) -> (text: String)
    ensures
        text@ == naive_text(datetime@, DateTimePattern::YyyyMmDdHhMmSs),
{
    DefaultDateTimeFormatter::builtin().format_naive_date_time_default(datetime)
}

/// Renders a timezone-aware instant under `pattern`.
pub fn format_date_time_utc(datetime: &UtcInstant, pattern: DateTimePattern) -> (text: String)
    ensures
        text@ == utc_text(datetime@, pattern),
{
    DefaultDateTimeFormatter::builtin().format_date_time_utc(datetime, pattern)
}

/// Reads an instant without a timezone as UTC and renders it under
/// `pattern`.
pub fn format_naive_date_time_utc(
    datetime: &NaiveInstant,
    pattern: DateTimePattern,
) -> (text: String)
    ensures
        text@ == utc_text(datetime@, pattern),
{
    DefaultDateTimeFormatter::builtin().format_naive_date_time_utc(datetime, pattern)
}

/// Renders an instant without a timezone, as it stands, under `pattern`.
pub fn format_naive_date_time(datetime: &NaiveInstant, pattern: DateTimePattern) -> (text: String)
    ensures
        text@ == naive_text(datetime@, pattern),
{
    DefaultDateTimeFormatter::builtin().format_naive_date_time(datetime, pattern)
}

} // verus!
