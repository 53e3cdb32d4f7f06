//! Contracts for the library's collaborators: the platform's duration type
//! and string lower-casing, and the date-time library's duration type and
//! formatting. Nothing in this module is proved; every other module is
//! verified against what is stated here.

use crate::formatter::instant::is_instant;
use crate::formatter::pattern::DateTimePattern;
use chrono::TimeDelta;
use std::time::Duration;
use vstd::prelude::*;

verus! {

/// The length of a platform duration in nanoseconds, as `Duration::as_nanos`
/// reports it.
pub uninterp spec fn duration_nanos(d: Duration) -> nat;

/// `Duration::from_nanos`: a duration of exactly `nanos` nanoseconds.
pub assume_specification[ Duration::from_nanos ](nanos: u64) -> (d: Duration)
    ensures
        duration_nanos(d) == nanos,
;

/// `Duration::from_micros`: a duration of exactly `micros` microseconds.
pub assume_specification[ Duration::from_micros ](micros: u64) -> (d: Duration)
    ensures
        duration_nanos(d) == micros * 1_000,
;

/// `Duration::from_millis`: a duration of exactly `millis` milliseconds.
pub assume_specification[ Duration::from_millis ](millis: u64) -> (d: Duration)
    ensures
        duration_nanos(d) == millis * 1_000_000,
;

/// `Duration::from_secs`: a duration of exactly `secs` whole seconds.
pub assume_specification[ Duration::from_secs ](secs: u64) -> (d: Duration)
    ensures
        duration_nanos(d) == secs * 1_000_000_000,
;

/// What `str::to_lowercase` makes of a string: its lower-case equivalent by
/// the Unicode rules, which may differ from it in length.
pub uninterp spec fn lowercase(s: Seq<char>) -> Seq<char>;

/// `str::to_lowercase`: the result depends on the characters alone.
pub assume_specification[ str::to_lowercase ](s: &str) -> (lowered: String)
    ensures
        lowered@ == lowercase(s@),
;

/// `chrono::TimeDelta`, which `chrono::Duration` is another name for.
#[verifier::external_type_specification]
#[verifier::external_body]
pub struct ExTimeDelta(TimeDelta);

/// The signed length of a `chrono::TimeDelta` in nanoseconds: its whole
/// seconds times one thousand million, plus its nanoseconds part.
pub uninterp spec fn time_delta_nanos(d: TimeDelta) -> int;

/// The most seconds a `chrono::TimeDelta` can be made of: `i64::MAX / 1000`.
/// The least is the negative of this.
pub const MAX_DELTA_SECONDS: i64 = 9_223_372_036_854_775;

/// `TimeDelta::nanoseconds`: never fails; the length is `nanos` nanoseconds.
pub assume_specification[ TimeDelta::nanoseconds ](nanos: i64) -> (d: TimeDelta)
    ensures
        time_delta_nanos(d) == nanos,
;

/// `TimeDelta::microseconds`: never fails; the length is `microseconds`
/// microseconds.
pub assume_specification[ TimeDelta::microseconds ](microseconds: i64) -> (d: TimeDelta)
    ensures
        time_delta_nanos(d) == microseconds * 1_000,
;

/// `TimeDelta::milliseconds`: panics below `-i64::MAX`; otherwise the length
/// is `milliseconds` milliseconds.
pub assume_specification[ TimeDelta::milliseconds ](milliseconds: i64) -> (d: TimeDelta)
    requires
        -i64::MAX <= milliseconds,
    ensures
        time_delta_nanos(d) == milliseconds * 1_000_000,
;

/// `TimeDelta::seconds`: panics beyond `i64::MAX / 1000` seconds either way;
/// otherwise the length is `seconds` seconds.
pub assume_specification[ TimeDelta::seconds ](seconds: i64) -> (d: TimeDelta)
    requires
        -MAX_DELTA_SECONDS <= seconds <= MAX_DELTA_SECONDS,
    ensures
        time_delta_nanos(d) == seconds * 1_000_000_000,
;

/// `TimeDelta::minutes`: panics where `minutes * 60` seconds are out of
/// bounds; otherwise the length is `minutes` minutes.
pub assume_specification[ TimeDelta::minutes ](minutes: i64) -> (d: TimeDelta)
    requires
        -MAX_DELTA_SECONDS <= minutes * 60 <= MAX_DELTA_SECONDS,
    ensures
        time_delta_nanos(d) == minutes * 60_000_000_000,
;

/// `TimeDelta::hours`: panics where `hours * 3600` seconds are out of
/// bounds; otherwise the length is `hours` hours.
pub assume_specification[ TimeDelta::hours ](hours: i64) -> (d: TimeDelta)
    requires
        -MAX_DELTA_SECONDS <= hours * 3_600 <= MAX_DELTA_SECONDS,
    ensures
        time_delta_nanos(d) == hours * 3_600_000_000_000,
;

/// `TimeDelta::days`: panics where `days * 86400` seconds are out of
/// bounds; otherwise the length is `days` days of 86400 seconds.
pub assume_specification[ TimeDelta::days ](days: i64) -> (d: TimeDelta)
    requires
        -MAX_DELTA_SECONDS <= days * 86_400 <= MAX_DELTA_SECONDS,
    ensures
        time_delta_nanos(d) == days * 86_400_000_000_000,
;

/// The text that `chrono::DateTime<Utc>::format` gives for the instant
/// `secs` seconds and `nanos` nanoseconds after the Unix epoch, under the
/// strftime-style `template`.
pub uninterp spec fn utc_formatted(secs: int, nanos: int, template: Seq<char>) -> Seq<char>;

/// The text that `chrono::NaiveDateTime::format` gives for the wall-clock
/// reading `secs` seconds and `nanos` nanoseconds after 1970-01-01 00:00:00,
/// under the strftime-style `template`.
pub uninterp spec fn naive_formatted(secs: int, nanos: int, template: Seq<char>) -> Seq<char>;

/// `chrono::DateTime<Utc>::format`, turned into a `String`. The instant is
/// one that `DateTime::from_timestamp` accepts, and the template one of the
/// catalog's, all of whose items chrono can render for a date with a time;
/// so neither step fails. The text depends on the instant and the template
/// alone: no locale and no local time zone enter.
#[verifier::external_body]
pub(crate) fn format_utc(secs: i64, nanos: u32, template: &str) -> (text: String)
    requires
        is_instant(secs as int, nanos as int),
        DateTimePattern::is_format_template(template@),
    ensures
        text@ == utc_formatted(secs as int, nanos as int, template@),
{
    let instant = chrono::DateTime::from_timestamp(secs, nanos).unwrap();
    instant.format(template).to_string()
}

/// `chrono::NaiveDateTime::format`, turned into a `String`; as `format_utc`,
/// but on the date-time without its zone.
#[verifier::external_body]
pub(crate) fn format_naive(secs: i64, nanos: u32, template: &str) -> (text: String)
    requires
        is_instant(secs as int, nanos as int),
        DateTimePattern::is_format_template(template@),
    ensures
        text@ == naive_formatted(secs as int, nanos as int, template@),
{
    let instant = chrono::DateTime::from_timestamp(secs, nanos).unwrap();
    instant.naive_utc().format(template).to_string()
}

} // verus!
