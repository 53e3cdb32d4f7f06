//! Time granularities, conversions between them, and the durations they
//! stand for.
//!
//! A conversion first turns the amount into nanoseconds and then divides by
//! the scale of the target unit, truncating. The step into nanoseconds is a
//! multiplication in 64 bits and wraps around on overflow, as does the step
//! into whole seconds on the way to a platform duration;
//! [`TimeUnit::checked_to_nanos`] tells whether an amount is free of that.

use crate::collaborators::{duration_nanos, lowercase, time_delta_nanos, MAX_DELTA_SECONDS};
use crate::text::str_eq;
use std::time::Duration;
use vstd::arithmetic::div_mod::{
    lemma_div_multiples_vanish, lemma_div_multiples_vanish_quotient, lemma_fundamental_div_mod,
    lemma_small_mod,
};
use vstd::prelude::*;

verus! {

/// A granularity of time, from nanoseconds up to days.
#[derive(Clone, Copy, Debug, PartialEq, Eq, Structural)]
pub enum TimeUnit {
    /// One thousandth of a microsecond.
    Nanoseconds,
    /// One thousandth of a millisecond.
    Microseconds,
    /// One thousandth of a second.
    Milliseconds,
    /// One second.
    Seconds,
    /// Sixty seconds.
    Minutes,
    /// Sixty minutes.
    Hours,
    /// Twenty-four hours.
    Days,
}

/// `x` reduced to 64 bits: what a wrapping multiplication leaves of the
/// product `x`.
pub open spec fn wrapped(x: int) -> u64 {
    (x % 0x1_0000_0000_0000_0000) as u64
}

/// `amount` read as a signed number of the same 64 bits.
pub open spec fn signed(amount: u64) -> int {
    if amount <= i64::MAX {
        amount as int
    } else {
        amount - 0x1_0000_0000_0000_0000
    }
}

/// Computes `signed`.
fn reinterpret_signed(amount: u64) -> (value: i64)
    ensures
        value == signed(amount),
{
    if amount <= 0x7fff_ffff_ffff_ffff {
        amount as i64
    } else {
        ((amount - 0x8000_0000_0000_0000) as i64) + i64::MIN
    }
}

impl TimeUnit {
    /// Zero.
    pub const ZERO: u64 = 0;

    /// One.
    pub const ONE: u64 = 1;

    /// One thousand.
    pub const THOUSAND: u64 = 1000;

    /// Seconds in a minute.
    pub const SECONDS_PER_MINUTE: u64 = 60;

    /// Minutes in an hour.
    pub const MINUTES_PER_HOUR: u64 = 60;

    /// Hours in a day.
    pub const HOURS_PER_DAY: u64 = 24;

    /// Seconds in an hour.
    pub const SECONDS_PER_HOUR: u64 = 3_600;

    /// Seconds in a day.
    pub const SECONDS_PER_DAY: u64 = 86_400;

    /// The scale of nanoseconds: the unit in which every scale is counted.
    pub const NANOS_SCALE: u64 = 1;

    /// The step from one sub-second unit to the next.
    pub const THOUSAND_SCALE: u64 = 1000;

    /// Nanoseconds in a microsecond.
    pub const MICROSECOND_SCALE: u64 = 1_000;

    /// Nanoseconds in a millisecond.
    pub const MILLISECOND_SCALE: u64 = 1_000_000;

    /// Nanoseconds in a second.
    pub const SECOND_SCALE: u64 = 1_000_000_000;

    /// Nanoseconds in a minute.
    pub const MINUTE_SCALE: u64 = 60_000_000_000;

    /// Nanoseconds in an hour.
    pub const HOUR_SCALE: u64 = 3_600_000_000_000;

    /// Nanoseconds in a day.
    pub const DAY_SCALE: u64 = 86_400_000_000_000;

    /// Nanoseconds in a microsecond.
    pub const NANOS_PER_MICROSECOND: u64 = 1_000;

    /// Nanoseconds in a millisecond.
    pub const NANOS_PER_MILLISECOND: u64 = 1_000_000;

    /// Nanoseconds in a second.
    pub const NANOS_PER_SECOND: u64 = 1_000_000_000;

    /// Nanoseconds in a minute.
    pub const NANOS_PER_MINUTE: u64 = 60_000_000_000;

    /// Nanoseconds in an hour.
    pub const NANOS_PER_HOUR: u64 = 3_600_000_000_000;

    /// Nanoseconds in a day.
    pub const NANOS_PER_DAY: u64 = 86_400_000_000_000;

    /// The canonical name of `Nanoseconds`.
    pub const NANOSECONDS_NAME: &'static str = "Nanoseconds";

    /// The canonical name of `Microseconds`.
    pub const MICROSECONDS_NAME: &'static str = "Microseconds";

    /// The canonical name of `Milliseconds`.
    pub const MILLISECONDS_NAME: &'static str = "Milliseconds";

    /// The canonical name of `Seconds`.
    pub const SECONDS_NAME: &'static str = "Seconds";

    /// The canonical name of `Minutes`.
    pub const MINUTES_NAME: &'static str = "Minutes";

    /// The canonical name of `Hours`.
    pub const HOURS_NAME: &'static str = "Hours";

    /// The canonical name of `Days`.
    pub const DAYS_NAME: &'static str = "Days";

    /// The name of `Nanoseconds` in lower case.
    pub const NANOSECONDS_LOWER_CASE_NAME: &'static str = "nanoseconds";

    /// The name of `Microseconds` in lower case.
    pub const MICROSECONDS_LOWER_CASE_NAME: &'static str = "microseconds";

    /// The name of `Milliseconds` in lower case.
    pub const MILLISECONDS_LOWER_CASE_NAME: &'static str = "milliseconds";

    /// The name of `Seconds` in lower case.
    pub const SECONDS_LOWER_CASE_NAME: &'static str = "seconds";

    /// The name of `Minutes` in lower case.
    pub const MINUTES_LOWER_CASE_NAME: &'static str = "minutes";

    /// The name of `Hours` in lower case.
    pub const HOURS_LOWER_CASE_NAME: &'static str = "hours";

    /// The name of `Days` in lower case.
    pub const DAYS_LOWER_CASE_NAME: &'static str = "days";

    /// The number of nanoseconds in one unit of `self`.
    pub open spec fn scale(self) -> nat {
        match self {
            TimeUnit::Nanoseconds => 1,
            TimeUnit::Microseconds => 1_000,
            TimeUnit::Milliseconds => 1_000_000,
            TimeUnit::Seconds => 1_000_000_000,
            TimeUnit::Minutes => 60_000_000_000,
            TimeUnit::Hours => 3_600_000_000_000,
            TimeUnit::Days => 86_400_000_000_000,
        }
    }

    /// `amount` units of `self` in nanoseconds, in 64 bits.
    pub open spec fn spec_to_nanos(self, amount: u64) -> u64 {
        wrapped(amount * self.scale())
    }

    /// `amount` units of `self` in units of `target`: the nanoseconds of
    /// `spec_to_nanos`, divided by the scale of `target` and truncated.
    pub open spec fn spec_convert(self, amount: u64, target: TimeUnit) -> nat {
        self.spec_to_nanos(amount) as nat / target.scale()
    }

    /// Converts `amount` to nanoseconds. The product wraps around where it
    /// does not fit in 64 bits.
    pub fn to_nanos(&self, amount: u64) -> (nanos: u64)
        ensures
            nanos == self.spec_to_nanos(amount),
            amount * self.scale() <= u64::MAX ==> nanos == amount * self.scale(),
    {
        proof {
            if amount * self.scale() <= u64::MAX {
                lemma_small_mod(amount as nat * self.scale(), 0x1_0000_0000_0000_0000);
            }
        }
        match self {
            TimeUnit::Nanoseconds => amount,
            TimeUnit::Microseconds => amount.wrapping_mul(Self::NANOS_PER_MICROSECOND),
            TimeUnit::Milliseconds => amount.wrapping_mul(Self::NANOS_PER_MILLISECOND),
            TimeUnit::Seconds => amount.wrapping_mul(Self::NANOS_PER_SECOND),
            TimeUnit::Minutes => amount.wrapping_mul(Self::NANOS_PER_MINUTE),
            TimeUnit::Hours => amount.wrapping_mul(Self::NANOS_PER_HOUR),
            TimeUnit::Days => amount.wrapping_mul(Self::NANOS_PER_DAY),
        }
    }

    /// Converts `amount` to nanoseconds, or gives `None` where the product
    /// does not fit in 64 bits.
    pub fn checked_to_nanos(&self, amount: u64) -> (nanos: Option<u64>)
        ensures
            amount * self.scale() <= u64::MAX ==> nanos == Some((amount * self.scale()) as u64),
            amount * self.scale() > u64::MAX ==> nanos is None,
    {
        match self {
            TimeUnit::Nanoseconds => Some(amount),
            TimeUnit::Microseconds => amount.checked_mul(Self::NANOS_PER_MICROSECOND),
            TimeUnit::Milliseconds => amount.checked_mul(Self::NANOS_PER_MILLISECOND),
            TimeUnit::Seconds => amount.checked_mul(Self::NANOS_PER_SECOND),
            TimeUnit::Minutes => amount.checked_mul(Self::NANOS_PER_MINUTE),
            TimeUnit::Hours => amount.checked_mul(Self::NANOS_PER_HOUR),
            TimeUnit::Days => amount.checked_mul(Self::NANOS_PER_DAY),
        }
    }

    /// Converts `amount` to microseconds, truncating.
    pub fn to_micros(&self, amount: u64) -> (micros: u64)
        ensures
            micros == self.spec_convert(amount, TimeUnit::Microseconds),
    {
        self.to_nanos(amount) / Self::NANOS_PER_MICROSECOND
    }

    /// Converts `amount` to milliseconds, truncating.
    pub fn to_millis(&self, amount: u64) -> (millis: u64)
        ensures
            millis == self.spec_convert(amount, TimeUnit::Milliseconds),
    {
        self.to_nanos(amount) / Self::NANOS_PER_MILLISECOND
    }

    /// Converts `amount` to seconds, truncating.
    pub fn to_seconds(&self, amount: u64) -> (seconds: u64)
        ensures
            seconds == self.spec_convert(amount, TimeUnit::Seconds),
    {
        self.to_nanos(amount) / Self::NANOS_PER_SECOND
    }

    /// Converts `amount` to minutes, truncating.
    pub fn to_minutes(&self, amount: u64) -> (minutes: u64)
        ensures
            minutes == self.spec_convert(amount, TimeUnit::Minutes),
    {
        self.to_nanos(amount) / Self::NANOS_PER_MINUTE
    }

    /// Converts `amount` to hours, truncating.
    pub fn to_hours(&self, amount: u64) -> (hours: u64)
        ensures
            hours == self.spec_convert(amount, TimeUnit::Hours),
    {
        self.to_nanos(amount) / Self::NANOS_PER_HOUR
    }

    /// Converts `amount` to days, truncating.
    pub fn to_days(&self, amount: u64) -> (days: u64)
        ensures
            days == self.spec_convert(amount, TimeUnit::Days),
    {
        self.to_nanos(amount) / Self::NANOS_PER_DAY
    }

    /// Whether the whole seconds of `amount` units fit in 64 bits, so that
    /// the platform duration of `amount` is exact. Below a second nothing is
    /// multiplied, and every amount is exact.
    pub open spec fn duration_is_exact(self, amount: u64) -> bool {
        match self {
            TimeUnit::Minutes => amount * 60 <= u64::MAX,
            TimeUnit::Hours => amount * 3_600 <= u64::MAX,
            TimeUnit::Days => amount * 86_400 <= u64::MAX,
            _ => true,
        }
    }

    /// The length in nanoseconds of the platform duration of `amount` units.
    /// Minutes, hours and days are first turned into whole seconds, in 64
    /// bits.
    pub open spec fn spec_duration_nanos(self, amount: u64) -> nat {
        match self {
            TimeUnit::Nanoseconds => amount as nat,
            TimeUnit::Microseconds => amount as nat * 1_000,
            TimeUnit::Milliseconds => amount as nat * 1_000_000,
            TimeUnit::Seconds => amount as nat * 1_000_000_000,
            TimeUnit::Minutes => wrapped(amount * 60) as nat * 1_000_000_000,
            TimeUnit::Hours => wrapped(amount * 3_600) as nat * 1_000_000_000,
            TimeUnit::Days => wrapped(amount * 86_400) as nat * 1_000_000_000,
        }
    }

    /// The platform duration of `amount` units of `self`.
    pub fn to_duration(&self, amount: u64) -> (duration: Duration)
        ensures
            duration_nanos(duration) == self.spec_duration_nanos(amount),
            self.duration_is_exact(amount) ==> duration_nanos(duration) == amount * self.scale(),
    {
        match self {
            TimeUnit::Nanoseconds => Duration::from_nanos(amount),
            TimeUnit::Microseconds => Duration::from_micros(amount),
            TimeUnit::Milliseconds => Duration::from_millis(amount),
            TimeUnit::Seconds => Duration::from_secs(amount),
            TimeUnit::Minutes => Duration::from_secs(
                amount.wrapping_mul(TimeUnit::SECONDS_PER_MINUTE),
            ),
            TimeUnit::Hours => Duration::from_secs(amount.wrapping_mul(TimeUnit::SECONDS_PER_HOUR)),
            TimeUnit::Days => Duration::from_secs(amount.wrapping_mul(TimeUnit::SECONDS_PER_DAY)),
        }
    }

    /// Whether the date-time collaborator can make a duration of `amount`
    /// units, `amount` read as a signed number: always for nanoseconds and
    /// microseconds, and otherwise as long as the duration stays within
    /// `i64::MAX` milliseconds either way.
    pub open spec fn spec_fits_chrono_duration(self, amount: u64) -> bool {
        match self {
            TimeUnit::Nanoseconds => true,
            TimeUnit::Microseconds => true,
            TimeUnit::Milliseconds => -i64::MAX <= signed(amount),
            TimeUnit::Seconds => -MAX_DELTA_SECONDS <= signed(amount) <= MAX_DELTA_SECONDS,
            TimeUnit::Minutes => -MAX_DELTA_SECONDS <= signed(amount) * 60 <= MAX_DELTA_SECONDS,
            TimeUnit::Hours => -MAX_DELTA_SECONDS <= signed(amount) * 3_600 <= MAX_DELTA_SECONDS,
            TimeUnit::Days => -MAX_DELTA_SECONDS <= signed(amount) * 86_400 <= MAX_DELTA_SECONDS,
        }
    }

    /// The signed length in nanoseconds of the collaborator's duration of
    /// `amount` units.
    pub open spec fn spec_chrono_nanos(self, amount: u64) -> int {
        signed(amount) * self.scale()
    }

    /// Decides `spec_fits_chrono_duration`.
    pub fn fits_chrono_duration(&self, amount: u64) -> (fits: bool)
        ensures
            fits == self.spec_fits_chrono_duration(amount),
    {
        let value: i64 = reinterpret_signed(amount);
        match self {
            TimeUnit::Nanoseconds => true,
            TimeUnit::Microseconds => true,
            TimeUnit::Milliseconds => value != i64::MIN,
            TimeUnit::Seconds => -MAX_DELTA_SECONDS <= value && value <= MAX_DELTA_SECONDS,
            TimeUnit::Minutes => {
                let limit: i64 = MAX_DELTA_SECONDS / 60;
                -limit <= value && value <= limit
            },
            TimeUnit::Hours => {
                let limit: i64 = MAX_DELTA_SECONDS / 3_600;
                -limit <= value && value <= limit
            },
            TimeUnit::Days => {
                let limit: i64 = MAX_DELTA_SECONDS / 86_400;
                -limit <= value && value <= limit
            },
        }
    }

    /// The date-time collaborator's duration of `amount` units of `self`,
    /// `amount` read as a signed number.
    pub fn to_chrono_duration(&self, amount: u64) -> (duration: chrono::Duration)
        requires
            self.spec_fits_chrono_duration(amount),
        ensures
            time_delta_nanos(duration) == self.spec_chrono_nanos(amount),
    {
        let value: i64 = reinterpret_signed(amount);
        match self {
            TimeUnit::Nanoseconds => chrono::Duration::nanoseconds(value),
            TimeUnit::Microseconds => chrono::Duration::microseconds(value),
            TimeUnit::Milliseconds => chrono::Duration::milliseconds(value),
            TimeUnit::Seconds => chrono::Duration::seconds(value),
            TimeUnit::Minutes => chrono::Duration::minutes(value),
            TimeUnit::Hours => chrono::Duration::hours(value),
            TimeUnit::Days => chrono::Duration::days(value),
        }
    }

    /// The canonical name of a unit: the variant's identifier as text.
    pub open spec fn name(self) -> Seq<char> {
        match self {
            TimeUnit::Nanoseconds => "Nanoseconds"@,
            TimeUnit::Microseconds => "Microseconds"@,
            TimeUnit::Milliseconds => "Milliseconds"@,
            TimeUnit::Seconds => "Seconds"@,
            TimeUnit::Minutes => "Minutes"@,
            TimeUnit::Hours => "Hours"@,
            TimeUnit::Days => "Days"@,
        }
    }

    /// The canonical name of a unit in lower case.
    pub open spec fn lower_case_name(self) -> Seq<char> {
        match self {
            TimeUnit::Nanoseconds => "nanoseconds"@,
            TimeUnit::Microseconds => "microseconds"@,
            TimeUnit::Milliseconds => "milliseconds"@,
            TimeUnit::Seconds => "seconds"@,
            TimeUnit::Minutes => "minutes"@,
            TimeUnit::Hours => "hours"@,
            TimeUnit::Days => "days"@,
        }
    }

    /// The unit whose canonical name is `name`, if there is one.
    pub open spec fn spec_value_of(name: Seq<char>) -> Option<TimeUnit> {
        if exists|u: TimeUnit| u.name() == name {
            Some(choose|u: TimeUnit| u.name() == name)
        } else {
            None
        }
    }

    /// The unit whose lower-case name is `name`, if there is one.
    pub open spec fn spec_lower_case_value_of(name: Seq<char>) -> Option<TimeUnit> {
        if exists|u: TimeUnit| u.lower_case_name() == name {
            Some(choose|u: TimeUnit| u.lower_case_name() == name)
        } else {
            None
        }
    }

    /// The canonical name of this unit.
    pub fn value(&self) -> (name: String)
        ensures
            name@ == self.name(),
    {
        let name: &'static str = match self {
            TimeUnit::Nanoseconds => TimeUnit::NANOSECONDS_NAME,
            TimeUnit::Microseconds => TimeUnit::MICROSECONDS_NAME,
            TimeUnit::Milliseconds => TimeUnit::MILLISECONDS_NAME,
            TimeUnit::Seconds => TimeUnit::SECONDS_NAME,
            TimeUnit::Minutes => TimeUnit::MINUTES_NAME,
            TimeUnit::Hours => TimeUnit::HOURS_NAME,
            TimeUnit::Days => TimeUnit::DAYS_NAME,
        };
        name.to_owned()
    }

    /// How long a sleep for `amount` units lasts: the platform duration of
    /// the whole milliseconds of `amount`.
    pub fn sleep_duration(&self, amount: u64) -> (duration: Duration)
        ensures
            duration_nanos(duration) == self.spec_convert(amount, TimeUnit::Milliseconds)
                * 1_000_000,
    {
        let millis: u64 = self.to_millis(amount);
        Duration::from_millis(millis)
    }

    /// Hands the platform duration of `amount` units to `callback`, which
    /// decides what to do with it.
    pub fn closure_sleep<F>(&self, amount: u64, callback: F) where F: Fn(Duration)
        requires
            forall|duration: Duration|
                duration_nanos(duration) == self.spec_duration_nanos(amount)
                    ==> #[trigger] callback.requires((duration,)),
        ensures
            exists|duration: Duration|
                duration_nanos(duration) == self.spec_duration_nanos(amount)
                    && #[trigger] callback.ensures((duration,), ()),
    {
        let duration = self.to_duration(amount);
        callback(duration);
    }

    /// Hands the date-time collaborator's duration of `amount` units to
    /// `callback`, which decides what to do with it.
    pub fn closure_chrono_sleep<F>(&self, amount: u64, callback: F) where F: Fn(chrono::Duration)
        requires
            self.spec_fits_chrono_duration(amount),
            forall|duration: chrono::Duration|
                time_delta_nanos(duration) == self.spec_chrono_nanos(amount)
                    ==> #[trigger] callback.requires((duration,)),
        ensures
            exists|duration: chrono::Duration|
                time_delta_nanos(duration) == self.spec_chrono_nanos(amount)
                    && #[trigger] callback.ensures((duration,), ()),
    {
        let duration = self.to_chrono_duration(amount);
        callback(duration);
    }

    /// Looks a unit up by its canonical name. The lookup is exact and
    /// case-sensitive; a string that is no unit's name gives `None`.
    pub fn value_of(value: &str) -> (found: Option<TimeUnit>)
        ensures
            found == Self::spec_value_of(value@),
            found matches Some(u) ==> u.name() == value@,
            found is None ==> forall|u: TimeUnit| u.name() != value@,
    {
        if str_eq(value, TimeUnit::NANOSECONDS_NAME) {
            proof {
                lemma_value_of_value(TimeUnit::Nanoseconds);
            }
            Some(TimeUnit::Nanoseconds)
        } else if str_eq(value, TimeUnit::MICROSECONDS_NAME) {
            proof {
                lemma_value_of_value(TimeUnit::Microseconds);
            }
            Some(TimeUnit::Microseconds)
        } else if str_eq(value, TimeUnit::MILLISECONDS_NAME) {
            proof {
                lemma_value_of_value(TimeUnit::Milliseconds);
            }
            Some(TimeUnit::Milliseconds)
        } else if str_eq(value, TimeUnit::SECONDS_NAME) {
            proof {
                lemma_value_of_value(TimeUnit::Seconds);
            }
            Some(TimeUnit::Seconds)
        } else if str_eq(value, TimeUnit::MINUTES_NAME) {
            proof {
                lemma_value_of_value(TimeUnit::Minutes);
            }
            Some(TimeUnit::Minutes)
        } else if str_eq(value, TimeUnit::HOURS_NAME) {
            proof {
                lemma_value_of_value(TimeUnit::Hours);
            }
            Some(TimeUnit::Hours)
        } else if str_eq(value, TimeUnit::DAYS_NAME) {
            proof {
                lemma_value_of_value(TimeUnit::Days);
            }
            Some(TimeUnit::Days)
        } else {
            None
        }
    }

    /// Looks a unit up by its name in lower case. The lookup is exact; a
    /// string that is no unit's lower-case name gives `None`.
    pub fn lower_case_value_of(lowered: &str) -> (found: Option<TimeUnit>)
        ensures
            found == Self::spec_lower_case_value_of(lowered@),
            found matches Some(u) ==> u.lower_case_name() == lowered@,
            found is None ==> forall|u: TimeUnit| u.lower_case_name() != lowered@,
    {
        if str_eq(lowered, TimeUnit::NANOSECONDS_LOWER_CASE_NAME) {
            proof {
                lemma_lower_case_value_of_name(TimeUnit::Nanoseconds);
            }
            Some(TimeUnit::Nanoseconds)
        } else if str_eq(lowered, TimeUnit::MICROSECONDS_LOWER_CASE_NAME) {
            proof {
                lemma_lower_case_value_of_name(TimeUnit::Microseconds);
            }
            Some(TimeUnit::Microseconds)
        } else if str_eq(lowered, TimeUnit::MILLISECONDS_LOWER_CASE_NAME) {
            proof {
                lemma_lower_case_value_of_name(TimeUnit::Milliseconds);
            }
            Some(TimeUnit::Milliseconds)
        } else if str_eq(lowered, TimeUnit::SECONDS_LOWER_CASE_NAME) {
            proof {
                lemma_lower_case_value_of_name(TimeUnit::Seconds);
            }
            Some(TimeUnit::Seconds)
        } else if str_eq(lowered, TimeUnit::MINUTES_LOWER_CASE_NAME) {
            proof {
                lemma_lower_case_value_of_name(TimeUnit::Minutes);
            }
            Some(TimeUnit::Minutes)
        } else if str_eq(lowered, TimeUnit::HOURS_LOWER_CASE_NAME) {
            proof {
                lemma_lower_case_value_of_name(TimeUnit::Hours);
            }
            Some(TimeUnit::Hours)
        } else if str_eq(lowered, TimeUnit::DAYS_LOWER_CASE_NAME) {
            proof {
                lemma_lower_case_value_of_name(TimeUnit::Days);
            }
            Some(TimeUnit::Days)
        } else {
            None
        }
    }

    /// Looks a unit up by its name, whatever the case of the letters: the
    /// string is put into lower case and then looked up among the lower-case
    /// names.
    pub fn insensitive_case_value_of(value: &str) -> (found: Option<TimeUnit>)
        ensures
            found == Self::spec_lower_case_value_of(lowercase(value@)),
    {
        let lowered: String = value.to_lowercase();
        TimeUnit::lower_case_value_of(lowered.as_str())
    }
}

/// The length of each name and, where two names are equally long, a
/// character in which they differ.
proof fn lemma_name_marks(u: TimeUnit)
    ensures
        match u {
            TimeUnit::Nanoseconds => u.name().len() == 11,
            TimeUnit::Microseconds => u.name().len() == 12 && u.name()[2] == 'c',
            TimeUnit::Milliseconds => u.name().len() == 12 && u.name()[2] == 'l',
            TimeUnit::Seconds => u.name().len() == 7 && u.name()[0] == 'S',
            TimeUnit::Minutes => u.name().len() == 7 && u.name()[0] == 'M',
            TimeUnit::Hours => u.name().len() == 5,
            TimeUnit::Days => u.name().len() == 4,
        },
{
    reveal_strlit("Nanoseconds");
    reveal_strlit("Microseconds");
    reveal_strlit("Milliseconds");
    reveal_strlit("Seconds");
    reveal_strlit("Minutes");
    reveal_strlit("Hours");
    reveal_strlit("Days");
}

/// As `lemma_name_marks`, for the names in lower case.
proof fn lemma_lower_case_name_marks(u: TimeUnit)
    ensures
        match u {
            TimeUnit::Nanoseconds => u.lower_case_name().len() == 11,
            TimeUnit::Microseconds => u.lower_case_name().len() == 12 && u.lower_case_name()[2]
                == 'c',
            TimeUnit::Milliseconds => u.lower_case_name().len() == 12 && u.lower_case_name()[2]
                == 'l',
            TimeUnit::Seconds => u.lower_case_name().len() == 7 && u.lower_case_name()[0] == 's',
            TimeUnit::Minutes => u.lower_case_name().len() == 7 && u.lower_case_name()[0] == 'm',
            TimeUnit::Hours => u.lower_case_name().len() == 5,
            TimeUnit::Days => u.lower_case_name().len() == 4,
        },
{
    reveal_strlit("nanoseconds");
    reveal_strlit("microseconds");
    reveal_strlit("milliseconds");
    reveal_strlit("seconds");
    reveal_strlit("minutes");
    reveal_strlit("hours");
    reveal_strlit("days");
}

/// No two units share a canonical name.
pub proof fn lemma_name_is_injective(a: TimeUnit, b: TimeUnit)
    requires
        a.name() == b.name(),
    ensures
        a == b,
{
    lemma_name_marks(a);
    lemma_name_marks(b);
}

/// No two units share a lower-case name.
pub proof fn lemma_lower_case_name_is_injective(a: TimeUnit, b: TimeUnit)
    requires
        a.lower_case_name() == b.lower_case_name(),
    ensures
        a == b,
{
    lemma_lower_case_name_marks(a);
    lemma_lower_case_name_marks(b);
}

/// Looking up the canonical name of a unit gives that unit back.
pub proof fn lemma_value_of_value(u: TimeUnit)
    ensures
        TimeUnit::spec_value_of(u.name()) == Some(u),
{
    let found = choose|v: TimeUnit| v.name() == u.name();
    lemma_name_is_injective(found, u);
}

/// Looking up the lower-case name of a unit gives that unit back.
pub proof fn lemma_lower_case_value_of_name(u: TimeUnit)
    ensures
        TimeUnit::spec_lower_case_value_of(u.lower_case_name()) == Some(u),
{
    let found = choose|v: TimeUnit| v.lower_case_name() == u.lower_case_name();
    lemma_lower_case_name_is_injective(found, u);
}

/// Of two units, the scale of the coarser is a whole multiple of the scale
/// of the finer: no conversion leaves a fraction of a nanosecond behind.
pub proof fn lemma_scales_divide(coarse: TimeUnit, fine: TimeUnit)
    requires
        fine.scale() <= coarse.scale(),
    ensures
        coarse.scale() % fine.scale() == 0,
{
}

/// As long as the nanoseconds fit in 64 bits, converting to nanoseconds
/// multiplies by the scale, and of two amounts the larger gives more
/// nanoseconds.
pub proof fn lemma_to_nanos_is_strictly_monotonic(u: TimeUnit, a: u64, b: u64)
    requires
        a < b,
        b * u.scale() <= u64::MAX,
    ensures
        u.spec_to_nanos(a) == a * u.scale(),
        u.spec_to_nanos(b) == b * u.scale(),
        u.spec_to_nanos(a) < u.spec_to_nanos(b),
{
    assert(a * u.scale() < b * u.scale()) by (nonlinear_arith)
        requires
            a < b,
            u.scale() > 0,
    ;
    lemma_small_mod(a as nat * u.scale(), 0x1_0000_0000_0000_0000);
    lemma_small_mod(b as nat * u.scale(), 0x1_0000_0000_0000_0000);
}

/// As long as the nanoseconds fit in 64 bits, converting to a finer unit
/// multiplies by the ratio of the two scales.
pub proof fn lemma_convert_to_finer(u: TimeUnit, target: TimeUnit, n: u64)
    requires
        target.scale() <= u.scale(),
        n * u.scale() <= u64::MAX,
    ensures
        u.spec_convert(n, target) == n * (u.scale() / target.scale()),
{
    let from = u.scale() as int;
    let to = target.scale() as int;
    let ratio = from / to;
    lemma_scales_divide(u, target);
    lemma_fundamental_div_mod(from, to);
    lemma_small_mod(n as nat * u.scale(), 0x1_0000_0000_0000_0000);
    assert(n * from == to * (n * ratio)) by (nonlinear_arith)
        requires
            from == to * ratio,
    ;
    lemma_div_multiples_vanish(n * ratio, to);
}

/// As long as the nanoseconds fit in 64 bits, converting to a coarser unit
/// divides by the ratio of the two scales and truncates.
pub proof fn lemma_convert_to_coarser(u: TimeUnit, target: TimeUnit, n: u64)
    requires
        u.scale() <= target.scale(),
        n * u.scale() <= u64::MAX,
    ensures
        u.spec_convert(n, target) == n as nat / (target.scale() / u.scale()),
{
    let from = u.scale() as int;
    let to = target.scale() as int;
    let ratio = to / from;
    lemma_scales_divide(target, u);
    lemma_fundamental_div_mod(to, from);
    lemma_small_mod(n as nat * u.scale(), 0x1_0000_0000_0000_0000);
    assert(n * from == from * n) by (nonlinear_arith);
    lemma_div_multiples_vanish_quotient(from, n as int, ratio);
}

/// Minutes in seconds are sixty to each, exactly as long as the nanoseconds
/// of the minutes fit in 64 bits.
pub proof fn lemma_minutes_to_seconds(n: u64)
    ensures
        TimeUnit::Minutes.spec_convert(n, TimeUnit::Seconds) == n * 60 <==> n * 60_000_000_000
            <= u64::MAX,
{
    if n * 60_000_000_000 <= u64::MAX {
        lemma_convert_to_finer(TimeUnit::Minutes, TimeUnit::Seconds, n);
    }
}

/// Seconds in minutes are a sixtieth, truncated, exactly as long as the
/// nanoseconds of the seconds fit in 64 bits.
pub proof fn lemma_seconds_to_minutes(n: u64)
    ensures
        TimeUnit::Seconds.spec_convert(n, TimeUnit::Minutes) == n / 60 <==> n * 1_000_000_000
            <= u64::MAX,
{
    if n * 1_000_000_000 <= u64::MAX {
        lemma_convert_to_coarser(TimeUnit::Seconds, TimeUnit::Minutes, n);
    }
}

/// Dividing step by step gives what dividing at once gives: the minutes are
/// a sixtieth of the seconds, the hours a sixtieth of the minutes, and the
/// days a twenty-fourth of the hours, each truncated.
pub proof fn lemma_conversions_chain(u: TimeUnit, n: u64)
    ensures
        u.spec_convert(n, TimeUnit::Minutes) == u.spec_convert(n, TimeUnit::Seconds) / 60,
        u.spec_convert(n, TimeUnit::Hours) == u.spec_convert(n, TimeUnit::Minutes) / 60,
        u.spec_convert(n, TimeUnit::Days) == u.spec_convert(n, TimeUnit::Hours) / 24,
{
}

/// Where the date-time collaborator can make a duration of an amount, that
/// duration and the platform duration are equally long exactly if the
/// amount is the same number signed and unsigned; and the platform duration
/// is then exact.
pub proof fn lemma_durations_agree(u: TimeUnit, amount: u64)
    requires
        u.spec_fits_chrono_duration(amount),
    ensures
        u.spec_duration_nanos(amount) == u.spec_chrono_nanos(amount) <==> amount <= i64::MAX,
        amount <= i64::MAX ==> u.duration_is_exact(amount),
{
}

} // verus!
