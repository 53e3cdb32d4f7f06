//! Instants as plain values: whole seconds since 1970-01-01 00:00:00 and
//! nanoseconds within the second.
//!
//! Both kinds of instant cover exactly the span that the date-time
//! collaborator can render, from the first second of the year -262143 to the
//! last second of the year 262142. A nanosecond count of one thousand million
//! or more stands for a leap second, and is accepted only in the last second
//! of a minute.

use vstd::prelude::*;

verus! {

/// The seconds count of the earliest instant, -262143-01-01 00:00:00.
pub const MIN_SECONDS: i64 = -8_334_601_228_800;

/// The seconds count of the latest instant, 262142-12-31 23:59:59.
pub const MAX_SECONDS: i64 = 8_210_266_876_799;

/// The nanoseconds count from which on a leap second is meant.
pub const LEAP_NANOS: u32 = 1_000_000_000;

/// The nanoseconds count that no instant reaches.
pub const NANOS_LIMIT: u32 = 2_000_000_000;

/// Whether `secs` and `nanos` describe an instant.
pub open spec fn is_instant(secs: int, nanos: int) -> bool {
    &&& MIN_SECONDS <= secs <= MAX_SECONDS
    &&& 0 <= nanos < NANOS_LIMIT
    &&& (nanos >= LEAP_NANOS ==> secs % 60 == 59)
}

/// Decides `is_instant`.
fn check_instant(secs: i64, nanos: u32) -> (valid: bool)
    ensures
        valid == is_instant(secs as int, nanos as int),
{
    if secs < MIN_SECONDS || secs > MAX_SECONDS || nanos >= NANOS_LIMIT {
        return false;
    }
    if nanos < LEAP_NANOS {
        return true;
    }
    let remainder: i64 = secs % 60;
    let second_of_minute: i64 = if remainder < 0 {
        remainder + 60
    } else {
        remainder
    };
    second_of_minute == 59
}

/// What an instant holds: its seconds and its nanoseconds.
pub struct InstantView {
    pub secs: int,
    pub nanos: int,
}

/// A timezone-aware instant on the UTC time line.
#[derive(Clone, Copy, Debug, PartialEq, Eq, Structural)]
pub struct UtcInstant {
    secs: i64,
    nanos: u32,
}

/// An instant without a timezone: a wall-clock reading that says nothing
/// about where the clock stands.
#[derive(Clone, Copy, Debug, PartialEq, Eq, Structural)]
pub struct NaiveInstant {
    secs: i64,
    nanos: u32,
}

impl View for UtcInstant {
    type V = InstantView;

    closed spec fn view(&self) -> InstantView {
        InstantView { secs: self.secs as int, nanos: self.nanos as int }
    }
}

impl View for NaiveInstant {
    type V = InstantView;

    closed spec fn view(&self) -> InstantView {
        InstantView { secs: self.secs as int, nanos: self.nanos as int }
    }
}

impl UtcInstant {
    #[verifier::type_invariant]
    spec fn in_range(self) -> bool {
        is_instant(self.secs as int, self.nanos as int)
    }

    /// The instant `secs` seconds and `nanos` nanoseconds after the Unix
    /// epoch, 1970-01-01 00:00:00 UTC, or `None` where that is no instant.
    pub fn new(secs: i64, nanos: u32) -> (instant: Option<UtcInstant>)
        ensures
            instant is Some <==> is_instant(secs as int, nanos as int),
            instant matches Some(i) ==> i@.secs == secs && i@.nanos == nanos,
    {
        if check_instant(secs, nanos) {
            Some(UtcInstant { secs, nanos })
        } else {
            None
        }
    }

    /// Seconds since the Unix epoch; negative before it.
    pub fn timestamp(&self) -> (secs: i64)
        ensures
            secs == self@.secs,
            is_instant(self@.secs, self@.nanos),
    {
        proof {
            use_type_invariant(self);
        }
        self.secs
    }

    /// Nanoseconds since the last whole second.
    pub fn timestamp_subsec_nanos(&self) -> (nanos: u32)
        ensures
            nanos == self@.nanos,
            is_instant(self@.secs, self@.nanos),
    {
        proof {
            use_type_invariant(self);
        }
        self.nanos
    }
}

impl NaiveInstant {
    #[verifier::type_invariant]
    spec fn in_range(self) -> bool {
        is_instant(self.secs as int, self.nanos as int)
    }

    /// The wall-clock reading `secs` seconds and `nanos` nanoseconds after
    /// 1970-01-01 00:00:00, or `None` where that is no instant.
    pub fn new(secs: i64, nanos: u32) -> (instant: Option<NaiveInstant>)
        ensures
            instant is Some <==> is_instant(secs as int, nanos as int),
            instant matches Some(i) ==> i@.secs == secs && i@.nanos == nanos,
    {
        if check_instant(secs, nanos) {
            Some(NaiveInstant { secs, nanos })
        } else {
            None
        }
    }

    /// Seconds since 1970-01-01 00:00:00 on this wall clock.
    pub fn timestamp(&self) -> (secs: i64)
        ensures
            secs == self@.secs,
            is_instant(self@.secs, self@.nanos),
    {
        proof {
            use_type_invariant(self);
        }
        self.secs
    }

    /// Nanoseconds since the last whole second.
    pub fn timestamp_subsec_nanos(&self) -> (nanos: u32)
        ensures
            nanos == self@.nanos,
            is_instant(self@.secs, self@.nanos),
    {
        proof {
            use_type_invariant(self);
        }
        self.nanos
    }

    /// Reads the wall clock as one that shows UTC: the same seconds and
    /// nanoseconds, with no shift by any offset.
    pub fn and_utc(&self) -> (instant: UtcInstant)
        ensures
            instant@ == self@,
    {
        proof {
            use_type_invariant(self);
        }
        UtcInstant { secs: self.secs, nanos: self.nanos }
    }
}

} // verus!
