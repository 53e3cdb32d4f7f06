use std::cell::Cell;
use std::time::Duration;

use chronounit::TimeUnit;

const UNITS: [TimeUnit; 7] = [
    TimeUnit::Nanoseconds,
    TimeUnit::Microseconds,
    TimeUnit::Milliseconds,
    TimeUnit::Seconds,
    TimeUnit::Minutes,
    TimeUnit::Hours,
    TimeUnit::Days,
];

#[test]
fn to_duration_uses_the_constructor_of_each_unit() {
    assert_eq!(TimeUnit::Nanoseconds.to_duration(100), Duration::from_nanos(100));
    assert_eq!(TimeUnit::Microseconds.to_duration(100), Duration::from_micros(100));
    assert_eq!(TimeUnit::Milliseconds.to_duration(100), Duration::from_millis(100));
    assert_eq!(TimeUnit::Seconds.to_duration(1), Duration::from_secs(1));
    assert_eq!(TimeUnit::Minutes.to_duration(1), Duration::from_secs(60));
    assert_eq!(TimeUnit::Hours.to_duration(1), Duration::from_secs(60 * 60));
    assert_eq!(TimeUnit::Days.to_duration(1), Duration::from_secs(60 * 60 * 24));
}

#[test]
fn to_duration_has_the_stated_length() {
    assert_eq!(TimeUnit::Nanoseconds.to_duration(1024).as_nanos(), 1024);
    assert_eq!(TimeUnit::Microseconds.to_duration(1024).as_nanos(), 1_024_000);
    assert_eq!(TimeUnit::Milliseconds.to_duration(1024).as_nanos(), 1_024_000_000);
    assert_eq!(TimeUnit::Seconds.to_duration(1024).as_nanos(), 1_024_000_000_000);
    assert_eq!(TimeUnit::Minutes.to_duration(1024).as_nanos(), 61_440_000_000_000);
    assert_eq!(TimeUnit::Hours.to_duration(1024).as_nanos(), 3_686_400_000_000_000);
    assert_eq!(TimeUnit::Days.to_duration(1024).as_nanos(), 88_473_600_000_000_000);
}

#[test]
fn to_duration_is_exact_beyond_the_nanoseconds_of_64_bits() {
    // 300 000 days are more nanoseconds than 64 bits hold, but not more seconds.
    assert_eq!(TimeUnit::Days.checked_to_nanos(300_000), None);
    assert_eq!(TimeUnit::Days.to_duration(300_000), Duration::from_secs(25_920_000_000));
    assert_eq!(TimeUnit::Seconds.to_duration(u64::MAX), Duration::from_secs(u64::MAX));
    assert_eq!(TimeUnit::Milliseconds.to_duration(u64::MAX), Duration::from_millis(u64::MAX));
    let most_minutes = u64::MAX / 60;
    assert_eq!(
        TimeUnit::Minutes.to_duration(most_minutes),
        Duration::from_secs(most_minutes * 60)
    );
}

#[test]
fn to_duration_wraps_the_whole_seconds_around() {
    let minutes = u64::MAX / 60 + 1;
    assert_eq!(
        TimeUnit::Minutes.to_duration(minutes),
        Duration::from_secs(minutes.wrapping_mul(60))
    );
    assert_eq!(TimeUnit::Minutes.to_duration(minutes), Duration::from_secs(44));
    assert_eq!(
        TimeUnit::Days.to_duration(u64::MAX),
        Duration::from_secs(u64::MAX.wrapping_mul(86_400))
    );
}

#[test]
fn to_chrono_duration_uses_the_constructor_of_each_unit() {
    assert_eq!(
        TimeUnit::Nanoseconds.to_chrono_duration(100),
        chrono::Duration::nanoseconds(100)
    );
    assert_eq!(
        TimeUnit::Microseconds.to_chrono_duration(100),
        chrono::Duration::microseconds(100)
    );
    assert_eq!(
        TimeUnit::Milliseconds.to_chrono_duration(100),
        chrono::Duration::milliseconds(100)
    );
    assert_eq!(TimeUnit::Seconds.to_chrono_duration(1), chrono::Duration::seconds(1));
    assert_eq!(TimeUnit::Minutes.to_chrono_duration(1), chrono::Duration::minutes(1));
    assert_eq!(TimeUnit::Hours.to_chrono_duration(1), chrono::Duration::hours(1));
    assert_eq!(TimeUnit::Days.to_chrono_duration(1), chrono::Duration::days(1));
}

#[test]
fn to_chrono_duration_has_the_stated_length() {
    assert_eq!(TimeUnit::Nanoseconds.to_chrono_duration(1024).num_nanoseconds(), Some(1024));
    assert_eq!(
        TimeUnit::Microseconds.to_chrono_duration(1024).num_nanoseconds(),
        Some(1_024_000)
    );
    assert_eq!(
        TimeUnit::Milliseconds.to_chrono_duration(1024).num_nanoseconds(),
        Some(1_024_000_000)
    );
    assert_eq!(
        TimeUnit::Seconds.to_chrono_duration(1024).num_nanoseconds(),
        Some(1_024_000_000_000)
    );
    assert_eq!(
        TimeUnit::Minutes.to_chrono_duration(1024).num_nanoseconds(),
        Some(61_440_000_000_000)
    );
    assert_eq!(
        TimeUnit::Hours.to_chrono_duration(1024).num_nanoseconds(),
        Some(3_686_400_000_000_000)
    );
    assert_eq!(
        TimeUnit::Days.to_chrono_duration(1024).num_nanoseconds(),
        Some(88_473_600_000_000_000)
    );
}

#[test]
fn to_chrono_duration_reads_the_amount_as_signed() {
    assert_eq!(
        TimeUnit::Nanoseconds.to_chrono_duration(u64::MAX),
        chrono::Duration::nanoseconds(-1)
    );
    assert_eq!(
        TimeUnit::Seconds.to_chrono_duration(u64::MAX - 59),
        chrono::Duration::seconds(-60)
    );
    assert_eq!(
        TimeUnit::Microseconds.to_chrono_duration(1 << 63),
        chrono::Duration::microseconds(i64::MIN)
    );
    assert_eq!(
        TimeUnit::Nanoseconds.to_chrono_duration(i64::MAX as u64),
        chrono::Duration::nanoseconds(i64::MAX)
    );
}

#[test]
fn fits_chrono_duration_where_chrono_makes_a_duration() {
    let amounts: [u64; 20] = [
        0,
        1,
        1024,
        106_751_991_167,
        106_751_991_168,
        2_562_047_788_015,
        2_562_047_788_016,
        153_722_867_280_912,
        153_722_867_280_913,
        9_223_372_036_854_775,
        9_223_372_036_854_776,
        i64::MAX as u64,
        1 << 63,
        (1 << 63) + 1,
        u64::MAX - 9_223_372_036_854_775,
        u64::MAX - 9_223_372_036_854_774,
        u64::MAX - 153_722_867_280_912,
        u64::MAX - 153_722_867_280_911,
        u64::MAX - 1,
        u64::MAX,
    ];
    for amount in amounts {
        let value = amount as i64;
        assert!(TimeUnit::Nanoseconds.fits_chrono_duration(amount));
        assert!(TimeUnit::Microseconds.fits_chrono_duration(amount));
        assert_eq!(
            TimeUnit::Milliseconds.fits_chrono_duration(amount),
            chrono::Duration::try_milliseconds(value).is_some(),
            "{amount} ms"
        );
        assert_eq!(
            TimeUnit::Seconds.fits_chrono_duration(amount),
            chrono::Duration::try_seconds(value).is_some(),
            "{amount} s"
        );
        assert_eq!(
            TimeUnit::Minutes.fits_chrono_duration(amount),
            chrono::Duration::try_minutes(value).is_some(),
            "{amount} min"
        );
        assert_eq!(
            TimeUnit::Hours.fits_chrono_duration(amount),
            chrono::Duration::try_hours(value).is_some(),
            "{amount} h"
        );
        assert_eq!(
            TimeUnit::Days.fits_chrono_duration(amount),
            chrono::Duration::try_days(value).is_some(),
            "{amount} d"
        );
    }
}

#[test]
fn fits_chrono_duration_at_the_bounds() {
    assert!(TimeUnit::Milliseconds.fits_chrono_duration(i64::MAX as u64));
    assert!(!TimeUnit::Milliseconds.fits_chrono_duration(1 << 63));
    assert!(TimeUnit::Milliseconds.fits_chrono_duration((1 << 63) + 1));
    assert!(TimeUnit::Seconds.fits_chrono_duration(9_223_372_036_854_775));
    assert!(!TimeUnit::Seconds.fits_chrono_duration(9_223_372_036_854_776));
    assert!(TimeUnit::Days.fits_chrono_duration(106_751_991_167));
    assert!(!TimeUnit::Days.fits_chrono_duration(106_751_991_168));
    assert_eq!(
        TimeUnit::Days.to_chrono_duration(106_751_991_167),
        chrono::Duration::days(106_751_991_167)
    );
    assert_eq!(
        TimeUnit::Seconds.to_chrono_duration(u64::MAX - 9_223_372_036_854_774),
        chrono::Duration::seconds(-9_223_372_036_854_775)
    );
}

#[test]
fn durations_of_both_kinds_are_equally_long() {
    let amounts: [u64; 6] = [0, 1, 59, 1024, 86_400, 106_751_991_167];
    for unit in UNITS {
        for amount in amounts {
            assert!(unit.fits_chrono_duration(amount));
            let platform = unit.to_duration(amount);
            let collaborator = unit.to_chrono_duration(amount);
            assert_eq!(collaborator.to_std().expect("not negative"), platform);
            assert_eq!(
                chrono::Duration::from_std(platform).expect("in range"),
                collaborator
            );
        }
    }
}

#[test]
fn durations_differ_once_the_amount_reads_as_negative() {
    let amount: u64 = 1 << 63;
    assert_eq!(TimeUnit::Nanoseconds.to_duration(amount).as_nanos(), 1 << 63);
    assert_eq!(
        TimeUnit::Nanoseconds.to_chrono_duration(amount).num_nanoseconds(),
        Some(i64::MIN)
    );
}

#[test]
fn closure_sleep_hands_over_the_duration() {
    let calls = Cell::new(0);
    TimeUnit::Milliseconds.closure_sleep(1024, |x| {
        assert_eq!(x, Duration::from_millis(1024));
        calls.set(calls.get() + 1);
    });
    assert_eq!(calls.get(), 1);

    let seen = Cell::new(Duration::ZERO);
    TimeUnit::Hours.closure_sleep(2, |x| seen.set(x));
    assert_eq!(seen.get(), Duration::from_secs(7200));
}

#[test]
fn closure_chrono_sleep_hands_over_the_duration() {
    let calls = Cell::new(0);
    TimeUnit::Milliseconds.closure_chrono_sleep(1024, |x| {
        assert_eq!(x, chrono::Duration::milliseconds(1024));
        calls.set(calls.get() + 1);
    });
    assert_eq!(calls.get(), 1);

    let seen = Cell::new(chrono::Duration::zero());
    TimeUnit::Days.closure_chrono_sleep(3, |x| seen.set(x));
    assert_eq!(seen.get(), chrono::Duration::days(3));
}

#[test]
fn sleep_duration_is_the_whole_milliseconds() {
    assert_eq!(TimeUnit::Milliseconds.sleep_duration(1024), Duration::from_millis(1024));
    assert_eq!(TimeUnit::Microseconds.sleep_duration(1999), Duration::from_millis(1));
    assert_eq!(TimeUnit::Nanoseconds.sleep_duration(999_999), Duration::ZERO);
    assert_eq!(TimeUnit::Seconds.sleep_duration(2), Duration::from_millis(2000));
    assert_eq!(TimeUnit::Minutes.sleep_duration(1), Duration::from_secs(60));
    for unit in UNITS {
        assert_eq!(unit.sleep_duration(7), Duration::from_millis(unit.to_millis(7)));
    }
}
