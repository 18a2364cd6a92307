use local_ta::clock::{MillisecondsSinceEpoch, StdClock, MILLIS_PER_SEC, NANOS_PER_MILLI, NANOS_PER_SEC};

#[test]
fn a_reading_becomes_whole_milliseconds() {
    let clock = StdClock::default();
    assert_eq!(clock.now(0, 5, 123_456_789), MillisecondsSinceEpoch(5123));
    assert_eq!(clock.now(0, 0, 0), MillisecondsSinceEpoch(0));
    assert_eq!(clock.now(0, 0, 999_999), MillisecondsSinceEpoch(0));
    assert_eq!(clock.now(0, 0, 1_000_000), MillisecondsSinceEpoch(1));
    assert_eq!(clock.now(0, 1, 0), MillisecondsSinceEpoch(1000));
    assert_eq!(clock.now(0, 86_400, 999_999_999), MillisecondsSinceEpoch(86_400_999));
    assert_eq!(clock.now(7, 2, 500_000_000), MillisecondsSinceEpoch(2500));
}

#[test]
fn a_failed_reading_gives_zero() {
    let clock = StdClock;
    assert_eq!(clock.now(-1, 0, 0), MillisecondsSinceEpoch(0));
    assert_eq!(clock.now(-1, 12, 345_678_901), MillisecondsSinceEpoch(0));
    assert_eq!(clock.now(i32::MIN, i64::MAX, i64::MAX), MillisecondsSinceEpoch(0));
}

#[test]
fn readings_outside_the_usual_are_cut_towards_zero() {
    let clock = StdClock;
    assert_eq!(clock.now(0, -5, 999_999), MillisecondsSinceEpoch(-5000));
    assert_eq!(clock.now(0, 3, -1), MillisecondsSinceEpoch(3000));
    assert_eq!(clock.now(0, 3, -1_000_000), MillisecondsSinceEpoch(2999));
    assert_eq!(clock.now(0, 3, -1_999_999), MillisecondsSinceEpoch(2999));
    assert_eq!(clock.now(0, 0, 5_000_000_000), MillisecondsSinceEpoch(5000));
}

#[test]
fn a_later_reading_never_gives_an_earlier_time() {
    let clock = StdClock;
    let readings: [(i64, i64); 8] = [
        (0, 0),
        (0, 999_999),
        (0, 1_000_000),
        (0, 999_999_999),
        (1, 0),
        (1, 1),
        (41, 500_000_000),
        (42, 0),
    ];
    let mut last = MillisecondsSinceEpoch(0);
    for (sec, nsec) in readings {
        assert!(StdClock::fits(sec, nsec));
        let t = clock.now(0, sec, nsec);
        assert!(t.0 >= last.0);
        last = t;
    }
    assert_eq!(last, MillisecondsSinceEpoch(42_000));
}

#[test]
fn fits_tells_when_the_milliseconds_have_room() {
    assert!(StdClock::fits(0, 0));
    assert!(StdClock::fits(i64::MAX / 1000, 0));
    assert!(StdClock::fits(i64::MAX / 1000, 807_999_999));
    assert!(!StdClock::fits(i64::MAX / 1000, 808_000_000));
    assert!(!StdClock::fits(i64::MAX / 1000 + 1, 0));
    assert!(!StdClock::fits(i64::MAX, 0));
    assert!(StdClock::fits(i64::MIN / 1000, 0));
    assert!(!StdClock::fits(i64::MIN / 1000, -809_000_000));
    assert!(!StdClock::fits(i64::MIN / 1000 - 1, 0));
    assert!(StdClock::fits(0, i64::MAX));
    assert!(StdClock::fits(0, i64::MIN + 1));
}

#[test]
fn the_largest_reading_that_fits_is_converted() {
    let clock = StdClock;
    let sec = i64::MAX / 1000;
    assert_eq!(clock.now(0, sec, 807_999_999), MillisecondsSinceEpoch(i64::MAX));
}

#[test]
fn the_units_are_what_their_names_say() {
    assert_eq!(MILLIS_PER_SEC, 1000);
    assert_eq!(NANOS_PER_MILLI, 1_000_000);
    assert_eq!(NANOS_PER_SEC, MILLIS_PER_SEC * NANOS_PER_MILLI);
}

#[test]
fn checked_now_takes_any_reading() {
    let clock = StdClock;
    assert_eq!(clock.checked_now(0, 5, 123_456_789), Some(MillisecondsSinceEpoch(5123)));
    assert_eq!(clock.checked_now(-1, i64::MAX, i64::MAX), Some(MillisecondsSinceEpoch(0)));
    assert_eq!(clock.checked_now(0, i64::MAX, 0), None);
    assert_eq!(clock.checked_now(0, i64::MAX / 1000, 808_000_000), None);
    assert_eq!(clock.checked_now(0, i64::MIN, 0), None);
    assert_eq!(
        clock.checked_now(0, i64::MAX / 1000, 807_999_999),
        Some(MillisecondsSinceEpoch(i64::MAX))
    );
}

#[test]
fn time_spent_suspended_is_counted() {
    let clock = StdClock;
    let before = clock.now(0, 100, 999_999_999);
    let after = clock.now(0, 103, 500_000_000);
    assert!(after.0 - before.0 >= 2500);
    assert_eq!(after.0 - before.0, 2501);
}
