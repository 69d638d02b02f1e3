use proxy_gateway::clock::{can_measure, is_stale, Stamp, MAX_SPAN_SECS, STALE_AFTER_SECS};

fn at(sec: i64, nsec: i32) -> Stamp {
    Stamp::new(sec, nsec).unwrap()
}

#[test]
fn stamp_new_takes_nanoseconds_below_one_second() {
    assert_eq!(Stamp::new(5, 0), Some(Stamp { sec: 5, nsec: 0 }));
    assert_eq!(Stamp::new(-2, 999_999_999), Some(Stamp { sec: -2, nsec: 999_999_999 }));
}

#[test]
fn stamp_new_refuses_other_nanoseconds() {
    assert_eq!(Stamp::new(5, 1_000_000_000), None);
    assert_eq!(Stamp::new(5, -1), None);
}

#[test]
fn stale_after_two_seconds_exactly() {
    assert_eq!(STALE_AFTER_SECS, 2);
    assert!(is_stale(at(12, 0), at(10, 0)));
    assert!(is_stale(at(12, 500), at(10, 500)));
    assert!(is_stale(at(13, 0), at(10, 999_999_999)));
}

#[test]
fn fresh_one_nanosecond_before_two_seconds() {
    assert!(!is_stale(at(11, 999_999_999), at(10, 0)));
    assert!(!is_stale(at(12, 0), at(10, 1)));
    assert!(!is_stale(at(10, 0), at(10, 0)));
}

#[test]
fn fresh_when_the_clock_went_back() {
    assert!(!is_stale(at(10, 0), at(12, 0)));
    assert!(!is_stale(at(-5, 0), at(100, 0)));
}

#[test]
fn stale_across_the_epoch() {
    assert!(is_stale(at(1, 0), at(-1, 0)));
    assert!(!is_stale(at(0, 999_999_999), at(-1, 0)));
}

#[test]
fn stale_differs_from_its_arguments() {
    // The answer depends on the distance of the readings, not on either alone.
    assert!(is_stale(at(100, 0), at(98, 0)));
    assert!(!is_stale(at(100, 0), at(99, 0)));
    assert!(!is_stale(at(98, 0), at(98, 0)));
}

#[test]
fn can_measure_within_the_span() {
    assert!(can_measure(at(MAX_SPAN_SECS, 0), at(0, 0)));
    assert!(can_measure(at(0, 0), at(MAX_SPAN_SECS, 0)));
    assert!(is_stale(at(MAX_SPAN_SECS, 0), at(0, 0)));
    assert!(!is_stale(at(0, 0), at(MAX_SPAN_SECS, 0)));
}

#[test]
fn cannot_measure_beyond_the_span() {
    assert!(!can_measure(at(MAX_SPAN_SECS + 1, 0), at(0, 0)));
    assert!(!can_measure(at(i64::MAX, 0), at(i64::MIN, 0)));
    assert!(!can_measure(at(i64::MIN, 0), at(i64::MAX, 0)));
}

#[test]
fn cannot_measure_unsound_readings() {
    assert!(!can_measure(Stamp { sec: 1, nsec: 1_000_000_000 }, at(0, 0)));
    assert!(!can_measure(at(1, 0), Stamp { sec: 0, nsec: -1 }));
}
