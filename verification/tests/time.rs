use nanocron::time::{Instant, Wait, MAX_SECS, MAX_SLEEP_SECS, MIN_SECS, NANOS_PER_SEC};

fn at(secs: i64, nanos: u32) -> Instant {
    Instant::new(secs, nanos).unwrap()
}

fn lasting(secs: u64, nanos: u32) -> Wait {
    Wait::new(secs, nanos).unwrap()
}

#[test]
fn instant_keeps_seconds_and_nanoseconds() {
    let t = at(1_700_000_000, 123_456_789);
    assert_eq!(t.secs(), 1_700_000_000);
    assert_eq!(t.nanos(), 123_456_789);
    let before_epoch = at(-1, 999_999_999);
    assert_eq!(before_epoch.secs(), -1);
    assert_eq!(before_epoch.nanos(), 999_999_999);
}

#[test]
fn instant_range_is_the_years_1_to_9999() {
    assert_eq!(MIN_SECS, -62_135_596_800);
    assert_eq!(MAX_SECS, 253_402_300_799);
    assert!(Instant::new(MIN_SECS, 0).is_some());
    assert!(Instant::new(MAX_SECS, 999_999_999).is_some());
    assert!(Instant::new(MIN_SECS - 1, 0).is_none());
    assert!(Instant::new(MAX_SECS + 1, 0).is_none());
    assert!(Instant::new(i64::MIN, 0).is_none());
    assert!(Instant::new(i64::MAX, 0).is_none());
    let first = chrono::DateTime::from_timestamp(MIN_SECS, 0).unwrap();
    assert_eq!(first.to_rfc3339(), "0001-01-01T00:00:00+00:00");
    let last = chrono::DateTime::from_timestamp(MAX_SECS, 0).unwrap();
    assert_eq!(last.to_rfc3339(), "9999-12-31T23:59:59+00:00");
}

#[test]
fn instant_refuses_a_full_second_of_nanoseconds() {
    assert_eq!(NANOS_PER_SEC, 1_000_000_000);
    assert!(Instant::new(0, 999_999_999).is_some());
    assert!(Instant::new(0, 1_000_000_000).is_none());
    assert!(Instant::new(0, u32::MAX).is_none());
}

#[test]
fn is_after_is_strict() {
    let t = at(100, 5);
    assert!(!t.is_after(&t));
    assert!(at(100, 6).is_after(&t));
    assert!(!at(100, 4).is_after(&t));
    assert!(at(101, 0).is_after(&t));
    assert!(!at(99, 999_999_999).is_after(&t));
    assert!(at(0, 0).is_after(&at(-1, 999_999_999)));
}

#[test]
fn wait_until_is_the_difference() {
    assert_eq!(at(10, 0).wait_until(&at(100, 5)), Some(lasting(90, 5)));
    assert_eq!(at(10, 0).wait_until(&at(10, 0)), Some(lasting(0, 0)));
    assert_eq!(at(10, 7).wait_until(&at(10, 9)), Some(lasting(0, 2)));
}

#[test]
fn wait_until_borrows_a_second_for_the_nanoseconds() {
    assert_eq!(at(10, 900_000_000).wait_until(&at(12, 100_000_000)), Some(lasting(1, 200_000_000)));
    assert_eq!(at(-1, 999_999_999).wait_until(&at(0, 0)), Some(lasting(0, 1)));
}

#[test]
fn wait_until_has_no_wait_into_the_past() {
    assert_eq!(at(100, 5).wait_until(&at(100, 4)), None);
    assert_eq!(at(100, 5).wait_until(&at(99, 999_999_999)), None);
    assert_eq!(at(0, 0).wait_until(&at(-50, 0)), None);
}

#[test]
fn wait_until_spans_the_whole_range() {
    let first = at(MIN_SECS, 0);
    let last = at(MAX_SECS, 999_999_999);
    assert_eq!(first.wait_until(&last), Some(lasting(315_537_897_599, 999_999_999)));
    assert_eq!(last.wait_until(&first), None);
}

#[test]
fn wait_until_agrees_with_the_calendar() {
    let pairs = [
        ((1_700_000_000i64, 250_000_000u32), (1_700_000_060i64, 0u32)),
        ((1_700_000_000, 0), (1_700_000_000, 1)),
        ((-5, 100), (5, 50)),
        ((1_700_000_000, 999_999_999), (1_700_086_400, 0)),
    ];
    for ((s0, n0), (s1, n1)) in pairs {
        let now = chrono::DateTime::from_timestamp(s0, n0).unwrap();
        let next = chrono::DateTime::from_timestamp(s1, n1).unwrap();
        let expected = (next - now).to_std().unwrap();
        let wait = at(s0, n0).wait_until(&at(s1, n1)).unwrap();
        assert_eq!(wait.secs(), expected.as_secs());
        assert_eq!(wait.nanos(), expected.subsec_nanos());
        assert!((now - next).to_std().is_err());
        assert_eq!(at(s1, n1).wait_until(&at(s0, n0)), None);
    }
}

#[test]
fn wait_keeps_seconds_and_nanoseconds() {
    let w = lasting(12, 34);
    assert_eq!(w.secs(), 12);
    assert_eq!(w.nanos(), 34);
    assert!(Wait::new(0, 1_000_000_000).is_none());
    assert!(Wait::new(u64::MAX, 999_999_999).is_some());
}

#[test]
fn capped_leaves_a_short_wait_alone() {
    assert_eq!(MAX_SLEEP_SECS, 300);
    assert_eq!(lasting(0, 0).capped(), lasting(0, 0));
    assert_eq!(lasting(0, 1).capped(), lasting(0, 1));
    assert_eq!(lasting(59, 500).capped(), lasting(59, 500));
    assert_eq!(lasting(299, 999_999_999).capped(), lasting(299, 999_999_999));
    assert_eq!(lasting(300, 0).capped(), lasting(300, 0));
}

#[test]
fn capped_cuts_a_long_wait_to_five_minutes() {
    assert_eq!(lasting(300, 1).capped(), lasting(300, 0));
    assert_eq!(lasting(300, 500_000_000).capped(), lasting(300, 0));
    assert_eq!(lasting(301, 0).capped(), lasting(300, 0));
    assert_eq!(lasting(86_400, 0).capped(), lasting(300, 0));
    assert_eq!(lasting(u64::MAX, 999_999_999).capped(), lasting(300, 0));
}

#[test]
fn capped_is_the_smaller_of_the_wait_and_the_limit() {
    let limit = std::time::Duration::from_secs(300);
    for (secs, nanos) in [(0u64, 0u32), (1, 0), (299, 1), (300, 0), (300, 999), (5000, 7)] {
        let wait = std::time::Duration::new(secs, nanos);
        let expected = std::cmp::min(wait, limit);
        let capped = lasting(secs, nanos).capped();
        assert_eq!(capped.secs(), expected.as_secs());
        assert_eq!(capped.nanos(), expected.subsec_nanos());
    }
}
