use launchdarkly_server_sdk::interval::Interval;

#[test]
fn interval_from_secs_and_millis_agree() {
    assert_eq!(Interval::from_secs(2), Interval::from_millis(2000));
    assert_ne!(Interval::from_secs(2), Interval::from_millis(2001));
}

#[test]
fn interval_parts() {
    let interval = Interval::from_millis(61_250);
    assert_eq!(interval.as_secs(), 61);
    assert_eq!(interval.subsec_nanos(), 250_000_000);
    assert_eq!(interval.as_millis(), 61_250);
    assert_eq!(interval.as_millis_saturating(), 61_250);
}

#[test]
fn interval_of_most_seconds_saturates_in_millis() {
    let interval = Interval::from_secs(u64::MAX);
    assert_eq!(interval.as_secs(), u64::MAX);
    assert_eq!(interval.as_millis(), (u64::MAX as u128) * 1000);
    assert_eq!(interval.as_millis_saturating(), u64::MAX);
}

#[test]
fn interval_from_most_millis() {
    let interval = Interval::from_millis(u64::MAX);
    assert_eq!(interval.as_secs(), u64::MAX / 1000);
    assert_eq!(interval.subsec_nanos(), ((u64::MAX % 1000) as u32) * 1_000_000);
    assert_eq!(interval.as_millis_saturating(), u64::MAX);
}

#[test]
fn interval_order() {
    let short = Interval::from_millis(999);
    let long = Interval::from_secs(1);
    assert!(short.shorter_than(&long));
    assert!(!long.shorter_than(&short));
    assert!(!long.shorter_than(&long));
    assert_eq!(short.at_least(long), long);
    assert_eq!(long.at_least(short), long);
    assert_eq!(Interval::from_millis(1500).at_least(long), Interval::from_millis(1500));
}
