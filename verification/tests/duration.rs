use keepawake::Duration;

#[test]
fn seconds_and_nanoseconds() {
    let d = Duration::from_millis(1_500);
    assert_eq!(d.as_secs(), 1);
    assert_eq!(d.subsec_nanos(), 500_000_000);
    assert_eq!(d.as_nanos(), 1_500_000_000);
    assert!(!d.is_zero());
    assert!(Duration::zero().is_zero());
}

#[test]
fn saturating_sub_stops_at_zero() {
    let a = Duration::from_secs(10);
    let b = Duration::from_secs(3);
    assert_eq!(a.saturating_sub(b), Duration::from_secs(7));
    assert_eq!(b.saturating_sub(a), Duration::zero());
    assert_eq!(a.saturating_sub(a), Duration::zero());
}

#[test]
fn at_least_compares_lengths() {
    let a = Duration::from_secs(10);
    let b = Duration::from_millis(10_001);
    assert!(b.at_least(&a));
    assert!(!a.at_least(&b));
    assert!(a.at_least(&a));
}

#[test]
fn from_nanos_keeps_the_range() {
    assert_eq!(Duration::from_nanos(42).map(|d| d.as_nanos()), Some(42));
    let max = Duration::from_secs(u64::MAX).as_nanos() + 999_999_999;
    assert!(Duration::from_nanos(max).is_some());
    assert!(Duration::from_nanos(max + 1).is_none());
    assert_eq!(Duration::from_nanos(max).unwrap().as_secs(), u64::MAX);
}

