use quadrender::time::{duration_from_nanos, TickTimer};
use std::time::Duration;

#[test]
fn nanos_split_into_seconds() {
    assert_eq!(duration_from_nanos(1_500_000_000), Duration::new(1, 500_000_000));
    assert_eq!(duration_from_nanos(0), Duration::ZERO);
    assert_eq!(duration_from_nanos(999), Duration::from_nanos(999));
}

#[test]
fn ticks_add_up_to_at_most_the_total() {
    let mut t = TickTimer::default();
    let a = t.tick();
    let waited = t.total_elapsed() + Duration::from_millis(2);
    while t.total_elapsed() < waited {}
    let b = t.tick();
    assert!(b >= Duration::from_millis(2));
    assert!(a + b <= t.total_elapsed());
}

#[test]
fn ticks_at_given_times() {
    let mut t = TickTimer::default();
    assert_eq!(t.tick_at(5), Duration::from_nanos(5));
    assert_eq!(t.tick_at(3), Duration::ZERO);
    assert_eq!(t.tick_at(1_000_000_010), Duration::new(1, 5));
    assert_eq!(t.tick_at(1_000_000_010), Duration::ZERO);
}
