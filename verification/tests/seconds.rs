use chrono::TimeDelta;
use orbitsim::seconds::Seconds;

#[test]
fn seconds_duration_round_trip() {
    // Seconds holds whole nanoseconds, so converting a duration in and back
    // out reproduces it exactly (well within the one-nanosecond bound).
    for ns in [0i64, 1, 999_999_999, 1_000_000_000, 86_400_000_000_000, i64::MAX] {
        assert_eq!(Seconds::from_nanos(ns).to_duration(), ns);
    }
}

#[test]
fn seconds_round_trip_through_chrono() {
    for d in [
        TimeDelta::nanoseconds(1),
        TimeDelta::microseconds(123),
        TimeDelta::seconds(59),
        TimeDelta::minutes(1),
        TimeDelta::hours(4),
        TimeDelta::days(90),
    ] {
        let ns = d.num_nanoseconds().unwrap();
        let s = Seconds::from_nanos(ns);
        assert_eq!(TimeDelta::nanoseconds(s.to_duration()), d);
    }
}

#[test]
fn seconds_round_trip_through_wall_clock() {
    for d in [
        std::time::Duration::new(0, 1),
        std::time::Duration::new(5, 123_456_789),
        std::time::Duration::from_millis(16),
    ] {
        let ns = d.as_nanos() as i64;
        let s = Seconds::from_nanos(ns);
        assert_eq!(s.to_duration(), ns);
    }
}

#[test]
fn seconds_clamping() {
    let a = Seconds(10);
    let b = Seconds(-3);
    assert_eq!(a.at_least(b), Seconds(10));
    assert_eq!(b.at_least(a), Seconds(10));
    assert_eq!(a.at_most(b), Seconds(-3));
    assert_eq!(b.at_most(a), Seconds(-3));
    assert_eq!(a.at_least(a), a);
}

#[test]
fn seconds_times_scales_by_seconds() {
    // One day of simulated time per wall second, times 2.5 wall seconds.
    let speed = Seconds(86_400_000_000_000);
    let elapsed = Seconds(2_500_000_000);
    assert_eq!(speed.times(elapsed), Seconds(216_000_000_000_000));
    // Truncation toward zero at nanosecond resolution.
    assert_eq!(Seconds(3).times(Seconds(500_000_000)), Seconds(1));
    // Saturation at the largest representable duration.
    assert_eq!(Seconds(i64::MAX).times(Seconds(i64::MAX)), Seconds(i64::MAX));
}

#[test]
fn seconds_division() {
    let hour = Seconds(3_600_000_000_000);
    assert_eq!(hour.div_by(100), Seconds(36_000_000_000));
    assert_eq!(hour.div_by(10_000), Seconds(360_000_000));
    assert_eq!(Seconds(7).div_by(2), Seconds(3));
    assert_eq!(Seconds(86_400_000_000_000).ratio_ceil(Seconds(60_000_000_000)), 1440);
    assert_eq!(Seconds(1).ratio_ceil(Seconds(60_000_000_000)), 1);
    assert_eq!(Seconds(0).ratio_ceil(Seconds(60_000_000_000)), 0);
    assert_eq!(Seconds(61).ratio_ceil(Seconds(60)), 2);
}

#[test]
fn seconds_negation() {
    assert_eq!(Seconds(5).neg(), Seconds(-5));
    assert_eq!(Seconds(-5).neg(), Seconds(5));
    assert_eq!(Seconds(0).neg(), Seconds(0));
}
