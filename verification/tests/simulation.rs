use chrono::{TimeDelta, TimeZone, Utc};
use orbitsim::control::ControlEvent;
use orbitsim::seconds::Seconds;
use orbitsim::simulation::Simulation;
use orbitsim::snapshot::{Snapshot, Vec3};

const SCALE: f64 = 1e9;

fn utc_nanos(y: i32, mo: u32, d: u32, h: u32, mi: u32, s: u32) -> i64 {
    Utc.with_ymd_and_hms(y, mo, d, h, mi, s)
        .unwrap()
        .timestamp_nanos_opt()
        .unwrap()
}

fn dist_km(p: &Vec3) -> f64 {
    let x = p.x as f64 / SCALE;
    let y = p.y as f64 / SCALE;
    let z = p.z as f64 / SCALE;
    (x * x + y * y + z * z).sqrt()
}

fn day_speed(sim: &Simulation) -> orbitsim::choice::Choice<Seconds> {
    sim.status()
        .speed
        .choice_set()
        .by_value(Seconds(86_400_000_000_000))
}

#[test]
fn preset_timestamps_match_calendar() {
    assert_eq!(
        Snapshot::solar_eclipse_aug_2017().timestamp,
        utc_nanos(2017, 8, 21, 15, 46, 48)
    );
    assert_eq!(
        Snapshot::lunar_eclipse_may_2022().timestamp,
        utc_nanos(2022, 5, 16, 1, 32, 7)
    );
    assert_eq!(Snapshot::simple().timestamp, utc_nanos(2000, 1, 1, 0, 0, 0));
    assert_eq!(
        Snapshot::test_no_moon_inclination().timestamp,
        utc_nanos(2000, 1, 1, 0, 0, 0)
    );
    assert_eq!(
        Snapshot::test_high_moon_inclination().timestamp,
        utc_nanos(2000, 1, 1, 0, 0, 0)
    );
}

#[test]
fn preset_speeds_match_calendar_durations() {
    let sim = Simulation::new(Snapshot::simple());
    let speeds = sim.status().speed.choice_set();
    let expected = [
        TimeDelta::minutes(1),
        TimeDelta::minutes(15),
        TimeDelta::hours(1),
        TimeDelta::hours(4),
        TimeDelta::days(1),
        TimeDelta::days(5),
        TimeDelta::days(30),
        TimeDelta::days(90),
    ];
    assert_eq!(speeds.len(), expected.len());
    for (i, d) in expected.iter().enumerate() {
        assert_eq!(speeds.value_at(i).0, d.num_nanoseconds().unwrap());
    }
    // The initial selection is one hour per wall second.
    assert_eq!(sim.status().speed.get().0, 3_600_000_000_000);
}

#[test]
fn start_stop_toggle() {
    let mut sim = Simulation::new(Snapshot::simple());
    assert!(!sim.status().running);
    sim.start(100);
    assert!(sim.status().running);
    sim.stop();
    assert!(!sim.status().running);
    sim.toggle_start(200);
    assert!(sim.status().running);
    sim.toggle_start(300);
    assert!(!sim.status().running);
}

#[test]
fn advance_while_stopped_is_a_no_op() {
    let mut sim = Simulation::new(Snapshot::simple());
    let before = sim.current;
    sim.advance(5_000_000_000);
    assert_eq!(sim.current, before);
}

#[test]
fn advance_tracks_wall_clock_exactly() {
    // At one hour per wall second, two wall seconds advance the simulated
    // time by exactly two hours.
    let mut sim = Simulation::new(Snapshot::simple());
    let t0 = sim.status().timestamp;
    sim.start(0);
    sim.advance(2_000_000_000);
    assert_eq!(sim.status().timestamp, t0 + 2 * 3_600_000_000_000);
    // A later call continues from the same start reference.
    sim.advance(3_000_000_000);
    assert_eq!(sim.status().timestamp, t0 + 3 * 3_600_000_000_000);
}

#[test]
fn advance_in_reverse_runs_time_backward() {
    let mut sim = Simulation::new(Snapshot::simple());
    let t0 = sim.status().timestamp;
    sim.reverse(0);
    assert!(sim.status().reverse);
    sim.start(0);
    sim.advance(2_000_000_000);
    assert_eq!(sim.status().timestamp, t0 - 2 * 3_600_000_000_000);
}

#[test]
fn end_to_end_one_simulated_day() {
    // Earth at (1.5210e8, 0, 0) km with velocity (0, 29.3, 0) km/s, the Moon
    // 372,000 km closer at (0, 30.322, 0) km/s, at 2000-01-01T00:00:00Z:
    // at one day per wall second, one wall second of running lands exactly
    // on 2000-01-02T00:00:00Z, and the orbit stays near-circular.
    let mut sim = Simulation::new(Snapshot::simple());
    let start_dist = dist_km(&sim.current.earth_position);
    let speed = day_speed(&sim);
    sim.adjust_speed(speed, 0);
    sim.start(0);
    sim.advance(1_000_000_000);
    assert_eq!(sim.status().timestamp, utc_nanos(2000, 1, 2, 0, 0, 0));
    let end_dist = dist_km(&sim.current.earth_position);
    assert!(
        (end_dist - start_dist).abs() / start_dist < 1e-3,
        "earth moved from {start_dist} to {end_dist} km"
    );
}

#[test]
fn speed_change_restarts_the_run() {
    // A speed change while running equals stopping and starting fresh with
    // the new speed at the moment of the change: no memory of the old speed
    // leaks into the elapsed-time computation.
    let mut a = Simulation::new(Snapshot::simple());
    a.start(0);
    a.advance(1_000_000_000);

    // Freeze a second controller at the same state, already stopped.
    let mut b = Simulation::new(a.current);
    assert_eq!(b.current, a.current);

    let fast = a
        .status()
        .speed
        .choice_set()
        .by_value(Seconds(7_776_000_000_000_000));
    a.adjust_speed(fast, 1_000_000_000);
    let fast_b = b
        .status()
        .speed
        .choice_set()
        .by_value(Seconds(7_776_000_000_000_000));
    b.adjust_speed(fast_b, 1_000_000_000);
    b.start(1_000_000_000);

    a.advance(4_000_000_000);
    b.advance(4_000_000_000);
    assert_eq!(a.current, b.current);
    assert_eq!(a.status().timestamp, b.status().timestamp);
    assert_eq!(a.status().running, b.status().running);
}

#[test]
fn step_count_cap_still_lands_on_target() {
    // 90 days per wall second for 100 wall seconds is 9,000 simulated days.
    // The step-size band caps the work at MAX_STEPS_PER_FRAME integration
    // steps, yet the timestamp still lands on start + speed * elapsed
    // exactly.
    let mut sim = Simulation::new(Snapshot::simple());
    let fast = sim
        .status()
        .speed
        .choice_set()
        .by_value(Seconds(7_776_000_000_000_000));
    sim.adjust_speed(fast, 0);
    let t0 = sim.status().timestamp;
    sim.start(0);
    sim.advance(100_000_000_000);
    let expected = t0 + 100 * 7_776_000_000_000_000;
    assert_eq!(sim.status().timestamp, expected);
}

#[test]
fn jump_forward_and_back() {
    // From Stopped, JumpForward advances the timestamp by exactly one
    // speed-unit; JumpBack mirrors it; both leave the controller stopped
    // with its reverse flag unchanged.
    let mut sim = Simulation::new(Snapshot::simple());
    let day = day_speed(&sim);
    sim.adjust_speed(day, 0);
    let t0 = sim.status().timestamp;
    sim.handle_event(&ControlEvent::JumpForward, 0);
    assert_eq!(sim.status().timestamp, t0 + 86_400_000_000_000);
    assert!(!sim.status().running);
    assert!(!sim.status().reverse);
    sim.handle_event(&ControlEvent::JumpBack, 0);
    assert_eq!(sim.status().timestamp, t0);
    assert!(!sim.status().running);
    assert!(!sim.status().reverse);
}

#[test]
fn jump_is_ignored_while_running() {
    let mut sim = Simulation::new(Snapshot::simple());
    sim.start(0);
    let t_before = sim.status().timestamp;
    sim.handle_event(&ControlEvent::JumpForward, 0);
    assert_eq!(sim.status().timestamp, t_before);
    assert!(sim.status().running);
}

#[test]
fn faster_and_slower_walk_the_presets() {
    let mut sim = Simulation::new(Snapshot::simple());
    assert_eq!(sim.status().speed.index(), 2);
    sim.handle_event(&ControlEvent::Faster, 0);
    assert_eq!(sim.status().speed.get().0, 14_400_000_000_000);
    sim.handle_event(&ControlEvent::Slower, 0);
    sim.handle_event(&ControlEvent::Slower, 0);
    assert_eq!(sim.status().speed.get().0, 900_000_000_000);
    // Clamped at the first preset.
    for _ in 0..5 {
        sim.handle_event(&ControlEvent::Slower, 0);
    }
    assert_eq!(sim.status().speed.get().0, 60_000_000_000);
    // Clamped at the last preset.
    for _ in 0..10 {
        sim.handle_event(&ControlEvent::Faster, 0);
    }
    assert_eq!(sim.status().speed.get().0, 7_776_000_000_000_000);
}

#[test]
fn set_speed_event() {
    let mut sim = Simulation::new(Snapshot::simple());
    let day = day_speed(&sim);
    sim.handle_event(&ControlEvent::SetSpeed(day), 0);
    assert_eq!(sim.status().speed.get().0, 86_400_000_000_000);
}

#[test]
fn reverse_event_restarts_while_running() {
    let mut sim = Simulation::new(Snapshot::simple());
    let t0 = sim.status().timestamp;
    sim.start(0);
    sim.advance(1_000_000_000);
    assert_eq!(sim.status().timestamp, t0 + 3_600_000_000_000);
    // Reversing recaptures the start reference: one further wall second
    // takes one hour off the timestamp reached at the reversal.
    sim.handle_event(&ControlEvent::Reverse, 1_000_000_000);
    assert!(sim.status().reverse);
    assert!(sim.status().running);
    sim.advance(2_000_000_000);
    assert_eq!(sim.status().timestamp, t0);
}

#[test]
fn status_reports_controller_state() {
    let mut sim = Simulation::new(Snapshot::solar_eclipse_aug_2017());
    let st = sim.status();
    assert_eq!(st.timestamp, utc_nanos(2017, 8, 21, 15, 46, 48));
    assert!(!st.running);
    assert!(!st.reverse);
    assert_eq!(st.speed.get().0, 3_600_000_000_000);
    sim.start(42);
    assert!(sim.status().running);
}

#[test]
fn non_monotone_clock_does_not_rewind() {
    // If the wall clock reading handed to advance moves backward, the
    // simulation holds its position rather than stepping back.
    let mut sim = Simulation::new(Snapshot::simple());
    let t0 = sim.status().timestamp;
    sim.start(1_000_000_000);
    sim.advance(3_000_000_000);
    assert_eq!(sim.status().timestamp, t0 + 2 * 3_600_000_000_000);
    sim.advance(2_000_000_000);
    assert_eq!(sim.status().timestamp, t0 + 2 * 3_600_000_000_000);
}
