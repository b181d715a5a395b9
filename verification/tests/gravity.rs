use orbitsim::gravity::{gacc, gacc_earth_and_moon, isqrt_u128, step, SUN_MASS_KG};
use orbitsim::seconds::Seconds;
use orbitsim::snapshot::{Snapshot, Vec3};

/// Fixed-point units per kilometer (and per km/s).
const SCALE: f64 = 1e9;
/// Fixed-point units per km/s² of acceleration.
const ACC_SCALE: f64 = 1e18;

fn km(v: i64) -> f64 {
    v as f64 / SCALE
}

fn dist_km(p: &Vec3) -> f64 {
    (km(p.x).powi(2) + km(p.y).powi(2) + km(p.z).powi(2)).sqrt()
}

fn close(a: f64, b: f64, rel: f64) {
    let scale = a.abs().max(b.abs()).max(1.0);
    assert!(
        (a - b).abs() <= rel * scale,
        "{a} and {b} differ by more than a relative {rel}"
    );
}

#[test]
fn isqrt_small_and_large() {
    assert_eq!(isqrt_u128(0), 0);
    assert_eq!(isqrt_u128(1), 1);
    assert_eq!(isqrt_u128(3), 1);
    assert_eq!(isqrt_u128(4), 2);
    assert_eq!(isqrt_u128(99), 9);
    assert_eq!(isqrt_u128(100), 10);
    assert_eq!(isqrt_u128(10u128.pow(30)), 10u64.pow(15));
    assert_eq!(isqrt_u128(u128::MAX), u64::MAX);
}

#[test]
fn gacc_matches_solar_acceleration_at_one_au() {
    // Earth-like distance: 1 AU on the x axis.
    let au_km = 1.496e8;
    let pos = Vec3::new((au_km * SCALE) as i64, 0, 0);
    let sun = Vec3::new(0, 0, 0);
    let a = gacc(&pos, &sun, SUN_MASS_KG);
    // Known solar gravitational acceleration at 1 AU: G*M/r² with the km
    // conversion, about 5.93e-6 km/s².
    let expected = 6.6743e-11 * 1.9885e30 * 1e-9 / (au_km * au_km);
    close(expected, 5.93e-6, 1e-2);
    let got = -(a.x as f64) / ACC_SCALE;
    close(got, expected, 1e-3);
    assert_eq!(a.y, 0);
    assert_eq!(a.z, 0);
    // The acceleration points back toward the Sun.
    assert!(a.x < 0);
}

#[test]
fn gacc_zero_at_coincident_positions() {
    let p = Vec3::new(5, 5, 5);
    let a = gacc(&p, &p, SUN_MASS_KG);
    assert_eq!((a.x, a.y, a.z), (0, 0, 0));
}

#[test]
fn gacc_earth_and_moon_directions() {
    let s = Snapshot::simple();
    let (ea, ma) = gacc_earth_and_moon(&s.earth_position, &s.moon_position);
    // Both Sun and Moon lie in the -x direction from Earth.
    assert!(ea.x < 0);
    // The Moon is pulled sunward by the Sun but earthward (+x) by Earth;
    // at 372,000 km the Sun's pull dominates.
    assert!(ma.x < 0);
    // Earth's pull on the Moon exceeds the Moon's pull on Earth.
    assert!(ma.x.abs() != ea.x.abs());
}

#[test]
fn step_advances_timestamp_exactly() {
    let s = Snapshot::simple();
    let dt = Seconds(60_000_000_000);
    let s1 = step(&s, dt);
    assert_eq!(s1.timestamp, s.timestamp + 60_000_000_000);
    let s2 = step(&s1, dt.neg());
    assert_eq!(s2.timestamp, s.timestamp);
}

#[test]
fn step_moves_earth_along_velocity() {
    let s = Snapshot::simple();
    let s1 = step(&s, Seconds(60_000_000_000));
    // Over 60 s Earth moves about 29.3 km/s * 60 s along y.
    close(km(s1.earth_position.y), 29.3 * 60.0, 1e-3);
    // And falls only a little toward the Sun.
    assert!(s1.earth_position.x < s.earth_position.x);
    close(km(s1.earth_position.x), km(s.earth_position.x), 1e-6);
}

#[test]
fn verlet_reversibility() {
    // Stepping forward then backward returns to the start within a tiny
    // relative tolerance: velocity-Verlet is time-symmetric, and the fixed
    // point rounds at 1e-9 km.
    for &dt_ns in &[1_000_000_000i64, 60_000_000_000, 3_600_000_000_000] {
        for s0 in [
            Snapshot::simple(),
            Snapshot::solar_eclipse_aug_2017(),
            Snapshot::lunar_eclipse_may_2022(),
            Snapshot::test_high_moon_inclination(),
        ] {
            let fwd = step(&s0, Seconds(dt_ns));
            let back = step(&fwd, Seconds(dt_ns).neg());
            assert_eq!(back.timestamp, s0.timestamp);
            for (a, b) in [
                (back.earth_position, s0.earth_position),
                (back.earth_velocity, s0.earth_velocity),
                (back.moon_position, s0.moon_position),
                (back.moon_velocity, s0.moon_velocity),
            ] {
                // Each component is restored to within a 1e-6 relative error
                // against the vector's magnitude.
                let scale = (km(b.x).powi(2) + km(b.y).powi(2) + km(b.z).powi(2)).sqrt().max(1.0);
                assert!((km(a.x) - km(b.x)).abs() <= 1e-6 * scale);
                assert!((km(a.y) - km(b.y)).abs() <= 1e-6 * scale);
                assert!((km(a.z) - km(b.z)).abs() <= 1e-6 * scale);
            }
        }
    }
}

#[test]
fn earth_stays_in_physical_range_over_a_year() {
    // A year of hourly steps keeps Earth's distance from the Sun within its
    // known physical range — a regression guard against sign or unit errors
    // in the gravity term.
    let mut s = Snapshot::simple();
    let dt = Seconds(3_600_000_000_000);
    let steps = 366 * 24;
    for _ in 0..steps {
        s = step(&s, dt);
        let d = dist_km(&s.earth_position);
        // The physical range is about 147.1 to 152.1 million km; the start
        // sits exactly at aphelion, so allow the Moon-induced wobble of a
        // few thousand km on the upper side.
        assert!(
            (1.471e8..=1.5212e8).contains(&d),
            "earth at {d} km from the sun"
        );
    }
    // The Moon stays bound to Earth.
    let dx = km(s.moon_position.x) - km(s.earth_position.x);
    let dy = km(s.moon_position.y) - km(s.earth_position.y);
    let dz = km(s.moon_position.z) - km(s.earth_position.z);
    let moon_dist = (dx * dx + dy * dy + dz * dz).sqrt();
    assert!(
        (2.0e5..=6.0e5).contains(&moon_dist),
        "moon at {moon_dist} km from earth"
    );
}
