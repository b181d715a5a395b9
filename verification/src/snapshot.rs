//! The physical state of the simulated system at one instant.
//!
//! Positions and velocities are heliocentric: the Sun sits at the coordinate
//! origin and never moves, so only Earth and Moon are stored. All components
//! are integer fixed point, `1e9` units per kilometer (positions) and per
//! kilometer-per-second (velocities); timestamps are UTC nanoseconds since the
//! Unix epoch.

use vstd::prelude::*;

verus! {

/// Fixed-point units per kilometer (for positions) and per kilometer per
/// second (for velocities).
pub const UNITS_PER_KM: i64 = 1_000_000_000;

/// Positions are kept within ±4e8 km of the Sun (about 2.7 astronomical
/// units, far outside the simulated orbits); the integrator clamps to this
/// band, which keeps every intermediate product inside `i128`.
pub const POS_LIMIT: i64 = 400_000_000_000_000_000;

/// Velocities are kept within ±1e4 km/s (hundreds of times solar escape
/// velocity); the integrator clamps to this band.
pub const VEL_LIMIT: i64 = 10_000_000_000_000;

/// A three-component vector in fixed point.
#[derive(Clone, Copy, PartialEq, Eq, Structural, Debug)]
pub struct Vec3 {
    pub x: i64,
    pub y: i64,
    pub z: i64,
}

impl Vec3 {
    /// All components within ±`lim`.
    pub open spec fn in_range(self, lim: int) -> bool {
        &&& -lim <= self.x <= lim
        &&& -lim <= self.y <= lim
        &&& -lim <= self.z <= lim
    }

    /// The vector with the given components.
    pub fn new(x: i64, y: i64, z: i64) -> (r: Vec3)
        ensures
            r == (Vec3 { x, y, z }),
    {
        Vec3 { x, y, z }
    }
}

/// The full physical state at one instant: a UTC timestamp plus position and
/// velocity of Earth and of the Moon. The Sun is implicit: always at the
/// origin, never moving.
#[derive(Clone, Copy, PartialEq, Eq, Structural, Debug)]
pub struct Snapshot {
    /// UTC nanoseconds since the Unix epoch.
    pub timestamp: i64,
    pub earth_position: Vec3,
    pub earth_velocity: Vec3,
    pub moon_position: Vec3,
    pub moon_velocity: Vec3,
}

impl Snapshot {
    /// Positions and velocities lie within the representable bands.
    pub open spec fn wf(self) -> bool {
        &&& self.earth_position.in_range(POS_LIMIT as int)
        &&& self.moon_position.in_range(POS_LIMIT as int)
        &&& self.earth_velocity.in_range(VEL_LIMIT as int)
        &&& self.moon_velocity.in_range(VEL_LIMIT as int)
    }

    /// A snapshot built directly from its parts.
    pub fn new(
        timestamp: i64,
        earth_position: Vec3,
        earth_velocity: Vec3,
        moon_position: Vec3,
        moon_velocity: Vec3,
    ) -> (r: Snapshot)
        ensures
            r == (Snapshot { timestamp, earth_position, earth_velocity, moon_position, moon_velocity }),
    {
        Snapshot { timestamp, earth_position, earth_velocity, moon_position, moon_velocity }
    }

    /// A simple near-circular configuration: Earth at aphelion distance on the
    /// x axis moving along y at 29.3 km/s, Moon 372,000 km closer to the Sun
    /// moving along y at 30.322 km/s, at 2000-01-01T00:00:00Z.
    pub fn simple() -> (r: Snapshot)
        ensures
            r.wf(),
            r == (Snapshot {
                timestamp: 946_684_800_000_000_000,
                earth_position: Vec3 { x: 152_100_000_000_000_000, y: 0, z: 0 },
                earth_velocity: Vec3 { x: 0, y: 29_300_000_000, z: 0 },
                moon_position: Vec3 { x: 151_728_000_000_000_000, y: 0, z: 0 },
                moon_velocity: Vec3 { x: 0, y: 30_322_000_000, z: 0 },
            }),
    {
        Snapshot {
            timestamp: 946_684_800_000_000_000,
            earth_position: Vec3 { x: 152_100_000_000_000_000, y: 0, z: 0 },
            earth_velocity: Vec3 { x: 0, y: 29_300_000_000, z: 0 },
            moon_position: Vec3 { x: 151_728_000_000_000_000, y: 0, z: 0 },
            moon_velocity: Vec3 { x: 0, y: 30_322_000_000, z: 0 },
        }
    }

    /// The system as it stood at 2017-08-21T15:46:48Z, shortly before the
    /// total solar eclipse of that day. Hand-entered ephemeris data
    /// (heliocentric vectors for Earth and Moon).
    pub fn solar_eclipse_aug_2017() -> (r: Snapshot)
        ensures
            r.wf(),
            r == (Snapshot {
                timestamp: 1_503_330_408_000_000_000,
                earth_position: Vec3 {
                    x: 129_074_545_748_653_400,
                    y: -78_992_009_329_977_070i64,
                    z: 2_689_484_561_856,
                },
                earth_velocity: Vec3 { x: 15_072_097_454, y: 25_307_887_812, z: -2_302_676i64 },
                moon_position: Vec3 {
                    x: 128_762_699_157_268_000,
                    y: -78_789_747_785_298_780i64,
                    z: 4_510_853_649_180,
                },
                moon_velocity: Vec3 { x: 14_463_046_926, y: 24_443_802_188, z: 95_477_788 },
            }),
    {
        Snapshot {
            timestamp: 1_503_330_408_000_000_000,
            earth_position: Vec3 {
                x: 129_074_545_748_653_400,
                y: -78_992_009_329_977_070i64,
                z: 2_689_484_561_856,
            },
            earth_velocity: Vec3 { x: 15_072_097_454, y: 25_307_887_812, z: -2_302_676i64 },
            moon_position: Vec3 {
                x: 128_762_699_157_268_000,
                y: -78_789_747_785_298_780i64,
                z: 4_510_853_649_180,
            },
            moon_velocity: Vec3 { x: 14_463_046_926, y: 24_443_802_188, z: 95_477_788 },
        }
    }

    /// The system as it stood at 2022-05-16T01:32:07Z, during the lunar
    /// eclipse of that night. Hand-entered ephemeris data.
    pub fn lunar_eclipse_may_2022() -> (r: Snapshot)
        ensures
            r.wf(),
            r == (Snapshot {
                timestamp: 1_652_664_727_000_000_000,
                earth_position: Vec3 {
                    x: -86_985_986_726_903_950i64,
                    y: -123_713_278_666_705_900i64,
                    z: 6_674_273_178_458,
                },
                earth_velocity: Vec3 { x: 23_872_768_808, y: -17_239_664_868i64, z: 1_953_072 },
                moon_position: Vec3 {
                    x: -87_202_499_056_867_580i64,
                    y: -124_003_913_490_893_600i64,
                    z: 6_046_639_699_906,
                },
                moon_velocity: Vec3 { x: 24_759_079_926, y: -17_861_323_150i64, z: -98_109_277i64 },
            }),
    {
        Snapshot {
            timestamp: 1_652_664_727_000_000_000,
            earth_position: Vec3 {
                x: -86_985_986_726_903_950i64,
                y: -123_713_278_666_705_900i64,
                z: 6_674_273_178_458,
            },
            earth_velocity: Vec3 { x: 23_872_768_808, y: -17_239_664_868i64, z: 1_953_072 },
            moon_position: Vec3 {
                x: -87_202_499_056_867_580i64,
                y: -124_003_913_490_893_600i64,
                z: 6_046_639_699_906,
            },
            moon_velocity: Vec3 { x: 24_759_079_926, y: -17_861_323_150i64, z: -98_109_277i64 },
        }
    }

    /// A test configuration with the Moon exactly in the orbital plane.
    pub fn test_no_moon_inclination() -> (r: Snapshot)
        ensures
            r.wf(),
            r == (Snapshot {
                timestamp: 946_684_800_000_000_000,
                earth_position: Vec3 { x: 152_100_000_000_000_000, y: 0, z: 0 },
                earth_velocity: Vec3 { x: 0, y: 29_300_000_000, z: 0 },
                moon_position: Vec3 { x: 151_728_000_000_000_000, y: 0, z: 0 },
                moon_velocity: Vec3 { x: 0, y: 28_278_000_000, z: 0 },
            }),
    {
        Snapshot {
            timestamp: 946_684_800_000_000_000,
            earth_position: Vec3 { x: 152_100_000_000_000_000, y: 0, z: 0 },
            earth_velocity: Vec3 { x: 0, y: 29_300_000_000, z: 0 },
            moon_position: Vec3 { x: 151_728_000_000_000_000, y: 0, z: 0 },
            moon_velocity: Vec3 { x: 0, y: 28_278_000_000, z: 0 },
        }
    }

    /// A test configuration with the Moon lifted 3,000 km out of the orbital
    /// plane.
    pub fn test_high_moon_inclination() -> (r: Snapshot)
        ensures
            r.wf(),
            r == (Snapshot {
                timestamp: 946_684_800_000_000_000,
                earth_position: Vec3 { x: 152_100_000_000_000_000, y: 0, z: 0 },
                earth_velocity: Vec3 { x: 0, y: 29_300_000_000, z: 0 },
                moon_position: Vec3 { x: 151_728_000_000_000_000, y: 0, z: 3_000_000_000_000 },
                moon_velocity: Vec3 { x: 0, y: 28_278_000_000, z: 0 },
            }),
    {
        Snapshot {
            timestamp: 946_684_800_000_000_000,
            earth_position: Vec3 { x: 152_100_000_000_000_000, y: 0, z: 0 },
            earth_velocity: Vec3 { x: 0, y: 29_300_000_000, z: 0 },
            moon_position: Vec3 { x: 151_728_000_000_000_000, y: 0, z: 3_000_000_000_000 },
            moon_velocity: Vec3 { x: 0, y: 28_278_000_000, z: 0 },
        }
    }
}

} // verus!
