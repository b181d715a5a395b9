//! The gravity integrator: one velocity-Verlet step of the Sun/Earth/Moon
//! system, in integer fixed point.
//!
//! Every operation here has an exact integer meaning — multiplication,
//! division truncating toward zero, and clamping into the representable bands
//! — and the contracts state the computed result precisely through the spec
//! mirror functions. The gravitational parameter used for a body of mass `M`
//! kilograms is `G * M * 1e-9` in km³/s²: the constant `6.6743e-11 N·m²/kg²`
//! combined with the km²→m² conversion of the squared distance and the m→km
//! conversion of the result.

use vstd::prelude::*;

verus! {

use crate::seconds::{Seconds, NANOS_PER_SEC};
use crate::snapshot::{Snapshot, Vec3, POS_LIMIT, VEL_LIMIT};

/// Division truncating toward zero (the meaning of `/` on machine integers),
/// for a positive divisor.
pub open spec fn tdiv(a: int, b: int) -> int {
    if a >= 0 {
        a / b
    } else {
        -((-a) / b)
    }
}

/// Mass of the Sun in kilograms (1.9885e30).
pub const SUN_MASS_KG: i128 = 19_885 * 100_000_000_000_000_000_000_000_000;

/// Mass of Earth in kilograms (5.97237e24).
pub const EARTH_MASS_KG: i128 = 597_237 * 10_000_000_000_000_000_000;

/// Mass of the Moon in kilograms (7.34767309e22).
pub const MOON_MASS_KG: i128 = 734_767_309 * 100_000_000_000_000;

/// Upper bound on masses the integrator accepts (1e31 kg, five Suns).
pub const MASS_LIMIT_KG: i128 = 10_000_000_000_000_000_000_000_000_000_000;

/// The gravitational constant as the integer ratio `G_NUM / 1e15` in
/// N·m²/kg²: `6.6743e-11 == 66_743 * 1e-15`.
pub const G_NUM: i128 = 66_743;

/// Denominator turning `mass * G_NUM` into the fixed-point gravitational
/// parameter: `1e15` (from `G_NUM`) times `1e9` (the km³ conversion `1e-9`
/// inverted) divided by `1e6` (the parameter's fixed-point scale), so
/// `mu_fixed = mass * 66_743 / 1e18` holds `G*M*1e-9` in km³/s² times `1e6`.
pub const MU_DEN: i128 = 1_000_000_000_000_000_000;

/// Fixed-point scale of accelerations: km/s² times `1e18`.
pub const ACC_SCALE: i128 = 1_000_000_000_000_000_000;

/// Accelerations are clamped to ±0.1 km/s² (`1e17` in fixed point), far above
/// anything the simulated bodies produce at physical separations.
pub const ACC_LIMIT: i64 = 100_000_000_000_000_000;

/// The integrator accepts steps of at most ±1e15 ns (about 11.6 days).
pub const DT_LIMIT: i64 = 1_000_000_000_000_000;

/// First divisor applied to the squared distance when forming `d³ / 1e30`.
pub const N2_DIV: i128 = 1_000_000_000_000_000_000;

/// Second divisor applied when forming `d³ / 1e30`.
pub const D3_DIV: i128 = 1_000_000_000_000;

/// Clamps `v` into `[-lim, lim]`.
pub open spec fn clamp(v: int, lim: int) -> int {
    if v > lim {
        lim
    } else if v < -lim {
        -lim
    } else {
        v
    }
}

/// `r` is the integer square root of `x`, rounded down.
pub open spec fn is_sqrt_floor(x: int, r: int) -> bool {
    &&& 0 <= r
    &&& r * r <= x
    &&& x < (r + 1) * (r + 1)
}

/// The integer square root of `x`, rounded down.
pub open spec fn sqrt_floor(x: int) -> int {
    choose|r: int| is_sqrt_floor(x, r)
}

/// The fixed-point gravitational parameter of a body of `mass_kg` kilograms.
pub open spec fn spec_mu_fixed(mass_kg: int) -> int {
    mass_kg * G_NUM / (MU_DEN as int)
}

/// A square is never negative.
pub proof fn lemma_square_nonneg(a: int)
    by (nonlinear_arith)
    ensures
        a * a >= 0,
{
}

/// `|a * b| <= aa * bb` whenever `|a| <= aa` and `|b| <= bb`.
pub proof fn lemma_mul_abs_bound(a: int, b: int, aa: int, bb: int)
    by (nonlinear_arith)
    requires
        -aa <= a <= aa,
        -bb <= b <= bb,
        0 <= aa,
        0 <= bb,
    ensures
        -(aa * bb) <= a * b <= aa * bb,
{
}

/// Division truncating toward zero keeps the quotient within `bound / d`
/// whenever the dividend is within `bound`.
pub proof fn lemma_tdiv_range(a: int, d: int, bound: int)
    requires
        d >= 1,
        0 <= bound,
        -bound <= a <= bound,
    ensures
        -(bound / d) <= tdiv(a, d) <= bound / d,
        a >= 0 ==> 0 <= tdiv(a, d),
        a < 0 ==> tdiv(a, d) <= 0,
{
    if a >= 0 {
        vstd::arithmetic::div_mod::lemma_div_pos_is_pos(a, d);
        vstd::arithmetic::div_mod::lemma_div_is_ordered(a, bound, d);
    } else {
        vstd::arithmetic::div_mod::lemma_div_pos_is_pos(-a, d);
        vstd::arithmetic::div_mod::lemma_div_is_ordered(-a, bound, d);
    }
}

/// The floor square root is unique.
pub proof fn lemma_sqrt_floor_unique(x: int, r: int)
    requires
        is_sqrt_floor(x, r),
    ensures
        sqrt_floor(x) == r,
{
    assert(exists|s: int| is_sqrt_floor(x, s)) by {
        assert(is_sqrt_floor(x, r));
    }
    let r2 = sqrt_floor(x);
    assert(is_sqrt_floor(x, r2));
    assert(r == r2) by (nonlinear_arith)
        requires
            is_sqrt_floor(x, r),
            is_sqrt_floor(x, r2),
    ;
}

/// Division of a signed value by a positive divisor, truncating toward zero
/// (the machine meaning of `/`).
pub fn div_trunc(a: i128, d: i128) -> (r: i128)
    requires
        d >= 1,
        a > i128::MIN,
    ensures
        r == tdiv(a as int, d as int),
{
    if a >= 0 {
        let q: u128 = (a as u128) / (d as u128);
        proof {
            vstd::arithmetic::div_mod::lemma_div_nonincreasing(a as int, d as int);
            vstd::arithmetic::div_mod::lemma_div_pos_is_pos(a as int, d as int);
        }
        q as i128
    } else {
        let m: u128 = ((-a) as u128) / (d as u128);
        proof {
            vstd::arithmetic::div_mod::lemma_div_nonincreasing(-a as int, d as int);
            vstd::arithmetic::div_mod::lemma_div_pos_is_pos(-a as int, d as int);
        }
        -(m as i128)
    }
}

/// Clamps `v` into `[-lim, lim]`.
pub fn clamp_i128(v: i128, lim: i128) -> (r: i128)
    requires
        lim >= 0,
    ensures
        r == clamp(v as int, lim as int),
        -lim <= r <= lim,
{
    if v > lim {
        lim
    } else if v < -lim {
        -lim
    } else {
        v
    }
}

/// `2^64`, the exclusive upper bound of the square root of any `u128`.
pub const TWO_POW_64: u128 = 18_446_744_073_709_551_616;

/// The integer square root of `x`, rounded down, by bisection.
pub fn isqrt_u128(x: u128) -> (r: u64)
    ensures
        is_sqrt_floor(x as int, r as int),
        r == sqrt_floor(x as int),
{
    if x == 0 {
        proof {
            lemma_sqrt_floor_unique(0, 0);
        }
        return 0;
    }
    let mut lo: u128 = 0;
    let mut hi: u128 = TWO_POW_64;
    proof {
        assert((TWO_POW_64 as int) * (TWO_POW_64 as int) > u128::MAX as int);
    }
    while hi - lo > 1
        invariant
            lo < hi,
            hi <= TWO_POW_64,
            (lo as int) * (lo as int) <= x as int,
            (x as int) < (hi as int) * (hi as int),
        decreases hi - lo,
    {
        let mid: u128 = lo + (hi - lo) / 2;
        proof {
            assert(lo < mid < hi);
            lemma_mul_abs_bound(mid as int, mid as int, TWO_POW_64 as int - 1, TWO_POW_64 as int - 1);
            assert((TWO_POW_64 as int - 1) * (TWO_POW_64 as int - 1) <= u128::MAX as int);
        }
        if mid * mid <= x {
            lo = mid;
        } else {
            hi = mid;
        }
    }
    proof {
        assert(hi == lo + 1);
        lemma_sqrt_floor_unique(x as int, lo as int);
        assert(lo < TWO_POW_64);
    }
    lo as u64
}

/// The origin: the Sun's fixed position.
pub open spec fn spec_origin() -> Vec3 {
    Vec3 { x: 0, y: 0, z: 0 }
}

/// The fixed-point gravitational acceleration exerted on a body at `pos` by a
/// body of mass `mass_kg` at `other`: `mu * r_vec / |r|³` with every product
/// and truncating division spelled out, zero when the bodies are closer than
/// the model resolves (about 10 km), and each component clamped to
/// `ACC_LIMIT`.
pub open spec fn spec_gacc(pos: Vec3, other: Vec3, mass_kg: int) -> Vec3 {
    let rx = other.x - pos.x;
    let ry = other.y - pos.y;
    let rz = other.z - pos.z;
    let n2 = rx * rx + ry * ry + rz * rz;
    let d = sqrt_floor(n2);
    let q = tdiv(tdiv(n2, N2_DIV as int) * d, D3_DIV as int);
    if q <= 0 {
        Vec3 { x: 0, y: 0, z: 0 }
    } else {
        let mu = spec_mu_fixed(mass_kg);
        Vec3 {
            x: clamp(tdiv(mu * rx, q), ACC_LIMIT as int) as i64,
            y: clamp(tdiv(mu * ry, q), ACC_LIMIT as int) as i64,
            z: clamp(tdiv(mu * rz, q), ACC_LIMIT as int) as i64,
        }
    }
}

/// The acceleration on a body due to gravity from a body of mass
/// `other_mass_kg` at `other_pos`, in fixed-point km/s² (times `1e18`).
pub fn gacc(pos: &Vec3, other_pos: &Vec3, other_mass_kg: i128) -> (r: Vec3)
    requires
        pos.in_range(POS_LIMIT as int),
        other_pos.in_range(POS_LIMIT as int),
        0 <= other_mass_kg <= MASS_LIMIT_KG,
    ensures
        r == spec_gacc(*pos, *other_pos, other_mass_kg as int),
        r.in_range(ACC_LIMIT as int),
{
    let rx: i128 = other_pos.x as i128 - pos.x as i128;
    let ry: i128 = other_pos.y as i128 - pos.y as i128;
    let rz: i128 = other_pos.z as i128 - pos.z as i128;
    let ghost rvb: int = 2 * POS_LIMIT as int;
    proof {
        lemma_mul_abs_bound(rx as int, rx as int, rvb, rvb);
        lemma_mul_abs_bound(ry as int, ry as int, rvb, rvb);
        lemma_mul_abs_bound(rz as int, rz as int, rvb, rvb);
        lemma_square_nonneg(rx as int);
        lemma_square_nonneg(ry as int);
        lemma_square_nonneg(rz as int);
    }
    let n2: i128 = rx * rx + ry * ry + rz * rz;
    let d64: u64 = isqrt_u128(n2 as u128);
    let d: i128 = d64 as i128;
    proof {
        // d*d <= n2 <= 3*(2*POS_LIMIT)^2 < (1.4e18)^2, so d < 1.4e18.
        assert(d as int <= 1_400_000_000_000_000_000) by (nonlinear_arith)
            requires
                is_sqrt_floor(n2 as int, d as int),
                n2 as int <= 3 * ((2 * POS_LIMIT as int) * (2 * POS_LIMIT as int)),
        ;
        lemma_tdiv_range(n2 as int, N2_DIV as int, 3 * (rvb * rvb));
        lemma_mul_abs_bound(
            tdiv(n2 as int, N2_DIV as int),
            d as int,
            3 * (rvb * rvb) / (N2_DIV as int),
            1_400_000_000_000_000_000,
        );
    }
    let q: i128 = div_trunc(div_trunc(n2, N2_DIV) * d, D3_DIV);
    if q <= 0 {
        return Vec3 { x: 0, y: 0, z: 0 };
    }
    proof {
        lemma_mul_abs_bound(other_mass_kg as int, G_NUM as int, MASS_LIMIT_KG as int, G_NUM as int);
        lemma_tdiv_range(
            other_mass_kg as int * G_NUM as int,
            MU_DEN as int,
            MASS_LIMIT_KG as int * G_NUM as int,
        );
    }
    let mu: i128 = div_trunc(other_mass_kg * G_NUM, MU_DEN);
    let ghost mub: int = MASS_LIMIT_KG as int * G_NUM as int / (MU_DEN as int);
    proof {
        lemma_mul_abs_bound(mu as int, rx as int, mub, rvb);
        lemma_mul_abs_bound(mu as int, ry as int, mub, rvb);
        lemma_mul_abs_bound(mu as int, rz as int, mub, rvb);
    }
    let ax: i128 = clamp_i128(div_trunc(mu * rx, q), ACC_LIMIT as i128);
    let ay: i128 = clamp_i128(div_trunc(mu * ry, q), ACC_LIMIT as i128);
    let az: i128 = clamp_i128(div_trunc(mu * rz, q), ACC_LIMIT as i128);
    Vec3 { x: ax as i64, y: ay as i64, z: az as i64 }
}

/// The componentwise sum of two accelerations, clamped to `ACC_LIMIT`.
pub open spec fn spec_add_clamped(a: Vec3, b: Vec3) -> Vec3 {
    Vec3 {
        x: clamp(a.x + b.x, ACC_LIMIT as int) as i64,
        y: clamp(a.y + b.y, ACC_LIMIT as int) as i64,
        z: clamp(a.z + b.z, ACC_LIMIT as int) as i64,
    }
}

/// The total acceleration on Earth: gravity from the Sun at the origin plus
/// gravity from the Moon.
pub open spec fn spec_acc_on_earth(earth_position: Vec3, moon_position: Vec3) -> Vec3 {
    spec_add_clamped(
        spec_gacc(earth_position, spec_origin(), SUN_MASS_KG as int),
        spec_gacc(earth_position, moon_position, MOON_MASS_KG as int),
    )
}

/// The total acceleration on the Moon: gravity from the Sun at the origin
/// plus gravity from Earth.
pub open spec fn spec_acc_on_moon(earth_position: Vec3, moon_position: Vec3) -> Vec3 {
    spec_add_clamped(
        spec_gacc(moon_position, spec_origin(), SUN_MASS_KG as int),
        spec_gacc(moon_position, earth_position, EARTH_MASS_KG as int),
    )
}

fn add_clamped(a: &Vec3, b: &Vec3) -> (r: Vec3)
    requires
        a.in_range(ACC_LIMIT as int),
        b.in_range(ACC_LIMIT as int),
    ensures
        r == spec_add_clamped(*a, *b),
        r.in_range(ACC_LIMIT as int),
{
    let x = clamp_i128(a.x as i128 + b.x as i128, ACC_LIMIT as i128);
    let y = clamp_i128(a.y as i128 + b.y as i128, ACC_LIMIT as i128);
    let z = clamp_i128(a.z as i128 + b.z as i128, ACC_LIMIT as i128);
    Vec3 { x: x as i64, y: y as i64, z: z as i64 }
}

/// The accelerations on Earth and on the Moon at the given positions, each
/// the sum of the pairwise Newtonian attractions from the other two bodies.
pub fn gacc_earth_and_moon(earth_position: &Vec3, moon_position: &Vec3) -> (r: (Vec3, Vec3))
    requires
        earth_position.in_range(POS_LIMIT as int),
        moon_position.in_range(POS_LIMIT as int),
    ensures
        r.0 == spec_acc_on_earth(*earth_position, *moon_position),
        r.1 == spec_acc_on_moon(*earth_position, *moon_position),
        r.0.in_range(ACC_LIMIT as int),
        r.1.in_range(ACC_LIMIT as int),
{
    let sun_pos = Vec3 { x: 0, y: 0, z: 0 };
    let earth_acc = add_clamped(
        &gacc(earth_position, &sun_pos, SUN_MASS_KG),
        &gacc(earth_position, moon_position, MOON_MASS_KG),
    );
    let moon_acc = add_clamped(
        &gacc(moon_position, &sun_pos, SUN_MASS_KG),
        &gacc(moon_position, earth_position, EARTH_MASS_KG),
    );
    (earth_acc, moon_acc)
}

/// One position component advanced by `x + v*dt + a*dt²/2`, every product
/// scaled back to position units by truncating divisions and the result
/// clamped into the position band.
pub open spec fn spec_pos_comp(p: i64, v: i64, a: i64, dt: int) -> i64 {
    let dv = tdiv(v * dt, NANOS_PER_SEC as int);
    let t1 = tdiv(a * dt, NANOS_PER_SEC as int);
    let t2 = tdiv(t1 * dt, NANOS_PER_SEC as int);
    let da = tdiv(t2, 2 * NANOS_PER_SEC as int);
    clamp(p + dv + da, POS_LIMIT as int) as i64
}

/// One velocity component advanced by `v + (a1 + a2)/2 * dt`, scaled back to
/// velocity units by a truncating division and clamped into the velocity
/// band.
pub open spec fn spec_vel_comp(v: i64, a1: i64, a2: i64, dt: int) -> i64 {
    let dv = tdiv((a1 + a2) * dt, 2 * ACC_SCALE as int);
    clamp(v + dv, VEL_LIMIT as int) as i64
}

fn pos_comp(p: i64, v: i64, a: i64, dt: i64) -> (r: i64)
    requires
        -POS_LIMIT <= p <= POS_LIMIT,
        -VEL_LIMIT <= v <= VEL_LIMIT,
        -ACC_LIMIT <= a <= ACC_LIMIT,
        -DT_LIMIT <= dt <= DT_LIMIT,
    ensures
        r == spec_pos_comp(p, v, a, dt as int),
        -POS_LIMIT <= r <= POS_LIMIT,
{
    proof {
        lemma_mul_abs_bound(v as int, dt as int, VEL_LIMIT as int, DT_LIMIT as int);
        lemma_tdiv_range(
            v as int * dt as int,
            NANOS_PER_SEC as int,
            VEL_LIMIT as int * DT_LIMIT as int,
        );
        lemma_mul_abs_bound(a as int, dt as int, ACC_LIMIT as int, DT_LIMIT as int);
        lemma_tdiv_range(
            a as int * dt as int,
            NANOS_PER_SEC as int,
            ACC_LIMIT as int * DT_LIMIT as int,
        );
    }
    let dv: i128 = div_trunc(v as i128 * dt as i128, NANOS_PER_SEC as i128);
    let t1: i128 = div_trunc(a as i128 * dt as i128, NANOS_PER_SEC as i128);
    proof {
        let t1b = ACC_LIMIT as int * DT_LIMIT as int / (NANOS_PER_SEC as int);
        lemma_mul_abs_bound(t1 as int, dt as int, t1b, DT_LIMIT as int);
        lemma_tdiv_range(t1 as int * dt as int, NANOS_PER_SEC as int, t1b * DT_LIMIT as int);
    }
    let t2: i128 = div_trunc(t1 * dt as i128, NANOS_PER_SEC as i128);
    let da: i128 = div_trunc(t2, 2 * NANOS_PER_SEC as i128);
    proof {
        let t2b = ACC_LIMIT as int * DT_LIMIT as int / (NANOS_PER_SEC as int) * DT_LIMIT as int
            / (NANOS_PER_SEC as int);
        lemma_tdiv_range(t2 as int, 2 * NANOS_PER_SEC as int, t2b);
    }
    let c: i128 = clamp_i128(p as i128 + dv + da, POS_LIMIT as i128);
    c as i64
}

fn vel_comp(v: i64, a1: i64, a2: i64, dt: i64) -> (r: i64)
    requires
        -VEL_LIMIT <= v <= VEL_LIMIT,
        -ACC_LIMIT <= a1 <= ACC_LIMIT,
        -ACC_LIMIT <= a2 <= ACC_LIMIT,
        -DT_LIMIT <= dt <= DT_LIMIT,
    ensures
        r == spec_vel_comp(v, a1, a2, dt as int),
        -VEL_LIMIT <= r <= VEL_LIMIT,
{
    let asum: i128 = a1 as i128 + a2 as i128;
    proof {
        lemma_mul_abs_bound(asum as int, dt as int, 2 * ACC_LIMIT as int, DT_LIMIT as int);
        lemma_tdiv_range(
            asum as int * dt as int,
            2 * ACC_SCALE as int,
            2 * ACC_LIMIT as int * DT_LIMIT as int,
        );
    }
    let dv: i128 = div_trunc(asum * dt as i128, 2 * ACC_SCALE);
    let c: i128 = clamp_i128(v as i128 + dv, VEL_LIMIT as i128);
    c as i64
}

/// A position vector advanced componentwise by `spec_pos_comp`.
pub open spec fn spec_advance_position(p: Vec3, v: Vec3, a: Vec3, dt: int) -> Vec3 {
    Vec3 {
        x: spec_pos_comp(p.x, v.x, a.x, dt),
        y: spec_pos_comp(p.y, v.y, a.y, dt),
        z: spec_pos_comp(p.z, v.z, a.z, dt),
    }
}

/// A velocity vector advanced componentwise by `spec_vel_comp`.
pub open spec fn spec_advance_velocity(v: Vec3, a1: Vec3, a2: Vec3, dt: int) -> Vec3 {
    Vec3 {
        x: spec_vel_comp(v.x, a1.x, a2.x, dt),
        y: spec_vel_comp(v.y, a1.y, a2.y, dt),
        z: spec_vel_comp(v.z, a1.z, a2.z, dt),
    }
}

fn advance_position(p: &Vec3, v: &Vec3, a: &Vec3, dt: i64) -> (r: Vec3)
    requires
        p.in_range(POS_LIMIT as int),
        v.in_range(VEL_LIMIT as int),
        a.in_range(ACC_LIMIT as int),
        -DT_LIMIT <= dt <= DT_LIMIT,
    ensures
        r == spec_advance_position(*p, *v, *a, dt as int),
        r.in_range(POS_LIMIT as int),
{
    Vec3 {
        x: pos_comp(p.x, v.x, a.x, dt),
        y: pos_comp(p.y, v.y, a.y, dt),
        z: pos_comp(p.z, v.z, a.z, dt),
    }
}

fn advance_velocity(v: &Vec3, a1: &Vec3, a2: &Vec3, dt: i64) -> (r: Vec3)
    requires
        v.in_range(VEL_LIMIT as int),
        a1.in_range(ACC_LIMIT as int),
        a2.in_range(ACC_LIMIT as int),
        -DT_LIMIT <= dt <= DT_LIMIT,
    ensures
        r == spec_advance_velocity(*v, *a1, *a2, dt as int),
        r.in_range(VEL_LIMIT as int),
{
    Vec3 {
        x: vel_comp(v.x, a1.x, a2.x, dt),
        y: vel_comp(v.y, a1.y, a2.y, dt),
        z: vel_comp(v.z, a1.z, a2.z, dt),
    }
}

/// One velocity-Verlet step of `dt` nanoseconds:
/// positions advance by `x + v*dt + a*dt²/2`, accelerations are recomputed at
/// the new positions, velocities advance by the average of the old and new
/// accelerations times `dt`, and the timestamp advances by `dt`.
pub open spec fn spec_step(s: Snapshot, dt: int) -> Snapshot {
    let ea = spec_acc_on_earth(s.earth_position, s.moon_position);
    let ma = spec_acc_on_moon(s.earth_position, s.moon_position);
    let new_ep = spec_advance_position(s.earth_position, s.earth_velocity, ea, dt);
    let new_mp = spec_advance_position(s.moon_position, s.moon_velocity, ma, dt);
    let ea2 = spec_acc_on_earth(new_ep, new_mp);
    let ma2 = spec_acc_on_moon(new_ep, new_mp);
    Snapshot {
        timestamp: (s.timestamp + dt) as i64,
        earth_position: new_ep,
        earth_velocity: spec_advance_velocity(s.earth_velocity, ea, ea2, dt),
        moon_position: new_mp,
        moon_velocity: spec_advance_velocity(s.moon_velocity, ma, ma2, dt),
    }
}

/// Law: the timestamp half of velocity-Verlet time symmetry is exact in the
/// integer model — stepping by `dt` and then by `-dt` restores the
/// timestamp. The coordinate half of the symmetry holds only up to
/// fixed-point rounding, which the tests bound numerically.
pub proof fn lemma_step_timestamp_symmetric(s: Snapshot, dt: int)
    requires
        i64::MIN <= s.timestamp + dt <= i64::MAX,
    ensures
        spec_step(spec_step(s, dt), -dt).timestamp == s.timestamp,
{
}

/// Advances `s` by one velocity-Verlet step of `dt`. Pure: builds a new
/// snapshot, applies `dt` with the sign it is given (a caller reversing time
/// negates `dt`), and produces exactly the integer model `spec_step`.
pub fn step(s: &Snapshot, dt: Seconds) -> (r: Snapshot)
    requires
        s.wf(),
        -DT_LIMIT <= dt.0 <= DT_LIMIT,
        i64::MIN <= s.timestamp + dt.0 <= i64::MAX,
    ensures
        r == spec_step(*s, dt.0 as int),
        r.wf(),
        r.timestamp == s.timestamp + dt.0,
{
    let (earth_acc, moon_acc) = gacc_earth_and_moon(&s.earth_position, &s.moon_position);
    let new_earth_pos = advance_position(&s.earth_position, &s.earth_velocity, &earth_acc, dt.0);
    let new_moon_pos = advance_position(&s.moon_position, &s.moon_velocity, &moon_acc, dt.0);
    let (new_earth_acc, new_moon_acc) = gacc_earth_and_moon(&new_earth_pos, &new_moon_pos);
    let new_earth_vel = advance_velocity(&s.earth_velocity, &earth_acc, &new_earth_acc, dt.0);
    let new_moon_vel = advance_velocity(&s.moon_velocity, &moon_acc, &new_moon_acc, dt.0);
    Snapshot {
        timestamp: s.timestamp + dt.0,
        earth_position: new_earth_pos,
        earth_velocity: new_earth_vel,
        moon_position: new_moon_pos,
        moon_velocity: new_moon_vel,
    }
}

} // verus!
