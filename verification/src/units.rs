//! Fixed-point units and the small arithmetic kit the simulation is built on.
//!
//! Conventions, used everywhere in this crate:
//! - lengths are in micro-units (`MICRO` of them make one world unit);
//! - time is in integer milliseconds;
//! - velocities are in micro-units per millisecond, accelerations in
//!   micro-units per millisecond squared;
//! - angles are in micro-radians, angular velocity in micro-radians per
//!   millisecond;
//! - dimensionless fractions (damping per second, control axes, unit-vector
//!   components) are in milli-steps, so `1000` stands for `1.0`.

use vstd::prelude::*;

verus! {

/// One thousand: the denominator of milli-scaled fractions.
pub const MILLI: i64 = 1_000;

/// One million: micro-units per world unit.
pub const MICRO: i64 = 1_000_000;

/// Largest tick duration accepted by the integrators, in milliseconds.
pub const DT_MAX: i64 = 60_000;

/// Largest velocity magnitude (per component) the simulation tracks,
/// in micro-units per millisecond.
pub const VEL_MAX: i64 = 1_000_000_000;

/// Largest acceleration magnitude (per component), in micro-units per
/// millisecond squared; also the cap on configured thrust/turn factors.
pub const ACC_MAX: i64 = 1_000_000_000;

/// Largest angular velocity magnitude, in micro-radians per millisecond.
pub const ANG_VEL_MAX: i64 = 1_000_000_000;

/// Largest coordinate magnitude an entity may rest at between ticks,
/// in micro-units.
pub const POS_MAX: i64 = 1_000_000_000_000_000;

/// Largest coordinate magnitude the wrap constraint accepts, in micro-units.
/// One integration step from a resting position can never pass this.
pub const POS_WANDER_MAX: i64 = 2_000_000_000_000_000;

/// Largest coordinate magnitude of a viewport corner, in micro-units.
pub const BOUNDS_MAX: i64 = 1_000_000_000_000;

/// Largest collider radius, in micro-units.
pub const RADIUS_MAX: i64 = 1_000_000_000_000;

/// Largest countdown timer value (cooldowns, lifetimes), in milliseconds.
pub const TIMER_MAX: i64 = 1_000_000_000;

/// A full turn, 2*pi, rounded to micro-radians.
pub const TAU_URAD: i64 = 6_283_185;

/// Half a turn, pi, rounded to micro-radians.
pub const PI_URAD: i64 = 3_141_593;

/// A quarter turn, pi/2, rounded to micro-radians.
pub const HALF_PI_URAD: i64 = 1_570_796;

/// Three quarter turns, 3*pi/2, rounded to micro-radians.
pub const THREE_HALF_PI_URAD: i64 = 4_712_389;

/// Truncating (round-toward-zero) division, the natural rounding for
/// symmetric fixed-point scaling. Callers must keep `d > 0`.
pub open spec fn tdiv(a: int, d: int) -> int {
    if a >= 0 {
        a / d
    } else {
        -((-a) / d)
    }
}

/// Truncating division of `a` by a positive divisor `d`.
pub fn div_trunc(a: i64, d: i64) -> (r: i64)
    requires
        d > 0,
        a > i64::MIN,
    ensures
        r == tdiv(a as int, d as int),
        a >= 0 ==> 0 <= r <= a,
        a < 0 ==> a <= r <= 0,
{
    if a >= 0 {
        let q = (a as u64) / (d as u64);
        proof {
            vstd::arithmetic::div_mod::lemma_div_is_ordered(0, a as int, d as int);
            vstd::arithmetic::div_mod::lemma_div_nonincreasing(a as int, d as int);
        }
        q as i64
    } else {
        let q = ((-a) as u64) / (d as u64);
        proof {
            vstd::arithmetic::div_mod::lemma_div_is_ordered(0, (-a) as int, d as int);
            vstd::arithmetic::div_mod::lemma_div_nonincreasing((-a) as int, d as int);
        }
        -(q as i64)
    }
}

/// Euclidean remainder of `a` modulo a positive modulus `n`:
/// the unique value in `[0, n)` congruent to `a`.
pub fn rem_euclid(a: i64, n: i64) -> (r: i64)
    requires
        n > 0,
        a > i64::MIN,
    ensures
        r == (a as int) % (n as int),
        0 <= r < n,
{
    if a >= 0 {
        ((a as u64) % (n as u64)) as i64
    } else {
        let m = ((-a) as u64) % (n as u64);
        if m == 0 {
            proof {
                let b = (-a) as int;
                vstd::arithmetic::div_mod::lemma_fundamental_div_mod(b, n as int);
                assert(b == n * (b / (n as int)));
                assert(a as int == (-(b / (n as int))) * (n as int) + 0) by (nonlinear_arith)
                    requires a as int == -((n as int) * (b / (n as int)));
                vstd::arithmetic::div_mod::lemma_fundamental_div_mod_converse_mod(
                    a as int, n as int, -(b / (n as int)), 0);
            }
            0
        } else {
            proof {
                let b = (-a) as int;
                vstd::arithmetic::div_mod::lemma_fundamental_div_mod(b, n as int);
                assert(a as int == -(n * (b / (n as int))) - (b % (n as int)));
                assert(a as int == (-(b / (n as int)) - 1) * (n as int) + ((n as int) - (b % (n as int))))
                    by (nonlinear_arith)
                    requires a as int == -((n as int) * (b / (n as int))) - (b % (n as int));
                vstd::arithmetic::div_mod::lemma_fundamental_div_mod_converse_mod(
                    a as int, n as int, -(b / (n as int)) - 1, (n as int) - (b % (n as int)));
            }
            (n as u64 - m) as i64
        }
    }
}

/// Scale a magnitude by a milli-scaled fraction `f`, truncating toward zero:
/// `tdiv(f * mag, 1000)`. Used to turn a milli-scaled unit-vector component
/// and a speed into a velocity component, and to scale radii.
pub fn scale_by_milli(f: i64, mag: i64) -> (r: i64)
    requires
        -1_000 <= f <= 1_000,
        0 <= mag <= 1_000_000_000_000,
    ensures
        r == tdiv(f * mag, MILLI as int),
        -mag <= r <= mag,
{
    proof {
        lemma_mul_bound(f as int, mag as int, 1_000, mag as int);
        assert(1_000 * mag == mag * (MILLI as int)) by (nonlinear_arith)
            requires MILLI == 1_000;
        lemma_tdiv_bound(f * mag, MILLI as int, mag as int);
    }
    div_trunc(f * mag, MILLI)
}

/// Count `remaining` down by `dt` milliseconds, stopping at zero.
pub fn countdown(remaining: i64, dt: i64) -> (r: i64)
    requires
        0 <= remaining,
        0 <= dt,
    ensures
        r == if remaining - dt >= 0 { remaining - dt } else { 0 },
        0 <= r <= remaining,
{
    if dt >= remaining {
        0
    } else {
        remaining - dt
    }
}

/// The product of two values bounded in magnitude is bounded by the
/// product of the bounds.
pub proof fn lemma_mul_bound(a: int, b: int, bound_a: int, bound_b: int)
    requires
        -bound_a <= a <= bound_a,
        -bound_b <= b <= bound_b,
        0 <= bound_a,
        0 <= bound_b,
    ensures
        -(bound_a * bound_b) <= a * b <= bound_a * bound_b,
{
    assert(-(bound_a * bound_b) <= a * b <= bound_a * bound_b) by (nonlinear_arith)
        requires
            -bound_a <= a <= bound_a,
            -bound_b <= b <= bound_b,
            0 <= bound_a,
            0 <= bound_b;
}

/// Truncating division shrinks magnitudes: `|tdiv(a, d)| <= |a| / d`,
/// stated against an outer bound on `|a|`.
pub proof fn lemma_tdiv_bound(a: int, d: int, bound: int)
    requires
        d > 0,
        0 <= bound,
        -(bound * d) <= a <= bound * d,
    ensures
        -bound <= tdiv(a, d) <= bound,
{
    assert(bound * d == d * bound) by (nonlinear_arith);
    vstd::arithmetic::div_mod::lemma_div_multiples_vanish(bound, d);
    if a >= 0 {
        vstd::arithmetic::div_mod::lemma_div_is_ordered(a, d * bound, d);
        vstd::arithmetic::div_mod::lemma_div_is_ordered(0, a, d);
    } else {
        vstd::arithmetic::div_mod::lemma_div_is_ordered(-a, d * bound, d);
        vstd::arithmetic::div_mod::lemma_div_is_ordered(0, -a, d);
    }
}

} // verus!
