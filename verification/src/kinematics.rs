//! Kinematic state and the explicit-Euler integration steps.
//!
//! Each per-tick pass is a pure function on one scalar or one pair of
//! scalars; the per-world passes that sweep every entity live in
//! [`crate::world`] and are exact maps of these functions.

use vstd::prelude::*;

verus! {

use crate::units::ACC_MAX;
use crate::units::ANG_VEL_MAX;
use crate::units::DT_MAX;
use crate::units::MICRO;
use crate::units::POS_MAX;
use crate::units::TAU_URAD;
use crate::units::VEL_MAX;
use crate::units::div_trunc;
use crate::units::lemma_mul_bound;
use crate::units::lemma_tdiv_bound;
use crate::units::rem_euclid;
use crate::units::tdiv;

/// Registration marker for the integration passes; the per-world sweeps are
/// its associated functions.
pub struct KinematicsPlugin;

/// 2D position in micro-units, heading in micro-radians within
/// `[0, TAU_URAD)`, and a milli-scaled uniform scale factor.
#[derive(Clone, Copy, Debug, PartialEq, Eq, Structural)]
pub struct Transform2 {
    pub x: i64,
    pub y: i64,
    pub rot: i64,
    pub scale: i64,
}

/// 2D velocity in micro-units per millisecond.
#[derive(Clone, Copy, Debug, PartialEq, Eq, Structural)]
pub struct Velocity {
    pub x: i64,
    pub y: i64,
}

/// Angular velocity in micro-radians per millisecond.
#[derive(Clone, Copy, Debug, PartialEq, Eq, Structural)]
pub struct AngularVelocity(pub i64);

/// 2D acceleration in micro-units per millisecond squared; fully rewritten
/// each tick for controlled entities, zero for drifting ones.
#[derive(Clone, Copy, Debug, PartialEq, Eq, Structural)]
pub struct Acceleration {
    pub x: i64,
    pub y: i64,
}

/// Angular acceleration in micro-radians per millisecond squared.
#[derive(Clone, Copy, Debug, PartialEq, Eq, Structural)]
pub struct AngularAcceleration(pub i64);

/// Linear damping: the milli-scaled fraction of velocity removed per second,
/// in `[0, 1000)`.
#[derive(Clone, Copy, Debug, PartialEq, Eq, Structural)]
pub struct LinearDamping(pub i64);

/// Angular damping: the milli-scaled fraction of angular velocity removed
/// per second, in `[0, 1000)`.
#[derive(Clone, Copy, Debug, PartialEq, Eq, Structural)]
pub struct AngularDamping(pub i64);

/// The full kinematic state of one entity.
#[derive(Clone, Copy, Debug, PartialEq, Eq, Structural)]
pub struct KinematicsBundle {
    pub velocity: Velocity,
    pub angular_velocity: AngularVelocity,
    pub acceleration: Acceleration,
    pub angular_acceleration: AngularAcceleration,
    pub linear_damping: LinearDamping,
    pub angular_damping: AngularDamping,
}

impl KinematicsBundle {
    /// Magnitude bounds under which every integration step is exact.
    pub open spec fn wf(self) -> bool {
        &&& -VEL_MAX <= self.velocity.x <= VEL_MAX
        &&& -VEL_MAX <= self.velocity.y <= VEL_MAX
        &&& -ANG_VEL_MAX <= self.angular_velocity.0 <= ANG_VEL_MAX
        &&& -ACC_MAX <= self.acceleration.x <= ACC_MAX
        &&& -ACC_MAX <= self.acceleration.y <= ACC_MAX
        &&& -ACC_MAX <= self.angular_acceleration.0 <= ACC_MAX
        &&& 0 <= self.linear_damping.0 < 1_000
        &&& 0 <= self.angular_damping.0 < 1_000
    }
}

impl Default for KinematicsBundle {
    /// The resting state: everything zero.
    fn default() -> (k: KinematicsBundle)
        ensures
            k == (KinematicsBundle {
                velocity: Velocity { x: 0, y: 0 },
                angular_velocity: AngularVelocity(0),
                acceleration: Acceleration { x: 0, y: 0 },
                angular_acceleration: AngularAcceleration(0),
                linear_damping: LinearDamping(0),
                angular_damping: AngularDamping(0),
            }),
            k.wf(),
    {
        KinematicsBundle {
            velocity: Velocity { x: 0, y: 0 },
            angular_velocity: AngularVelocity(0),
            acceleration: Acceleration { x: 0, y: 0 },
            angular_acceleration: AngularAcceleration(0),
            linear_damping: LinearDamping(0),
            angular_damping: AngularDamping(0),
        }
    }
}

impl Transform2 {
    /// Position and scale bounds for an entity at rest between ticks, with
    /// the heading reduced to one turn.
    pub open spec fn wf(self) -> bool {
        &&& -POS_MAX <= self.x <= POS_MAX
        &&& -POS_MAX <= self.y <= POS_MAX
        &&& 0 <= self.rot < TAU_URAD
        &&& 0 < self.scale <= 1_000_000
    }
}

/// Clamp to `[-limit, limit]`: integration saturates instead of overflowing.
pub open spec fn sat(x: int, limit: int) -> int {
    if x > limit {
        limit
    } else if x < -limit {
        -limit
    } else {
        x
    }
}

/// Advance one position axis by `velocity * dt`, exactly.
pub fn advance_position(p: i64, v: i64, dt: i64) -> (r: i64)
    requires
        -POS_MAX <= p <= POS_MAX,
        -VEL_MAX <= v <= VEL_MAX,
        0 <= dt <= DT_MAX,
    ensures
        r == p + v * dt,
{
    proof {
        lemma_mul_bound(v as int, dt as int, VEL_MAX as int, DT_MAX as int);
    }
    p + v * dt
}

/// Advance one velocity axis by `acceleration * dt`, saturating at the
/// tracked velocity range.
pub fn advance_velocity(v: i64, a: i64, dt: i64) -> (r: i64)
    requires
        -VEL_MAX <= v <= VEL_MAX,
        -ACC_MAX <= a <= ACC_MAX,
        0 <= dt <= DT_MAX,
    ensures
        r == sat(v + a * dt, VEL_MAX as int),
        -VEL_MAX <= r <= VEL_MAX,
{
    proof {
        lemma_mul_bound(a as int, dt as int, ACC_MAX as int, DT_MAX as int);
    }
    let next = v + a * dt;
    if next > VEL_MAX {
        VEL_MAX
    } else if next < -VEL_MAX {
        -VEL_MAX
    } else {
        next
    }
}

/// Advance the heading by `angular_velocity * dt` and reduce it to one turn.
pub fn advance_rotation(rot: i64, w: i64, dt: i64) -> (r: i64)
    requires
        0 <= rot < TAU_URAD,
        -ANG_VEL_MAX <= w <= ANG_VEL_MAX,
        0 <= dt <= DT_MAX,
    ensures
        r == (rot + w * dt) % (TAU_URAD as int),
        0 <= r < TAU_URAD,
{
    proof {
        lemma_mul_bound(w as int, dt as int, ANG_VEL_MAX as int, DT_MAX as int);
    }
    rem_euclid(rot + w * dt, TAU_URAD)
}

/// The milli-squared-scaled multiplier `1 - damping * dt` left after one
/// tick of damping, clamped at zero so a long tick stops the entity instead
/// of reversing it.
pub open spec fn damp_factor(d: int, dt: int) -> int {
    if 1_000_000 - d * dt < 0 {
        0
    } else {
        1_000_000 - d * dt
    }
}

/// The damped value: `v * damp_factor / 1_000_000`, truncated toward zero.
pub open spec fn damped(v: int, d: int, dt: int) -> int {
    tdiv(v * damp_factor(d, dt), 1_000_000)
}

/// Apply exponential damping to one velocity component.
pub fn damp_scalar(v: i64, d: i64, dt: i64) -> (r: i64)
    requires
        -VEL_MAX <= v <= VEL_MAX,
        0 <= d < 1_000,
        0 <= dt <= DT_MAX,
    ensures
        r == damped(v as int, d as int, dt as int),
        v >= 0 ==> 0 <= r <= v,
        v < 0 ==> v <= r <= 0,
{
    proof {
        lemma_mul_bound(d as int, dt as int, 1_000, DT_MAX as int);
    }
    let raw = 1_000_000 - d * dt;
    let f = if raw < 0 { 0 } else { raw };
    proof {
        lemma_mul_bound(v as int, f as int, VEL_MAX as int, 1_000_000);
        lemma_damp_within(v as int, d as int, dt as int);
    }
    div_trunc(v * f, MICRO)
}

/// Damping never grows a velocity and never flips its sign: whenever the
/// damping coefficient is below one (so `d * dt` stays below one tick's
/// full scale), the damped value lies between zero and the original value.
pub proof fn lemma_damp_within(v: int, d: int, dt: int)
    requires
        0 <= d,
        0 <= dt,
    ensures
        v >= 0 ==> 0 <= damped(v, d, dt) <= v,
        v < 0 ==> v <= damped(v, d, dt) <= 0,
{
    let f = damp_factor(d, dt);
    assert(d * dt >= 0) by (nonlinear_arith)
        requires 0 <= d, 0 <= dt;
    assert(0 <= f <= 1_000_000);
    if v >= 0 {
        assert(0 <= v * f <= v * 1_000_000) by (nonlinear_arith)
            requires 0 <= f <= 1_000_000, v >= 0;
        vstd::arithmetic::div_mod::lemma_div_is_ordered(0, v * f, 1_000_000);
        vstd::arithmetic::div_mod::lemma_div_is_ordered(v * f, v * 1_000_000, 1_000_000);
        assert(v * 1_000_000 == 1_000_000 * v) by (nonlinear_arith);
        vstd::arithmetic::div_mod::lemma_div_multiples_vanish(v, 1_000_000);
    } else {
        assert(0 <= (-v) * f <= (-v) * 1_000_000) by (nonlinear_arith)
            requires 0 <= f <= 1_000_000, v < 0;
        assert(v * f == -((-v) * f)) by (nonlinear_arith);
        vstd::arithmetic::div_mod::lemma_div_is_ordered(0, (-v) * f, 1_000_000);
        vstd::arithmetic::div_mod::lemma_div_is_ordered((-v) * f, (-v) * 1_000_000, 1_000_000);
        assert((-v) * 1_000_000 == 1_000_000 * (-v)) by (nonlinear_arith);
        vstd::arithmetic::div_mod::lemma_div_multiples_vanish(-v, 1_000_000);
    }
}

/// Damping bounds, stated for a whole velocity vector: with `d` below one
/// and `d * dt` below one tick's full scale, each damped component keeps its
/// sign and its magnitude does not grow.
pub proof fn lemma_damping_bounds(v: Velocity, d: int, dt: int)
    requires
        0 <= d < 1_000,
        0 <= dt,
        d * dt < 1_000_000,
    ensures
        v.x >= 0 ==> 0 <= damped(v.x as int, d, dt) <= v.x,
        v.x < 0 ==> v.x <= damped(v.x as int, d, dt) <= 0,
        v.y >= 0 ==> 0 <= damped(v.y as int, d, dt) <= v.y,
        v.y < 0 ==> v.y <= damped(v.y as int, d, dt) <= 0,
        damped(v.x as int, d, dt) * damped(v.x as int, d, dt)
            + damped(v.y as int, d, dt) * damped(v.y as int, d, dt)
            <= v.x * v.x + v.y * v.y,
{
    lemma_damp_within(v.x as int, d, dt);
    lemma_damp_within(v.y as int, d, dt);
    let dx = damped(v.x as int, d, dt);
    let dy = damped(v.y as int, d, dt);
    assert(dx * dx <= v.x * v.x) by (nonlinear_arith)
        requires
            v.x >= 0 ==> 0 <= dx <= v.x,
            v.x < 0 ==> v.x <= dx <= 0;
    assert(dy * dy <= v.y * v.y) by (nonlinear_arith)
        requires
            v.y >= 0 ==> 0 <= dy <= v.y,
            v.y < 0 ==> v.y <= dy <= 0;
}

} // verus!
