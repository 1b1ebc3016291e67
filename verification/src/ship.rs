//! Ship tuning, control state, and the control-to-kinematics mapping.
//!
//! Each tick the mapper rewrites the ship's acceleration from its heading
//! and the continuous thrust/turn axes, and decides whether a shot is fired:
//! firing is allowed exactly when the shoot control is held and the cooldown
//! has fully elapsed, and a successful shot rewinds the cooldown to its
//! configured duration.

use vstd::prelude::*;

verus! {

use crate::kinematics::Acceleration;
use crate::kinematics::AngularAcceleration;
use crate::kinematics::Transform2;
use crate::trig::heading_milli;
use crate::trig::heading_x_spec;
use crate::trig::heading_y_spec;
use crate::units::ACC_MAX;
use crate::units::MICRO;
use crate::units::MILLI;
use crate::units::RADIUS_MAX;
use crate::units::TIMER_MAX;
use crate::units::div_trunc;
use crate::units::lemma_mul_bound;
use crate::units::lemma_tdiv_bound;
use crate::units::tdiv;

/// Registration marker for the ship passes; the per-world sweeps are
/// associated functions of the world.
pub struct ShipPlugin;

/// Continuous control state: milli-scaled thrust and turn axes in
/// `[-1000, 1000]`, and whether the fire control is held.
#[derive(Clone, Copy, Debug, PartialEq, Eq, Structural)]
pub struct ShipControls {
    pub thrust: i64,
    pub turn: i64,
    pub shoot: bool,
}

impl ShipControls {
    /// Both axes within the unit range.
    pub open spec fn wf(self) -> bool {
        &&& -1_000 <= self.thrust <= 1_000
        &&& -1_000 <= self.turn <= 1_000
    }
}

impl Default for ShipControls {
    /// All controls released.
    fn default() -> (c: ShipControls)
        ensures
            c == (ShipControls { thrust: 0, turn: 0, shoot: false }),
    {
        ShipControls { thrust: 0, turn: 0, shoot: false }
    }
}

/// Milliseconds left until the ship may fire again; zero means ready.
#[derive(Clone, Copy, Debug, PartialEq, Eq, Structural)]
pub struct ShootCooldown(pub i64);

impl ShootCooldown {
    /// Never negative, and small enough to count down exactly.
    pub open spec fn wf(self) -> bool {
        0 <= self.0 <= TIMER_MAX
    }
}

/// Immutable per-ship tuning. The thrust factor is the acceleration of full
/// thrust in micro-units per millisecond squared, the turn factor likewise
/// in micro-radians per millisecond squared; damping values are milli-scaled
/// fractions removed per second; the sprite is an index into the loaded
/// image table; the radius is in micro-units and the cooldown in
/// milliseconds.
#[derive(Clone, Copy, Debug, PartialEq, Eq, Structural)]
pub struct ShipConfig {
    pub thrust_factor: i64,
    pub turn_factor: i64,
    pub velocity_damping: i64,
    pub rotation_rate_damping: i64,
    pub sprite_id: usize,
    pub collision_radius: i64,
    pub shoot_cooldown: i64,
}

impl ShipConfig {
    /// Tuning ranges under which the control mapping is exact.
    pub open spec fn wf(self) -> bool {
        &&& 0 <= self.thrust_factor <= ACC_MAX
        &&& 0 <= self.turn_factor <= ACC_MAX
        &&& 0 <= self.velocity_damping < 1_000
        &&& 0 <= self.rotation_rate_damping < 1_000
        &&& 0 <= self.collision_radius <= RADIUS_MAX
        &&& 0 <= self.shoot_cooldown <= TIMER_MAX
    }
}

/// The memory of the most recent presser per axis, and the full mutable
/// per-ship control block.
#[derive(Clone, Copy, Debug, PartialEq, Eq, Structural)]
pub struct ShipState {
    pub controls: ShipControls,
    pub cooldown: ShootCooldown,
    pub config: ShipConfig,
    pub memory: crate::player::PlayerInputMemory,
}

impl ShipState {
    /// Control, cooldown and tuning ranges together.
    pub open spec fn wf(self) -> bool {
        &&& self.controls.wf()
        &&& self.cooldown.wf()
        &&& self.config.wf()
    }
}

/// One acceleration component commanded by the controls: the milli-scaled
/// heading component times the milli-scaled thrust times the thrust factor,
/// rescaled by one over a million.
pub open spec fn thrust_accel_spec(h: int, thrust: int, factor: int) -> int {
    tdiv(h * thrust * factor, MICRO as int)
}

/// The angular acceleration commanded by the controls: the milli-scaled
/// turn axis times the turn factor, rescaled by one over a thousand.
pub open spec fn turn_accel_spec(turn: int, factor: int) -> int {
    tdiv(turn * factor, MILLI as int)
}

/// Compute one thrust acceleration component.
fn thrust_accel(h: i64, thrust: i64, factor: i64) -> (a: i64)
    requires
        -1_000 <= h <= 1_000,
        -1_000 <= thrust <= 1_000,
        0 <= factor <= ACC_MAX,
    ensures
        a == thrust_accel_spec(h as int, thrust as int, factor as int),
        -factor <= a <= factor,
{
    proof {
        lemma_mul_bound(h as int, thrust as int, 1_000, 1_000);
        lemma_mul_bound(h * thrust, factor as int, 1_000_000, factor as int);
        assert(1_000_000 * factor == factor * (MICRO as int)) by (nonlinear_arith)
            requires MICRO == 1_000_000;
        lemma_tdiv_bound(h * thrust * factor, MICRO as int, factor as int);
    }
    div_trunc(h * thrust * factor, MICRO)
}

/// Whether the control state and cooldown permit firing this tick.
pub open spec fn may_fire_spec(controls: ShipControls, cooldown: ShootCooldown) -> bool {
    controls.shoot && cooldown.0 == 0
}

impl ShipPlugin {
    /// The per-ship control mapping: the acceleration the controls command
    /// (fully overwriting any previous value), and the firing decision.
    /// Firing is refused whenever any cooldown remains.
    pub fn handle_controls(controls: &ShipControls, cooldown: &ShootCooldown,
        config: &ShipConfig, xform: &Transform2)
        -> (out: (Acceleration, AngularAcceleration, bool))
        requires
            controls.wf(),
            config.wf(),
            xform.wf(),
        ensures
            out.0.x == thrust_accel_spec(
                heading_x_spec(xform.rot as int), controls.thrust as int,
                config.thrust_factor as int),
            out.0.y == thrust_accel_spec(
                heading_y_spec(xform.rot as int), controls.thrust as int,
                config.thrust_factor as int),
            out.1.0 == turn_accel_spec(controls.turn as int, config.turn_factor as int),
            out.2 == may_fire_spec(*controls, *cooldown),
            -ACC_MAX <= out.0.x <= ACC_MAX,
            -ACC_MAX <= out.0.y <= ACC_MAX,
            -ACC_MAX <= out.1.0 <= ACC_MAX,
    {
        let (hx, hy) = heading_milli(xform.rot);
        let ax = thrust_accel(hx, controls.thrust, config.thrust_factor);
        let ay = thrust_accel(hy, controls.thrust, config.thrust_factor);
        proof {
            lemma_mul_bound(controls.turn as int, config.turn_factor as int,
                1_000, config.turn_factor as int);
            assert(1_000 * config.turn_factor == config.turn_factor * (MILLI as int))
                by (nonlinear_arith)
                requires MILLI == 1_000;
            lemma_tdiv_bound(controls.turn * config.turn_factor,
                MILLI as int, config.turn_factor as int);
        }
        let ra = div_trunc(controls.turn * config.turn_factor, MILLI);
        let fire = controls.shoot && cooldown.0 == 0;
        (Acceleration { x: ax, y: ay }, AngularAcceleration(ra), fire)
    }
}

} // verus!
