//! Projectiles: spawned along the firing ship's heading, aged every tick,
//! destroyed on expiry or on impact.

use vstd::prelude::*;

verus! {

use crate::collision::Collider;
use crate::kinematics::KinematicsBundle;
use crate::kinematics::Transform2;
use crate::kinematics::Velocity;
use crate::trig::heading_milli;
use crate::trig::heading_x_spec;
use crate::trig::heading_y_spec;
use crate::units::MILLI;
use crate::units::RADIUS_MAX;
use crate::units::TIMER_MAX;
use crate::units::VEL_MAX;
use crate::units::scale_by_milli;
use crate::units::tdiv;
use crate::viewport::ViewportBounded;

/// Registration marker for the projectile passes; the per-world aging sweep
/// is an associated function of the world.
pub struct ProjectilePlugin;

/// Projectile tuning: sprite index into the loaded image table, muzzle
/// speed in micro-units per millisecond, collision radius in micro-units,
/// milli-scaled sprite scale, and lifetime in milliseconds.
#[derive(Clone, Copy, Debug, PartialEq, Eq, Structural)]
pub struct ProjectileConfig {
    pub sprite_id: usize,
    pub speed: i64,
    pub collision_radius: i64,
    pub scale: i64,
    pub lifetime: i64,
}

impl ProjectileConfig {
    /// Tuning ranges under which spawning and aging are exact.
    pub open spec fn wf(self) -> bool {
        &&& 0 <= self.speed <= VEL_MAX
        &&& 0 <= self.collision_radius <= RADIUS_MAX
        &&& 0 < self.scale <= 1_000_000
        &&& 0 < self.lifetime <= TIMER_MAX
    }
}

/// The per-projectile countdown: remaining lifetime in milliseconds.
#[derive(Clone, Copy, Debug, PartialEq, Eq, Structural)]
pub struct ProjectileComponent {
    pub lifetime: i64,
}

impl ProjectileComponent {
    /// Never negative, small enough to count down exactly.
    pub open spec fn wf(self) -> bool {
        0 <= self.lifetime <= TIMER_MAX
    }
}

/// Everything a freshly fired projectile carries.
#[derive(Clone, Copy, Debug, PartialEq, Eq, Structural)]
pub struct ProjectileBundle {
    pub projectile: ProjectileComponent,
    pub collider: Collider,
    pub bounded: ViewportBounded,
    pub xform: Transform2,
    pub kinematics: KinematicsBundle,
}

/// One component of a velocity of magnitude `speed` along a milli-scaled
/// unit-vector component `h`.
pub open spec fn dir_velocity_spec(h: int, speed: int) -> int {
    tdiv(h * speed, MILLI as int)
}

impl ProjectileBundle {
    /// The projectile a ship standing at `xform` fires: it starts at the
    /// ship's position and orientation, travels along the ship's heading at
    /// the configured speed, and carries the configured radius, scale and
    /// lifetime. It drifts freely: no acceleration, no damping, no spin.
    pub fn from_config(config: &ProjectileConfig, xform: &Transform2)
        -> (b: ProjectileBundle)
        requires
            config.wf(),
            xform.wf(),
        ensures
            b.projectile.lifetime == config.lifetime,
            b.collider.radius == config.collision_radius,
            b.xform.x == xform.x,
            b.xform.y == xform.y,
            b.xform.rot == xform.rot,
            b.xform.scale == config.scale,
            b.kinematics.velocity.x == dir_velocity_spec(
                heading_x_spec(xform.rot as int), config.speed as int),
            b.kinematics.velocity.y == dir_velocity_spec(
                heading_y_spec(xform.rot as int), config.speed as int),
            b.kinematics.angular_velocity.0 == 0,
            b.kinematics.acceleration.x == 0,
            b.kinematics.acceleration.y == 0,
            b.kinematics.angular_acceleration.0 == 0,
            b.kinematics.linear_damping.0 == 0,
            b.kinematics.angular_damping.0 == 0,
            b.xform.wf(),
            b.kinematics.wf(),
            b.collider.wf(),
            b.projectile.wf(),
    {
        let (hx, hy) = heading_milli(xform.rot);
        let vx = scale_by_milli(hx, config.speed);
        let vy = scale_by_milli(hy, config.speed);
        ProjectileBundle {
            projectile: ProjectileComponent { lifetime: config.lifetime },
            collider: Collider { radius: config.collision_radius },
            bounded: ViewportBounded,
            xform: Transform2 {
                x: xform.x,
                y: xform.y,
                rot: xform.rot,
                scale: config.scale,
            },
            kinematics: KinematicsBundle {
                velocity: Velocity { x: vx, y: vy },
                ..Default::default()
            },
        }
    }
}

} // verus!
