//! The simulation world: a flat arena of entities and the per-tick passes
//! over it.
//!
//! Entities are records in one growable array; an entity's index is its
//! handle, and destruction marks it dead instead of moving its neighbors,
//! so notifications computed from one snapshot stay valid while their
//! consequences are applied. All randomness comes from the world's seeded
//! generator, and sound requests are appended to an outbox the embedder
//! drains.

use vstd::prelude::*;

verus! {

use crate::collision::Collider;
use crate::kinematics::KinematicsBundle;
use crate::kinematics::KinematicsPlugin;
use crate::kinematics::Transform2;
use crate::kinematics::advance_position;
use crate::kinematics::advance_rotation;
use crate::kinematics::advance_velocity;
use crate::kinematics::damp_scalar;
use crate::kinematics::damped;
use crate::kinematics::sat;
use crate::meteor::MeteorState;
use crate::meteor::MeteorsConfig;
use crate::player::PlayerConfig;
use crate::projectile::ProjectileComponent;
use crate::projectile::ProjectileConfig;
use crate::ship::ShipState;
use crate::ship::ShootCooldown;
use crate::ship::ShipControls;
use crate::sounds::SoundId;
use crate::units::DT_MAX;
use crate::units::POS_MAX;
use crate::units::POS_WANDER_MAX;
use crate::units::TAU_URAD;
use crate::units::VEL_MAX;
use crate::units::lemma_mul_bound;
use crate::viewport::ViewportBounds;
use crate::viewport::wrap_axis;
use crate::viewport::wrap_axis_spec;

/// What an entity is, with its kind-specific attributes.
#[derive(Debug, Clone, Copy, PartialEq, Eq, Structural)]
pub enum Role {
    Ship(ShipState),
    Meteor(MeteorState),
    Projectile(ProjectileComponent),
}

/// One entity record.
#[derive(Debug, Clone, Copy, PartialEq, Eq, Structural)]
pub struct Entity {
    pub id: u64,
    pub alive: bool,
    pub xform: Transform2,
    pub kin: KinematicsBundle,
    pub collider: Collider,
    pub bounded: bool,
    pub role: Role,
}

impl Entity {
    /// Everything well-formedness asks of an entity except the position
    /// bound, which integration is allowed to stretch within a tick.
    pub open spec fn wf_except_pos(self, nvariants: int) -> bool {
        &&& self.kin.wf()
        &&& self.collider.wf()
        &&& 0 <= self.xform.rot < TAU_URAD
        &&& 0 < self.xform.scale <= 1_000_000
        &&& self.bounded
        &&& match self.role {
            Role::Ship(s) => s.wf(),
            Role::Meteor(m) => m.behavior.variant < nvariants,
            Role::Projectile(p) => p.wf(),
        }
    }

    /// Both position coordinates within `limit` micro-units.
    pub open spec fn pos_within(self, limit: int) -> bool {
        &&& -limit <= self.xform.x <= limit
        &&& -limit <= self.xform.y <= limit
    }
}

/// The simulation context: the entity arena, the tuning tables, the
/// viewport, the seeded generator and the sound outbox.
pub struct World {
    pub entities: Vec<Entity>,
    pub next_id: u64,
    pub bounds: ViewportBounds,
    pub meteors_config: MeteorsConfig,
    pub projectile_config: ProjectileConfig,
    pub sounds: Vec<SoundId>,
    pub rng: rand::rngs::StdRng,
}

impl World {
    /// How many meteor variants the tuning table has.
    pub open spec fn nvariants(self) -> int {
        self.meteors_config.variants@.len() as int
    }

    /// The tuning tables and the viewport are well-formed.
    pub open spec fn configs_wf(self) -> bool {
        &&& self.bounds.wf()
        &&& self.meteors_config.wf()
        &&& self.projectile_config.wf()
    }

    /// Every entity is well-formed apart from its position bound.
    pub open spec fn ents_wf(self) -> bool {
        forall|i: int| 0 <= i < self.entities@.len()
            ==> (#[trigger] self.entities@[i]).wf_except_pos(self.nvariants())
    }

    /// Every entity's position is within `limit`.
    pub open spec fn pos_within(self, limit: int) -> bool {
        forall|i: int| 0 <= i < self.entities@.len()
            ==> (#[trigger] self.entities@[i]).pos_within(limit)
    }

    /// The resting well-formedness of the world, re-established at the end
    /// of every tick.
    pub open spec fn wf(self) -> bool {
        &&& self.configs_wf()
        &&& self.ents_wf()
        &&& self.pos_within(POS_MAX as int)
    }

    /// Mid-tick well-formedness: positions may have wandered one
    /// integration step beyond the resting bound, but no further.
    pub open spec fn wf_wandered(self) -> bool {
        &&& self.configs_wf()
        &&& self.ents_wf()
        &&& self.pos_within(POS_WANDER_MAX as int)
    }

    /// The tuning tables and viewport of `post` are those of `pre`.
    pub open spec fn same_config(pre: World, post: World) -> bool {
        &&& post.bounds == pre.bounds
        &&& post.meteors_config == pre.meteors_config
        &&& post.projectile_config == pre.projectile_config
    }

    /// A fresh world: no entities, no pending sounds, the generator seeded.
    pub fn new(bounds: ViewportBounds, meteors_config: MeteorsConfig,
        projectile_config: ProjectileConfig, seed: u64) -> (w: World)
        requires
            bounds.wf(),
            meteors_config.wf(),
            projectile_config.wf(),
        ensures
            w.wf(),
            w.entities@.len() == 0,
            w.sounds@.len() == 0,
            w.bounds == bounds,
            w.meteors_config == meteors_config,
            w.projectile_config == projectile_config,
    {
        World {
            entities: Vec::new(),
            next_id: 0,
            bounds,
            meteors_config,
            projectile_config,
            sounds: Vec::new(),
            rng: crate::rng::rng_from_seed(seed),
        }
    }

    /// The next fresh entity identifier; saturates at the top of the range,
    /// which a simulation cannot reach.
    fn bump_id(&mut self)
        ensures
            final(self).entities == old(self).entities,
            final(self).bounds == old(self).bounds,
            final(self).meteors_config == old(self).meteors_config,
            final(self).projectile_config == old(self).projectile_config,
            final(self).sounds == old(self).sounds,
            final(self).rng == old(self).rng,
    {
        if self.next_id < u64::MAX {
            self.next_id = self.next_id + 1;
        }
    }

    /// Spawn the player's ship at the origin, at rest, with the configured
    /// damping, collider and cooldown; the cooldown starts full, so the
    /// first shot waits for it.
    pub fn spawn_player(&mut self, config: &PlayerConfig)
        requires
            old(self).wf(),
            config.ship.wf(),
        ensures
            final(self).wf(),
            final(self).entities@.len() == old(self).entities@.len() + 1,
            forall|i: int| 0 <= i < old(self).entities@.len()
                ==> final(self).entities@[i] == old(self).entities@[i],
            ({
                let e = final(self).entities@.last();
                &&& e.alive
                &&& e.bounded
                &&& e.xform == (Transform2 { x: 0, y: 0, rot: 0, scale: 1_000 })
                &&& e.kin == (KinematicsBundle {
                    velocity: crate::kinematics::Velocity { x: 0, y: 0 },
                    angular_velocity: crate::kinematics::AngularVelocity(0),
                    acceleration: crate::kinematics::Acceleration { x: 0, y: 0 },
                    angular_acceleration: crate::kinematics::AngularAcceleration(0),
                    linear_damping: crate::kinematics::LinearDamping(
                        config.ship.velocity_damping),
                    angular_damping: crate::kinematics::AngularDamping(
                        config.ship.rotation_rate_damping),
                })
                &&& e.collider.radius == config.ship.collision_radius
                &&& e.role == Role::Ship(ShipState {
                    controls: ShipControls { thrust: 0, turn: 0, shoot: false },
                    cooldown: ShootCooldown(config.ship.shoot_cooldown),
                    config: config.ship,
                    memory: crate::player::PlayerInputMemory { thrust: None, turn: None },
                })
            }),
            World::same_config(*old(self), *final(self)),
            final(self).sounds == old(self).sounds,
    {
        let mut kin = KinematicsBundle::default();
        kin.linear_damping = crate::kinematics::LinearDamping(config.ship.velocity_damping);
        kin.angular_damping = crate::kinematics::AngularDamping(config.ship.rotation_rate_damping);
        let entity = Entity {
            id: self.next_id,
            alive: true,
            xform: Transform2 { x: 0, y: 0, rot: 0, scale: 1_000 },
            kin,
            collider: Collider { radius: config.ship.collision_radius },
            bounded: true,
            role: Role::Ship(ShipState {
                controls: ShipControls::default(),
                cooldown: ShootCooldown(config.ship.shoot_cooldown),
                config: config.ship,
                memory: crate::player::PlayerInputMemory::default(),
            }),
        };
        self.entities.push(entity);
        self.bump_id();
    }
}

/// `b` is `a` after one position step of length `dt`: the position advanced
/// by the velocity, everything else untouched.
pub open spec fn moved(a: Entity, b: Entity, dt: int) -> bool {
    &&& b.xform.x == a.xform.x + a.kin.velocity.x * dt
    &&& b.xform.y == a.xform.y + a.kin.velocity.y * dt
    &&& b.xform.rot == a.xform.rot
    &&& b.xform.scale == a.xform.scale
    &&& same_but_xform(a, b)
}

/// `b` is `a` after one heading step of length `dt`.
pub open spec fn rotated(a: Entity, b: Entity, dt: int) -> bool {
    &&& b.xform.rot == (a.xform.rot + a.kin.angular_velocity.0 * dt) % (TAU_URAD as int)
    &&& b.xform.x == a.xform.x
    &&& b.xform.y == a.xform.y
    &&& b.xform.scale == a.xform.scale
    &&& same_but_xform(a, b)
}

/// `b` is `a` after one velocity step of length `dt`, saturating at the
/// tracked range.
pub open spec fn accelerated(a: Entity, b: Entity, dt: int) -> bool {
    &&& b.kin.velocity.x == sat(a.kin.velocity.x + a.kin.acceleration.x * dt, VEL_MAX as int)
    &&& b.kin.velocity.y == sat(a.kin.velocity.y + a.kin.acceleration.y * dt, VEL_MAX as int)
    &&& b.kin == (KinematicsBundle { velocity: b.kin.velocity, ..a.kin })
    &&& same_but_kin(a, b)
}

/// `b` is `a` after one angular-velocity step of length `dt`.
pub open spec fn angular_accelerated(a: Entity, b: Entity, dt: int) -> bool {
    &&& b.kin.angular_velocity.0
        == sat(a.kin.angular_velocity.0 + a.kin.angular_acceleration.0 * dt,
            crate::units::ANG_VEL_MAX as int)
    &&& b.kin == (KinematicsBundle { angular_velocity: b.kin.angular_velocity, ..a.kin })
    &&& same_but_kin(a, b)
}

/// `b` is `a` after one tick of linear damping.
pub open spec fn lin_damped(a: Entity, b: Entity, dt: int) -> bool {
    &&& b.kin.velocity.x == damped(a.kin.velocity.x as int, a.kin.linear_damping.0 as int, dt)
    &&& b.kin.velocity.y == damped(a.kin.velocity.y as int, a.kin.linear_damping.0 as int, dt)
    &&& b.kin == (KinematicsBundle { velocity: b.kin.velocity, ..a.kin })
    &&& same_but_kin(a, b)
}

/// `b` is `a` after one tick of angular damping.
pub open spec fn ang_damped(a: Entity, b: Entity, dt: int) -> bool {
    &&& b.kin.angular_velocity.0
        == damped(a.kin.angular_velocity.0 as int, a.kin.angular_damping.0 as int, dt)
    &&& b.kin == (KinematicsBundle { angular_velocity: b.kin.angular_velocity, ..a.kin })
    &&& same_but_kin(a, b)
}

/// `b` is `a` after the wrap constraint under `bounds`.
pub open spec fn wrapped(a: Entity, b: Entity, bounds: ViewportBounds) -> bool {
    &&& b.xform.x == wrap_axis_spec(a.xform.x as int, bounds.min_x as int, bounds.span_x())
    &&& b.xform.y == wrap_axis_spec(a.xform.y as int, bounds.min_y as int, bounds.span_y())
    &&& b.xform.rot == a.xform.rot
    &&& b.xform.scale == a.xform.scale
    &&& same_but_xform(a, b)
}

/// Everything but the transform agrees between `a` and `b`.
pub open spec fn same_but_xform(a: Entity, b: Entity) -> bool {
    &&& b.id == a.id
    &&& b.alive == a.alive
    &&& b.kin == a.kin
    &&& b.collider == a.collider
    &&& b.bounded == a.bounded
    &&& b.role == a.role
}

/// Everything but the kinematic state agrees between `a` and `b`.
pub open spec fn same_but_kin(a: Entity, b: Entity) -> bool {
    &&& b.id == a.id
    &&& b.alive == a.alive
    &&& b.xform == a.xform
    &&& b.collider == a.collider
    &&& b.bounded == a.bounded
    &&& b.role == a.role
}

/// The world fields no integration pass touches.
pub open spec fn sweeps_frame(pre: World, post: World) -> bool {
    &&& World::same_config(pre, post)
    &&& post.next_id == pre.next_id
    &&& post.sounds == pre.sounds
    &&& post.rng == pre.rng
    &&& post.entities@.len() == pre.entities@.len()
}

impl KinematicsPlugin {
    /// Advance every entity's position by its velocity: the explicit-Euler
    /// position step, exact.
    pub fn system_velocity(w: &mut World, dt: i64)
        requires
            old(w).wf(),
            0 <= dt <= DT_MAX,
        ensures
            sweeps_frame(*old(w), *final(w)),
            forall|i: int| 0 <= i < old(w).entities@.len()
                ==> moved(#[trigger] old(w).entities@[i], final(w).entities@[i], dt as int),
            final(w).wf_wandered(),
    {
        let n = w.entities.len();
        for i in 0..n
            invariant
                n == w.entities@.len(),
                n == old(w).entities@.len(),
                0 <= dt <= DT_MAX,
                old(w).wf(),
                sweeps_frame(*old(w), *w),
                forall|j: int| i <= j < n ==> w.entities@[j] == old(w).entities@[j],
                forall|j: int| 0 <= j < i
                    ==> moved(#[trigger] old(w).entities@[j], w.entities@[j], dt as int),
                forall|j: int| 0 <= j < i
                    ==> (#[trigger] w.entities@[j]).wf_except_pos(w.nvariants())
                        && w.entities@[j].pos_within(POS_WANDER_MAX as int),
        {
            let e = w.entities[i];
            proof {
                lemma_mul_bound(e.kin.velocity.x as int, dt as int,
                    VEL_MAX as int, DT_MAX as int);
                lemma_mul_bound(e.kin.velocity.y as int, dt as int,
                    VEL_MAX as int, DT_MAX as int);
            }
            let nx = advance_position(e.xform.x, e.kin.velocity.x, dt);
            let ny = advance_position(e.xform.y, e.kin.velocity.y, dt);
            let e2 = Entity { xform: Transform2 { x: nx, y: ny, ..e.xform }, ..e };
            w.entities.set(i, e2);
        }
    }

    /// Advance every entity's heading by its angular velocity, reduced to
    /// one turn.
    pub fn system_angular_velocity(w: &mut World, dt: i64)
        requires
            old(w).configs_wf(),
            old(w).ents_wf(),
            old(w).pos_within(POS_WANDER_MAX as int),
            0 <= dt <= DT_MAX,
        ensures
            sweeps_frame(*old(w), *final(w)),
            forall|i: int| 0 <= i < old(w).entities@.len()
                ==> rotated(#[trigger] old(w).entities@[i], final(w).entities@[i], dt as int),
            final(w).ents_wf(),
            final(w).pos_within(POS_WANDER_MAX as int),
            final(w).configs_wf(),
    {
        let n = w.entities.len();
        for i in 0..n
            invariant
                n == w.entities@.len(),
                n == old(w).entities@.len(),
                0 <= dt <= DT_MAX,
                old(w).configs_wf(),
                old(w).ents_wf(),
                old(w).pos_within(POS_WANDER_MAX as int),
                sweeps_frame(*old(w), *w),
                forall|j: int| i <= j < n ==> w.entities@[j] == old(w).entities@[j],
                forall|j: int| 0 <= j < i
                    ==> rotated(#[trigger] old(w).entities@[j], w.entities@[j], dt as int),
                forall|j: int| 0 <= j < i
                    ==> (#[trigger] w.entities@[j]).wf_except_pos(w.nvariants())
                        && w.entities@[j].pos_within(POS_WANDER_MAX as int),
        {
            let e = w.entities[i];
            let nr = advance_rotation(e.xform.rot, e.kin.angular_velocity.0, dt);
            let e2 = Entity { xform: Transform2 { rot: nr, ..e.xform }, ..e };
            w.entities.set(i, e2);
        }
    }

    /// Advance every entity's velocity by its acceleration, saturating at
    /// the tracked range.
    pub fn system_acceleration(w: &mut World, dt: i64)
        requires
            old(w).configs_wf(),
            old(w).ents_wf(),
            old(w).pos_within(POS_WANDER_MAX as int),
            0 <= dt <= DT_MAX,
        ensures
            sweeps_frame(*old(w), *final(w)),
            forall|i: int| 0 <= i < old(w).entities@.len()
                ==> accelerated(#[trigger] old(w).entities@[i], final(w).entities@[i], dt as int),
            final(w).ents_wf(),
            final(w).pos_within(POS_WANDER_MAX as int),
            final(w).configs_wf(),
    {
        let n = w.entities.len();
        for i in 0..n
            invariant
                n == w.entities@.len(),
                n == old(w).entities@.len(),
                0 <= dt <= DT_MAX,
                old(w).configs_wf(),
                old(w).ents_wf(),
                old(w).pos_within(POS_WANDER_MAX as int),
                sweeps_frame(*old(w), *w),
                forall|j: int| i <= j < n ==> w.entities@[j] == old(w).entities@[j],
                forall|j: int| 0 <= j < i
                    ==> accelerated(#[trigger] old(w).entities@[j], w.entities@[j], dt as int),
                forall|j: int| 0 <= j < i
                    ==> (#[trigger] w.entities@[j]).wf_except_pos(w.nvariants())
                        && w.entities@[j].pos_within(POS_WANDER_MAX as int),
        {
            let e = w.entities[i];
            let vx = advance_velocity(e.kin.velocity.x, e.kin.acceleration.x, dt);
            let vy = advance_velocity(e.kin.velocity.y, e.kin.acceleration.y, dt);
            let e2 = Entity {
                kin: KinematicsBundle {
                    velocity: crate::kinematics::Velocity { x: vx, y: vy },
                    ..e.kin
                },
                ..e
            };
            w.entities.set(i, e2);
        }
    }

    /// Advance every entity's angular velocity by its angular acceleration,
    /// saturating at the tracked range.
    pub fn system_angular_acceleration(w: &mut World, dt: i64)
        requires
            old(w).configs_wf(),
            old(w).ents_wf(),
            old(w).pos_within(POS_WANDER_MAX as int),
            0 <= dt <= DT_MAX,
        ensures
            sweeps_frame(*old(w), *final(w)),
            forall|i: int| 0 <= i < old(w).entities@.len()
                ==> angular_accelerated(#[trigger] old(w).entities@[i],
                    final(w).entities@[i], dt as int),
            final(w).ents_wf(),
            final(w).pos_within(POS_WANDER_MAX as int),
            final(w).configs_wf(),
    {
        let n = w.entities.len();
        for i in 0..n
            invariant
                n == w.entities@.len(),
                n == old(w).entities@.len(),
                0 <= dt <= DT_MAX,
                old(w).configs_wf(),
                old(w).ents_wf(),
                old(w).pos_within(POS_WANDER_MAX as int),
                sweeps_frame(*old(w), *w),
                forall|j: int| i <= j < n ==> w.entities@[j] == old(w).entities@[j],
                forall|j: int| 0 <= j < i
                    ==> angular_accelerated(#[trigger] old(w).entities@[j],
                        w.entities@[j], dt as int),
                forall|j: int| 0 <= j < i
                    ==> (#[trigger] w.entities@[j]).wf_except_pos(w.nvariants())
                        && w.entities@[j].pos_within(POS_WANDER_MAX as int),
        {
            let e = w.entities[i];
            let nv = advance_velocity(e.kin.angular_velocity.0, e.kin.angular_acceleration.0, dt);
            let e2 = Entity {
                kin: KinematicsBundle {
                    angular_velocity: crate::kinematics::AngularVelocity(nv),
                    ..e.kin
                },
                ..e
            };
            w.entities.set(i, e2);
        }
    }

    /// Apply linear damping to every entity's velocity.
    pub fn system_linear_damping(w: &mut World, dt: i64)
        requires
            old(w).configs_wf(),
            old(w).ents_wf(),
            old(w).pos_within(POS_WANDER_MAX as int),
            0 <= dt <= DT_MAX,
        ensures
            sweeps_frame(*old(w), *final(w)),
            forall|i: int| 0 <= i < old(w).entities@.len()
                ==> lin_damped(#[trigger] old(w).entities@[i], final(w).entities@[i], dt as int),
            final(w).ents_wf(),
            final(w).pos_within(POS_WANDER_MAX as int),
            final(w).configs_wf(),
    {
        let n = w.entities.len();
        for i in 0..n
            invariant
                n == w.entities@.len(),
                n == old(w).entities@.len(),
                0 <= dt <= DT_MAX,
                old(w).configs_wf(),
                old(w).ents_wf(),
                old(w).pos_within(POS_WANDER_MAX as int),
                sweeps_frame(*old(w), *w),
                forall|j: int| i <= j < n ==> w.entities@[j] == old(w).entities@[j],
                forall|j: int| 0 <= j < i
                    ==> lin_damped(#[trigger] old(w).entities@[j], w.entities@[j], dt as int),
                forall|j: int| 0 <= j < i
                    ==> (#[trigger] w.entities@[j]).wf_except_pos(w.nvariants())
                        && w.entities@[j].pos_within(POS_WANDER_MAX as int),
        {
            let e = w.entities[i];
            let vx = damp_scalar(e.kin.velocity.x, e.kin.linear_damping.0, dt);
            let vy = damp_scalar(e.kin.velocity.y, e.kin.linear_damping.0, dt);
            let e2 = Entity {
                kin: KinematicsBundle {
                    velocity: crate::kinematics::Velocity { x: vx, y: vy },
                    ..e.kin
                },
                ..e
            };
            w.entities.set(i, e2);
        }
    }

    /// Apply angular damping to every entity's angular velocity.
    pub fn system_angular_damping(w: &mut World, dt: i64)
        requires
            old(w).configs_wf(),
            old(w).ents_wf(),
            old(w).pos_within(POS_WANDER_MAX as int),
            0 <= dt <= DT_MAX,
        ensures
            sweeps_frame(*old(w), *final(w)),
            forall|i: int| 0 <= i < old(w).entities@.len()
                ==> ang_damped(#[trigger] old(w).entities@[i], final(w).entities@[i], dt as int),
            final(w).ents_wf(),
            final(w).pos_within(POS_WANDER_MAX as int),
            final(w).configs_wf(),
    {
        let n = w.entities.len();
        for i in 0..n
            invariant
                n == w.entities@.len(),
                n == old(w).entities@.len(),
                0 <= dt <= DT_MAX,
                old(w).configs_wf(),
                old(w).ents_wf(),
                old(w).pos_within(POS_WANDER_MAX as int),
                sweeps_frame(*old(w), *w),
                forall|j: int| i <= j < n ==> w.entities@[j] == old(w).entities@[j],
                forall|j: int| 0 <= j < i
                    ==> ang_damped(#[trigger] old(w).entities@[j], w.entities@[j], dt as int),
                forall|j: int| 0 <= j < i
                    ==> (#[trigger] w.entities@[j]).wf_except_pos(w.nvariants())
                        && w.entities@[j].pos_within(POS_WANDER_MAX as int),
        {
            let e = w.entities[i];
            let nv = damp_scalar(e.kin.angular_velocity.0, e.kin.angular_damping.0, dt);
            let e2 = Entity {
                kin: KinematicsBundle {
                    angular_velocity: crate::kinematics::AngularVelocity(nv),
                    ..e.kin
                },
                ..e
            };
            w.entities.set(i, e2);
        }
    }
}

/// `b` is `a` with one tick's input events folded into its controls and
/// press memory; non-ships and dead entities are untouched.
pub open spec fn inputs_applied(a: Entity, b: Entity, events: Seq<crate::input::InputEvent>)
    -> bool {
    match a.role {
        Role::Ship(s) => {
            if a.alive {
                let f = crate::player::fold_inputs_spec(s.controls, s.memory, events, 0);
                &&& b.role == Role::Ship(ShipState { controls: f.0, memory: f.1, ..s })
                &&& b.id == a.id
                &&& b.alive == a.alive
                &&& b.xform == a.xform
                &&& b.kin == a.kin
                &&& b.collider == a.collider
                &&& b.bounded == a.bounded
            } else {
                b == a
            }
        }
        _ => b == a,
    }
}

impl crate::player::PlayerPlugin {
    /// Fold one tick's input events into every live ship's controls, in
    /// event order, with last-press-wins axis semantics.
    pub fn system_handle_input(w: &mut World, events: &Vec<crate::input::InputEvent>)
        requires
            old(w).wf(),
        ensures
            sweeps_frame(*old(w), *final(w)),
            forall|i: int| 0 <= i < old(w).entities@.len()
                ==> inputs_applied(#[trigger] old(w).entities@[i], final(w).entities@[i],
                    events@),
            final(w).wf(),
    {
        let n = w.entities.len();
        for i in 0..n
            invariant
                n == w.entities@.len(),
                n == old(w).entities@.len(),
                old(w).wf(),
                sweeps_frame(*old(w), *w),
                forall|j: int| i <= j < n ==> w.entities@[j] == old(w).entities@[j],
                forall|j: int| 0 <= j < i
                    ==> inputs_applied(#[trigger] old(w).entities@[j], w.entities@[j],
                        events@),
                forall|j: int| 0 <= j < i
                    ==> (#[trigger] w.entities@[j]).wf_except_pos(w.nvariants())
                        && w.entities@[j].pos_within(POS_MAX as int),
        {
            let e = w.entities[i];
            if e.alive {
                if let Role::Ship(s) = e.role {
                    let mut controls = s.controls;
                    let mut memory = s.memory;
                    crate::player::system_handle_input(&mut controls, &mut memory, events);
                    let e2 = Entity {
                        role: Role::Ship(ShipState { controls, memory, ..s }),
                        ..e
                    };
                    w.entities.set(i, e2);
                }
            }
        }
    }
}

/// `b` is `a` with its shoot cooldown advanced by `dt`, clamped at zero;
/// non-ships are untouched.
pub open spec fn cooled(a: Entity, b: Entity, dt: int) -> bool {
    match a.role {
        Role::Ship(s) => {
            let c = if s.cooldown.0 - dt >= 0 { s.cooldown.0 - dt } else { 0 };
            &&& b.role == Role::Ship(ShipState { cooldown: ShootCooldown(c as i64), ..s })
            &&& b.id == a.id
            &&& b.alive == a.alive
            &&& b.xform == a.xform
            &&& b.kin == a.kin
            &&& b.collider == a.collider
            &&& b.bounded == a.bounded
        }
        _ => b == a,
    }
}

/// Whether a live ship fires this tick: the shoot control is held and the
/// cooldown has fully elapsed.
pub open spec fn fires(e: Entity) -> bool {
    &&& e.alive
    &&& e.role matches Role::Ship(s) && crate::ship::may_fire_spec(s.controls, s.cooldown)
}

/// `b` is `a` with the control mapping applied: the acceleration fully
/// rewritten from heading, thrust and turn, and the cooldown rewound to its
/// configured duration exactly when the ship fires. Dead entities and
/// non-ships are untouched.
pub open spec fn controls_applied(a: Entity, b: Entity) -> bool {
    match a.role {
        Role::Ship(s) => {
            if a.alive {
                &&& b.kin.acceleration.x == crate::ship::thrust_accel_spec(
                    crate::trig::heading_x_spec(a.xform.rot as int),
                    s.controls.thrust as int, s.config.thrust_factor as int)
                &&& b.kin.acceleration.y == crate::ship::thrust_accel_spec(
                    crate::trig::heading_y_spec(a.xform.rot as int),
                    s.controls.thrust as int, s.config.thrust_factor as int)
                &&& b.kin.angular_acceleration.0 == crate::ship::turn_accel_spec(
                    s.controls.turn as int, s.config.turn_factor as int)
                &&& b.kin == (KinematicsBundle {
                    acceleration: b.kin.acceleration,
                    angular_acceleration: b.kin.angular_acceleration,
                    ..a.kin
                })
                &&& b.role == Role::Ship(ShipState {
                    cooldown: if fires(a) {
                        ShootCooldown(s.config.shoot_cooldown)
                    } else {
                        s.cooldown
                    },
                    ..s
                })
                &&& b.id == a.id
                &&& b.alive == a.alive
                &&& b.xform == a.xform
                &&& b.collider == a.collider
                &&& b.bounded == a.bounded
            } else {
                b == a
            }
        }
        _ => b == a,
    }
}

/// How many entities of the snapshot fire this tick.
pub open spec fn count_firing(s: Seq<Entity>) -> int
    decreases s.len(),
{
    if s.len() == 0 {
        0
    } else {
        count_firing(s.drop_last()) + if fires(s.last()) {
            1int
        } else {
            0int
        }
    }
}

/// `e` is the projectile the ship `ship` fires under `cfg`: at the ship's
/// position and orientation, moving along the ship's heading at the
/// configured speed, with the configured radius, scale and lifetime.
pub open spec fn is_projectile_of(e: Entity, ship: Entity, cfg: ProjectileConfig) -> bool {
    &&& e.alive
    &&& e.bounded
    &&& e.role == Role::Projectile(ProjectileComponent { lifetime: cfg.lifetime })
    &&& e.collider.radius == cfg.collision_radius
    &&& e.xform.x == ship.xform.x
    &&& e.xform.y == ship.xform.y
    &&& e.xform.rot == ship.xform.rot
    &&& e.xform.scale == cfg.scale
    &&& e.kin.velocity.x == crate::projectile::dir_velocity_spec(
        crate::trig::heading_x_spec(ship.xform.rot as int), cfg.speed as int)
    &&& e.kin.velocity.y == crate::projectile::dir_velocity_spec(
        crate::trig::heading_y_spec(ship.xform.rot as int), cfg.speed as int)
    &&& e.kin.angular_velocity.0 == 0
    &&& e.kin.acceleration.x == 0 && e.kin.acceleration.y == 0
    &&& e.kin.angular_acceleration.0 == 0
    &&& e.kin.linear_damping.0 == 0 && e.kin.angular_damping.0 == 0
}

/// A shooter ledger for fired projectiles: entry `t` names the slot of the
/// firing ship whose shot produced the appended entity `n + t`.
pub open spec fn shot_ledger(pre: World, cur: World, cfg: ProjectileConfig,
    shooters: Seq<int>) -> bool {
    let n = pre.entities@.len() as int;
    &&& n + shooters.len() == cur.entities@.len()
    &&& forall|t: int| 0 <= t < shooters.len() ==> {
        let i = #[trigger] shooters[t];
        &&& 0 <= i < n
        &&& fires(pre.entities@[i])
        &&& is_projectile_of(cur.entities@[n + t], pre.entities@[i], cfg)
    }
}

/// One control step extends the shooter ledger by the firing ship's slot,
/// or not at all.
proof fn lemma_shot_ledger_step(pre: World, a: World, b: World, n: int, i: int,
    cfg: ProjectileConfig, shooters: Seq<int>, fired: bool)
    requires
        n == pre.entities@.len(),
        n <= a.entities@.len(),
        shot_ledger(pre, a, cfg, shooters),
        0 <= i < n,
        forall|j: int| 0 <= j < a.entities@.len() && j != i
            ==> #[trigger] b.entities@[j] == a.entities@[j],
        fired ==> {
            &&& b.entities@.len() == a.entities@.len() + 1
            &&& fires(pre.entities@[i])
            &&& is_projectile_of(b.entities@[a.entities@.len() as int], pre.entities@[i], cfg)
        },
        !fired ==> b.entities@.len() == a.entities@.len(),
    ensures
        shot_ledger(pre, b, cfg, if fired { shooters.push(i) } else { shooters }),
{
    let av = a.entities@;
    let bv = b.entities@;
    let shooters1 = if fired { shooters.push(i) } else { shooters };
    assert forall|t: int| 0 <= t < shooters1.len() implies {
        let s0 = #[trigger] shooters1[t];
        &&& 0 <= s0 < n
        &&& fires(pre.entities@[s0])
        &&& is_projectile_of(bv[n + t], pre.entities@[s0], cfg)
    } by {
        if t < shooters.len() {
            assert(shooters1[t] == shooters[t]);
            assert(n + t != i);
            assert(bv[n + t] == av[n + t]);
        } else {
            assert(fired);
            assert(shooters1[t] == i);
            assert(n + t == av.len());
        }
    };
}

impl crate::ship::ShipPlugin {
    /// Advance every ship's shoot cooldown by `dt`, clamping at zero.
    pub fn system_shoot_cooldown(w: &mut World, dt: i64)
        requires
            old(w).wf(),
            0 <= dt <= DT_MAX,
        ensures
            sweeps_frame(*old(w), *final(w)),
            forall|i: int| 0 <= i < old(w).entities@.len()
                ==> cooled(#[trigger] old(w).entities@[i], final(w).entities@[i], dt as int),
            final(w).wf(),
    {
        let n = w.entities.len();
        for i in 0..n
            invariant
                n == w.entities@.len(),
                n == old(w).entities@.len(),
                0 <= dt <= DT_MAX,
                old(w).wf(),
                sweeps_frame(*old(w), *w),
                forall|j: int| i <= j < n ==> w.entities@[j] == old(w).entities@[j],
                forall|j: int| 0 <= j < i
                    ==> cooled(#[trigger] old(w).entities@[j], w.entities@[j], dt as int),
                forall|j: int| 0 <= j < i
                    ==> (#[trigger] w.entities@[j]).wf_except_pos(w.nvariants())
                        && w.entities@[j].pos_within(POS_MAX as int),
        {
            let e = w.entities[i];
            if let Role::Ship(s) = e.role {
                let c = crate::units::countdown(s.cooldown.0, dt);
                let e2 = Entity {
                    role: Role::Ship(ShipState { cooldown: ShootCooldown(c), ..s }),
                    ..e
                };
                w.entities.set(i, e2);
            }
        }
    }

    /// Apply the control mapping to the one entity at `i`: if it is a live
    /// ship, rewrite its acceleration, rewind its cooldown when it fires,
    /// and append the fired projectile; anything else is left untouched.
    pub fn control_one(w: &mut World, i: usize) -> (fired: bool)
        requires
            old(w).wf(),
            i < old(w).entities@.len(),
        ensures
            final(w).wf(),
            World::same_config(*old(w), *final(w)),
            final(w).sounds == old(w).sounds,
            final(w).rng == old(w).rng,
            fired == fires(old(w).entities@[i as int]),
            controls_applied(old(w).entities@[i as int], final(w).entities@[i as int]),
            forall|j: int| 0 <= j < old(w).entities@.len() && j != i
                ==> final(w).entities@[j] == old(w).entities@[j],
            fired ==> final(w).entities@.len() == old(w).entities@.len() + 1
                && is_projectile_of(final(w).entities@.last(),
                    old(w).entities@[i as int], old(w).projectile_config),
            !fired ==> final(w).entities@.len() == old(w).entities@.len(),
    {
        let e = w.entities[i];
        if e.alive {
            if let Role::Ship(s) = e.role {
                let (acc, aacc, fire) = crate::ship::ShipPlugin::handle_controls(
                    &s.controls, &s.cooldown, &s.config, &e.xform);
                let cooldown = if fire {
                    ShootCooldown(s.config.shoot_cooldown)
                } else {
                    s.cooldown
                };
                let e2 = Entity {
                    kin: KinematicsBundle {
                        acceleration: acc,
                        angular_acceleration: aacc,
                        ..e.kin
                    },
                    role: Role::Ship(ShipState { cooldown, ..s }),
                    ..e
                };
                w.entities.set(i, e2);
                if fire {
                    let b = crate::projectile::ProjectileBundle::from_config(
                        &w.projectile_config, &e.xform);
                    let ent = Entity {
                        id: w.next_id,
                        alive: true,
                        xform: b.xform,
                        kin: b.kinematics,
                        collider: b.collider,
                        bounded: true,
                        role: Role::Projectile(b.projectile),
                    };
                    w.entities.push(ent);
                    w.bump_id();
                }
                fire
            } else {
                false
            }
        } else {
            false
        }
    }

    /// The per-tick control mapping over every live ship: rewrite its
    /// acceleration from its heading and controls, and fire a projectile
    /// along its heading exactly when the shoot control is held and the
    /// cooldown has elapsed, rewinding the cooldown. Fired projectiles are
    /// appended to the arena, one per firing ship; `control_one` states
    /// what each single step does, projectile included.
    pub fn system_handle_controls(w: &mut World)
        requires
            old(w).wf(),
        ensures
            World::same_config(*old(w), *final(w)),
            final(w).sounds == old(w).sounds,
            final(w).rng == old(w).rng,
            final(w).entities@.len() >= old(w).entities@.len(),
            forall|i: int| 0 <= i < old(w).entities@.len()
                ==> controls_applied(#[trigger] old(w).entities@[i], final(w).entities@[i]),
            forall|k: int| old(w).entities@.len() <= k < final(w).entities@.len()
                ==> (#[trigger] final(w).entities@[k]).alive
                    && final(w).entities@[k].role is Projectile,
            final(w).entities@.len()
                == old(w).entities@.len() + count_firing(old(w).entities@),
            exists|shooters: Seq<int>|
                shot_ledger(*old(w), *final(w), old(w).projectile_config, shooters),
            final(w).wf(),
    {
        let n = w.entities.len();
        let ghost mut shooters: Seq<int> = Seq::empty();
        for i in 0..n
            invariant
                n == old(w).entities@.len(),
                n <= w.entities@.len(),
                w.entities@.len() == n + count_firing(old(w).entities@.take(i as int)),
                w.wf(),
                World::same_config(*old(w), *w),
                w.sounds == old(w).sounds,
                w.rng == old(w).rng,
                forall|j: int| i <= j < n ==> w.entities@[j] == old(w).entities@[j],
                forall|j: int| 0 <= j < i
                    ==> controls_applied(#[trigger] old(w).entities@[j], w.entities@[j]),
                forall|k: int| n <= k < w.entities@.len()
                    ==> (#[trigger] w.entities@[k]).alive
                        && w.entities@[k].role is Projectile,
                shot_ledger(*old(w), *w, old(w).projectile_config, shooters),
        {
            let ghost at_entry = *w;
            let fired = Self::control_one(w, i);
            proof {
                assert(old(w).entities@.take(i + 1).drop_last()
                    =~= old(w).entities@.take(i as int));
                assert(old(w).entities@.take(i + 1).last() == old(w).entities@[i as int]);
                assert forall|k: int| n <= k < w.entities@.len()
                    implies (#[trigger] w.entities@[k]).alive
                        && w.entities@[k].role is Projectile by {
                    if k < at_entry.entities@.len() {
                        assert(w.entities@[k] == at_entry.entities@[k]);
                    } else {
                        assert(is_projectile_of(w.entities@[k],
                            old(w).entities@[i as int], old(w).projectile_config));
                    }
                };
                assert(at_entry.entities@[i as int] == old(w).entities@[i as int]);
                lemma_shot_ledger_step(*old(w), at_entry, *w, n as int, i as int,
                    old(w).projectile_config, shooters, fired);
                if fired {
                    shooters = shooters.push(i as int);
                }
            }
        }
        proof {
            assert(old(w).entities@.take(n as int) =~= old(w).entities@);
        }
    }
}

/// `b` is `a` with its remaining lifetime advanced by `dt` and despawned on
/// expiry; non-projectiles are untouched.
pub open spec fn aged(a: Entity, b: Entity, dt: int) -> bool {
    match a.role {
        Role::Projectile(p) => {
            let lt = if p.lifetime - dt >= 0 { p.lifetime - dt } else { 0 };
            &&& b.role == Role::Projectile(ProjectileComponent { lifetime: lt as i64 })
            &&& b.alive == (a.alive && lt > 0)
            &&& b.id == a.id
            &&& b.xform == a.xform
            &&& b.kin == a.kin
            &&& b.collider == a.collider
            &&& b.bounded == a.bounded
        }
        _ => b == a,
    }
}

impl crate::projectile::ProjectilePlugin {
    /// Age every projectile's countdown by `dt` and despawn the expired
    /// ones, independent of any collision.
    pub fn system_lifetime(w: &mut World, dt: i64)
        requires
            old(w).wf(),
            0 <= dt <= DT_MAX,
        ensures
            sweeps_frame(*old(w), *final(w)),
            forall|i: int| 0 <= i < old(w).entities@.len()
                ==> aged(#[trigger] old(w).entities@[i], final(w).entities@[i], dt as int),
            final(w).wf(),
    {
        let n = w.entities.len();
        for i in 0..n
            invariant
                n == w.entities@.len(),
                n == old(w).entities@.len(),
                0 <= dt <= DT_MAX,
                old(w).wf(),
                sweeps_frame(*old(w), *w),
                forall|j: int| i <= j < n ==> w.entities@[j] == old(w).entities@[j],
                forall|j: int| 0 <= j < i
                    ==> aged(#[trigger] old(w).entities@[j], w.entities@[j], dt as int),
                forall|j: int| 0 <= j < i
                    ==> (#[trigger] w.entities@[j]).wf_except_pos(w.nvariants())
                        && w.entities@[j].pos_within(POS_MAX as int),
        {
            let e = w.entities[i];
            if let Role::Projectile(p) = e.role {
                let lt = crate::units::countdown(p.lifetime, dt);
                let e2 = Entity {
                    role: Role::Projectile(ProjectileComponent { lifetime: lt }),
                    alive: e.alive && lt > 0,
                    ..e
                };
                w.entities.set(i, e2);
            }
        }
    }
}

/// Re-project every bounded entity's position into the viewport rectangle,
/// torus-style; in this simulation every entity carries the tag, so every
/// position comes home.
pub fn system_update_viewport_bounded(w: &mut World)
    requires
        old(w).configs_wf(),
        old(w).ents_wf(),
        old(w).pos_within(POS_WANDER_MAX as int),
    ensures
        sweeps_frame(*old(w), *final(w)),
        forall|i: int| 0 <= i < old(w).entities@.len()
            ==> wrapped(#[trigger] old(w).entities@[i], final(w).entities@[i], old(w).bounds),
        final(w).wf(),
{
    let n = w.entities.len();
    let bounds = w.bounds;
    let span_x = bounds.max_x - bounds.min_x;
    let span_y = bounds.max_y - bounds.min_y;
    for i in 0..n
        invariant
            n == w.entities@.len(),
            n == old(w).entities@.len(),
            bounds == old(w).bounds,
            span_x == bounds.span_x(),
            span_y == bounds.span_y(),
            old(w).configs_wf(),
            old(w).ents_wf(),
            old(w).pos_within(POS_WANDER_MAX as int),
            sweeps_frame(*old(w), *w),
            forall|j: int| i <= j < n ==> w.entities@[j] == old(w).entities@[j],
            forall|j: int| 0 <= j < i
                ==> wrapped(#[trigger] old(w).entities@[j], w.entities@[j], old(w).bounds),
            forall|j: int| 0 <= j < i
                ==> (#[trigger] w.entities@[j]).wf_except_pos(w.nvariants())
                    && w.entities@[j].pos_within(POS_MAX as int),
    {
        let e = w.entities[i];
        proof {
            assert(old(w).entities@[i as int].wf_except_pos(old(w).nvariants()));
        }
        if e.bounded {
            let nx = wrap_axis(e.xform.x, bounds.min_x, span_x);
            let ny = wrap_axis(e.xform.y, bounds.min_y, span_y);
            let e2 = Entity { xform: Transform2 { x: nx, y: ny, ..e.xform }, ..e };
            w.entities.set(i, e2);
        }
    }
}


/// Wrapping is idempotent at the entity level: wrapping an already wrapped
/// entity changes nothing.
pub proof fn lemma_wrapped_idempotent(a: Entity, b: Entity, c: Entity, bounds: ViewportBounds)
    requires
        bounds.wf(),
        wrapped(a, b, bounds),
        wrapped(b, c, bounds),
    ensures
        c == b,
{
    crate::viewport::lemma_wrap_idempotent(a.xform.x as int, bounds.min_x as int,
        bounds.span_x());
    crate::viewport::lemma_wrap_idempotent(a.xform.y as int, bounds.min_y as int,
        bounds.span_y());
}

/// One emitted collision notification: the indices of the two overlapping
/// live entities, lower index first.
#[derive(Debug, Clone, Copy, PartialEq, Eq, Structural)]
pub struct CollisionPair {
    pub a: usize,
    pub b: usize,
}

/// The entities at `i` and `j` are both alive and their circles overlap.
pub open spec fn hit(w: World, i: int, j: int) -> bool {
    let a = w.entities@[i];
    let b = w.entities@[j];
    &&& a.alive
    &&& b.alive
    &&& crate::collision::collides(
        a.xform.x as int, a.xform.y as int, a.collider.radius as int,
        b.xform.x as int, b.xform.y as int, b.collider.radius as int)
}

impl crate::collision::CollisionPlugin {
    /// The brute-force pair scan: one notification for every unordered pair
    /// of distinct live entities whose circles overlap, boundary included,
    /// in ascending lexicographic index order.
    #[verifier::rlimit(100)]
    pub fn find_collisions(w: &World) -> (pairs: Vec<CollisionPair>)
        requires
            w.wf(),
        ensures
            forall|k: int| 0 <= k < pairs@.len() ==> {
                let pr = #[trigger] pairs@[k];
                &&& pr.a < pr.b < w.entities@.len()
                &&& hit(*w, pr.a as int, pr.b as int)
            },
            forall|i: int, j: int| 0 <= i < j < w.entities@.len() && hit(*w, i, j)
                ==> exists|k: int| 0 <= k < pairs@.len()
                    && (#[trigger] pairs@[k]).a == i && pairs@[k].b == j,
            forall|k1: int, k2: int| 0 <= k1 < k2 < pairs@.len()
                ==> ((#[trigger] pairs@[k1]).a < (#[trigger] pairs@[k2]).a
                    || (pairs@[k1].a == pairs@[k2].a && pairs@[k1].b < pairs@[k2].b)),
    {
        let n = w.entities.len();
        let mut pairs: Vec<CollisionPair> = Vec::new();
        for i in 0..n
            invariant
                n == w.entities@.len(),
                w.wf(),
                forall|k: int| 0 <= k < pairs@.len() ==> {
                    let pr = #[trigger] pairs@[k];
                    &&& pr.a < pr.b < n
                    &&& pr.a < i
                    &&& hit(*w, pr.a as int, pr.b as int)
                },
                forall|i0: int, j0: int| 0 <= i0 < i && i0 < j0 < n && hit(*w, i0, j0)
                    ==> exists|k: int| 0 <= k < pairs@.len()
                        && (#[trigger] pairs@[k]).a == i0 && pairs@[k].b == j0,
                forall|k1: int, k2: int| 0 <= k1 < k2 < pairs@.len()
                    ==> ((#[trigger] pairs@[k1]).a < (#[trigger] pairs@[k2]).a
                        || (pairs@[k1].a == pairs@[k2].a && pairs@[k1].b < pairs@[k2].b)),
        {
            let ei = w.entities[i];
            for j in (i + 1)..n
                invariant
                    n == w.entities@.len(),
                    w.wf(),
                    i < n,
                    i < j,
                    ei == w.entities@[i as int],
                    forall|k: int| 0 <= k < pairs@.len() ==> {
                        let pr = #[trigger] pairs@[k];
                        &&& pr.a < pr.b < n
                        &&& (pr.a < i || (pr.a == i && pr.b < j))
                        &&& hit(*w, pr.a as int, pr.b as int)
                    },
                    forall|i0: int, j0: int| 0 <= i0 < i && i0 < j0 < n && hit(*w, i0, j0)
                        ==> exists|k: int| 0 <= k < pairs@.len()
                            && (#[trigger] pairs@[k]).a == i0 && pairs@[k].b == j0,
                    forall|j0: int| i < j0 < j && hit(*w, i as int, j0)
                        ==> exists|k: int| 0 <= k < pairs@.len()
                            && (#[trigger] pairs@[k]).a == i && pairs@[k].b == j0,
                    forall|k1: int, k2: int| 0 <= k1 < k2 < pairs@.len()
                        ==> ((#[trigger] pairs@[k1]).a < (#[trigger] pairs@[k2]).a
                            || (pairs@[k1].a == pairs@[k2].a && pairs@[k1].b < pairs@[k2].b)),
            {
                let ej = w.entities[j];
                if ei.alive && ej.alive
                    && Collider::is_collision(
                        ei.xform.x, ei.xform.y, &ei.collider,
                        ej.xform.x, ej.xform.y, &ej.collider)
                {
                    let ghost pre = pairs@;
                    pairs.push(CollisionPair { a: i, b: j });
                    proof {
                        assert(pairs@[pre.len() as int] == (CollisionPair { a: i, b: j }));
                        assert forall|i0: int, j0: int|
                            0 <= i0 < i && i0 < j0 < n && hit(*w, i0, j0)
                            implies exists|k: int| 0 <= k < pairs@.len()
                                && (#[trigger] pairs@[k]).a == i0 && pairs@[k].b == j0 by {
                            let k0 = choose|k: int| 0 <= k < pre.len()
                                && (#[trigger] pre[k]).a == i0 && pre[k].b == j0;
                            assert(pairs@[k0] == pre[k0]);
                        };
                        assert forall|j0: int| i < j0 < j + 1 && hit(*w, i as int, j0)
                            implies exists|k: int| 0 <= k < pairs@.len()
                                && (#[trigger] pairs@[k]).a == i && pairs@[k].b == j0 by {
                            if j0 == j as int {
                                assert(pairs@[pre.len() as int].a == i
                                    && pairs@[pre.len() as int].b == j0);
                            } else {
                                let k0 = choose|k: int| 0 <= k < pre.len()
                                    && (#[trigger] pre[k]).a == i && pre[k].b == j0;
                                assert(pairs@[k0] == pre[k0]);
                            }
                        };
                    }
                }
            }
        }
        pairs
    }
}

/// `b` is `a` with at most its liveness taken away: every other field is
/// untouched, and a dead entity never comes back.
pub open spec fn deadened(a: Entity, b: Entity) -> bool {
    &&& b == (Entity { alive: b.alive, ..a })
    &&& (b.alive ==> a.alive)
}

/// The sounds of `pre` are an unchanged prefix of the sounds of `post`.
pub open spec fn sounds_extended(pre: World, post: World) -> bool {
    &&& pre.sounds@.len() <= post.sounds@.len()
    &&& forall|i: int| 0 <= i < pre.sounds@.len()
            ==> #[trigger] post.sounds@[i] == pre.sounds@[i]
}

/// The entity at `i` is a live meteor.
pub open spec fn live_meteor(w: World, i: int) -> bool {
    &&& w.entities@[i].alive
    &&& w.entities@[i].role is Meteor
}

/// The entity at `i` is a live projectile.
pub open spec fn live_projectile(w: World, i: int) -> bool {
    &&& w.entities@[i].alive
    &&& w.entities@[i].role is Projectile
}

/// `c` is a child from splitting the meteor `parent`: one tier smaller,
/// the same variant, spawned live at the parent's position.
pub open spec fn child_of(c: Entity, parent: Entity) -> bool {
    &&& parent.role matches Role::Meteor(pm)
        && c.role matches Role::Meteor(cm)
        && cm.behavior.size == crate::meteor::smaller_spec(pm.behavior.size).unwrap()
        && cm.behavior.variant == pm.behavior.variant
    &&& c.alive
    &&& c.xform.x == parent.xform.x
    &&& c.xform.y == parent.xform.y
}

/// The slot held a live split-capable meteor before the pass and holds a
/// destroyed one after it.
pub open spec fn split_destroyed(a: Entity, b: Entity) -> bool {
    &&& a.alive
    &&& a.role matches Role::Meteor(m) && crate::meteor::can_split_spec(m.behavior.size)
    &&& !b.alive
}

/// How many of the first `n` slots hold a meteor of `pre` that the pass
/// destroyed and split.
pub open spec fn count_split_destroyed(pre: Seq<Entity>, post: Seq<Entity>, n: int) -> int
    decreases n,
{
    if n <= 0 {
        0
    } else {
        count_split_destroyed(pre, post, n - 1) + if split_destroyed(pre[n - 1], post[n - 1]) {
            1int
        } else {
            0int
        }
    }
}

/// Against itself, nothing counts as destroyed.
proof fn lemma_count_split_self(pre: Seq<Entity>, n: int)
    ensures
        count_split_destroyed(pre, pre, n) == 0,
    decreases n,
{
    if n > 0 {
        lemma_count_split_self(pre, n - 1);
    }
}

/// Two post-states that agree slot by slot on being split-destroyed have
/// the same count.
proof fn lemma_count_split_agree(pre: Seq<Entity>, a: Seq<Entity>, b: Seq<Entity>, n: int)
    requires
        forall|j: int| 0 <= j < n
            ==> split_destroyed(pre[j], #[trigger] a[j]) == split_destroyed(pre[j], b[j]),
    ensures
        count_split_destroyed(pre, a, n) == count_split_destroyed(pre, b, n),
    decreases n,
{
    if n > 0 {
        lemma_count_split_agree(pre, a, b, n - 1);
    }
}

/// Destroying one more split-capable meteor raises the count by exactly one.
proof fn lemma_count_split_flip(pre: Seq<Entity>, a: Seq<Entity>, b: Seq<Entity>, n: int, m: int)
    requires
        0 <= m < n,
        !split_destroyed(pre[m], a[m]),
        split_destroyed(pre[m], b[m]),
        forall|j: int| 0 <= j < n && j != m
            ==> split_destroyed(pre[j], #[trigger] a[j]) == split_destroyed(pre[j], b[j]),
    ensures
        count_split_destroyed(pre, b, n) == count_split_destroyed(pre, a, n) + 1,
    decreases n,
{
    if m == n - 1 {
        lemma_count_split_agree(pre, a, b, n - 1);
    } else {
        lemma_count_split_flip(pre, a, b, n - 1, m);
    }
}

/// A parent ledger for appended children: entry `t` names the slot of the
/// destroyed split-capable meteor whose split produced the appended entity
/// `n + t`.
pub open spec fn child_ledger(pre: World, cur: World, parents: Seq<int>) -> bool {
    let n = pre.entities@.len() as int;
    &&& n + parents.len() == cur.entities@.len()
    &&& forall|t: int| 0 <= t < parents.len() ==> {
        let mi = #[trigger] parents[t];
        &&& 0 <= mi < n
        &&& split_destroyed(pre.entities@[mi], cur.entities@[mi])
        &&& child_of(cur.entities@[n + t], pre.entities@[mi])
    }
}

/// A killer ledger for destroyed meteors: each destroyed meteor's entry
/// names the live projectile that overlapped it and died with it.
pub open spec fn kill_ledger(pre: World, cur: World, killers: Map<int, int>) -> bool {
    let n = pre.entities@.len() as int;
    forall|mi: int| 0 <= mi < n
        && live_meteor(pre, mi) && !(#[trigger] cur.entities@[mi]).alive
        ==> {
            &&& killers.dom().contains(mi)
            &&& 0 <= killers[mi] < n
            &&& live_projectile(pre, killers[mi])
            &&& hit(pre, killers[mi], mi)
            &&& !cur.entities@[killers[mi]].alive
        }
}

/// A target ledger for spent projectiles: each destroyed projectile's
/// entry names the live meteor it overlapped, which died with it.
pub open spec fn spend_ledger(pre: World, cur: World, targets: Map<int, int>) -> bool {
    let n = pre.entities@.len() as int;
    forall|pi: int| 0 <= pi < n
        && live_projectile(pre, pi) && !(#[trigger] cur.entities@[pi]).alive
        ==> {
            &&& targets.dom().contains(pi)
            &&& 0 <= targets[pi] < n
            &&& live_meteor(pre, targets[pi])
            &&& hit(pre, pi, targets[pi])
            &&& !cur.entities@[targets[pi]].alive
        }
}

/// The split engine's books, relating the pass's snapshot `pre` to a state
/// `cur`: the arena grew by exactly two entities per destroyed
/// split-capable meteor; some parent ledger shows every appended entity to
/// be a child of a meteor this pass destroyed; some killer ledger shows
/// every destroyed meteor fell to a projectile that overlapped it and died
/// with it; and some target ledger shows every spent projectile spent
/// itself on a meteor that overlapped it and died with it.
pub open spec fn split_accounting(pre: World, cur: World) -> bool {
    let n = pre.entities@.len() as int;
    &&& cur.entities@.len() == n + 2 * count_split_destroyed(pre.entities@, cur.entities@, n)
    &&& exists|parents: Seq<int>| child_ledger(pre, cur, parents)
    &&& exists|killers: Map<int, int>| kill_ledger(pre, cur, killers)
    &&& exists|targets: Map<int, int>| spend_ledger(pre, cur, targets)
}

/// Whether resolving a hit on this meteor spawns children.
pub open spec fn splits(e: Entity) -> bool {
    e.role matches Role::Meteor(pm) && crate::meteor::can_split_spec(pm.behavior.size)
}

/// The frame of one resolved hit of projectile `p` on meteor `m`, both in
/// their snapshot state in `a`: what `resolve_projectile_hit` did to `b`.
pub open spec fn resolve_frame(pre: World, a: World, b: World, n: int, p: int, m: int) -> bool {
    &&& n == pre.entities@.len()
    &&& n <= a.entities@.len()
    &&& 0 <= p < n
    &&& 0 <= m < n
    &&& p != m
    &&& a.entities@[p] == pre.entities@[p]
    &&& a.entities@[m] == pre.entities@[m]
    &&& live_projectile(pre, p)
    &&& live_meteor(pre, m)
    &&& hit(pre, p, m)
    &&& forall|j: int| 0 <= j < a.entities@.len() && j != p && j != m
            ==> #[trigger] b.entities@[j] == a.entities@[j]
    &&& deadened(a.entities@[p], b.entities@[p])
    &&& deadened(a.entities@[m], b.entities@[m])
    &&& !b.entities@[p].alive
    &&& !b.entities@[m].alive
    &&& if splits(pre.entities@[m]) {
            &&& b.entities@.len() == a.entities@.len() + 2
            &&& child_of(b.entities@[a.entities@.len() as int], pre.entities@[m])
            &&& child_of(b.entities@[a.entities@.len() as int + 1], pre.entities@[m])
        } else {
            b.entities@.len() == a.entities@.len()
        }
}

/// One resolved hit raises the destruction count by one when the meteor
/// splits and leaves it alone when it does not.
proof fn lemma_count_step(pre: World, a: World, b: World, n: int, p: int, m: int)
    requires
        resolve_frame(pre, a, b, n, p, m),
    ensures
        count_split_destroyed(pre.entities@, b.entities@, n)
            == count_split_destroyed(pre.entities@, a.entities@, n)
                + if splits(pre.entities@[m]) { 1int } else { 0int },
{
    let o = pre.entities@;
    let av = a.entities@;
    let bv = b.entities@;
    assert forall|j: int| 0 <= j < n && j != m
        implies split_destroyed(o[j], #[trigger] av[j]) == split_destroyed(o[j], bv[j]) by {
        if j == p {
            assert(o[p].role is Projectile);
        } else {
            assert(bv[j] == av[j]);
        }
    };
    if splits(o[m]) {
        assert(split_destroyed(o[m], bv[m]));
        assert(!split_destroyed(o[m], av[m]));
        lemma_count_split_flip(o, av, bv, n, m);
    } else {
        assert(split_destroyed(o[m], av[m]) == split_destroyed(o[m], bv[m]));
        lemma_count_split_agree(o, av, bv, n);
    }
}

/// One resolved hit extends the parent ledger by the split meteor's slot,
/// twice, or not at all.
proof fn lemma_child_ledger_step(pre: World, a: World, b: World, n: int, p: int, m: int,
    parents: Seq<int>)
    requires
        resolve_frame(pre, a, b, n, p, m),
        child_ledger(pre, a, parents),
    ensures
        child_ledger(pre, b,
            if splits(pre.entities@[m]) { parents + seq![m, m] } else { parents }),
{
    let o = pre.entities@;
    let av = a.entities@;
    let bv = b.entities@;
    let parents1 = if splits(o[m]) { parents + seq![m, m] } else { parents };
    assert forall|t: int| 0 <= t < parents1.len() implies {
        let mi = #[trigger] parents1[t];
        &&& 0 <= mi < n
        &&& split_destroyed(o[mi], bv[mi])
        &&& child_of(bv[n + t], o[mi])
    } by {
        if t < parents.len() {
            assert(parents1[t] == parents[t]);
            let mi = parents[t];
            assert(!av[mi].alive);
            assert(mi != p && mi != m);
            assert(bv[mi] == av[mi]);
            assert(bv[n + t] == av[n + t]);
        } else {
            assert(splits(o[m]));
            assert(parents1[t] == m);
            assert(split_destroyed(o[m], bv[m]));
            assert(n + t == av.len() || n + t == av.len() + 1);
            assert(child_of(bv[n + t], o[m]));
        }
    };
}

/// One resolved hit records the meteor's killer in the ledger.
proof fn lemma_kill_ledger_step(pre: World, a: World, b: World, n: int, p: int, m: int,
    killers: Map<int, int>)
    requires
        resolve_frame(pre, a, b, n, p, m),
        kill_ledger(pre, a, killers),
    ensures
        kill_ledger(pre, b, killers.insert(m, p)),
{
    let o = pre.entities@;
    let av = a.entities@;
    let bv = b.entities@;
    let killers1 = killers.insert(m, p);
    assert forall|mi: int| 0 <= mi < n
        && live_meteor(pre, mi) && !(#[trigger] bv[mi]).alive
        implies {
            &&& killers1.dom().contains(mi)
            &&& 0 <= killers1[mi] < n
            &&& live_projectile(pre, killers1[mi])
            &&& hit(pre, killers1[mi], mi)
            &&& !bv[killers1[mi]].alive
        } by {
        if mi == m {
            assert(killers1[m] == p);
        } else {
            assert(o[mi].role is Meteor && o[p].role is Projectile);
            assert(mi != p);
            assert(bv[mi] == av[mi]);
            assert(killers1[mi] == killers[mi]);
            let pi = killers[mi];
            assert(!av[pi].alive);
            assert(pi != p && pi != m);
            assert(bv[pi] == av[pi]);
        }
    };
}

/// One resolved hit records the projectile's target in the ledger.
proof fn lemma_spend_ledger_step(pre: World, a: World, b: World, n: int, p: int, m: int,
    targets: Map<int, int>)
    requires
        resolve_frame(pre, a, b, n, p, m),
        spend_ledger(pre, a, targets),
    ensures
        spend_ledger(pre, b, targets.insert(p, m)),
{
    let o = pre.entities@;
    let av = a.entities@;
    let bv = b.entities@;
    let targets1 = targets.insert(p, m);
    assert forall|pi: int| 0 <= pi < n
        && live_projectile(pre, pi) && !(#[trigger] bv[pi]).alive
        implies {
            &&& targets1.dom().contains(pi)
            &&& 0 <= targets1[pi] < n
            &&& live_meteor(pre, targets1[pi])
            &&& hit(pre, pi, targets1[pi])
            &&& !bv[targets1[pi]].alive
        } by {
        if pi == p {
            assert(targets1[p] == m);
        } else {
            assert(o[pi].role is Projectile && o[m].role is Meteor);
            assert(pi != m);
            assert(bv[pi] == av[pi]);
            assert(targets1[pi] == targets[pi]);
            let mi = targets[pi];
            assert(!av[mi].alive);
            assert(mi != p && mi != m);
            assert(bv[mi] == av[mi]);
        }
    };
}

impl crate::meteor::MeteorBundle {
    /// Consume one projectile-meteor hit: destroy both entities, play the
    /// explosion, and if the meteor's size splits, spawn exactly two
    /// children one tier smaller at the parent's position, inheriting the
    /// parent's variant with freshly rolled heading and spin. A size that
    /// cannot split (small and tiny) produces no children.
    pub fn resolve_projectile_hit(w: &mut World, p: usize, m: usize)
        requires
            old(w).wf(),
            p < old(w).entities@.len(),
            m < old(w).entities@.len(),
            p != m,
            live_projectile(*old(w), p as int),
            live_meteor(*old(w), m as int),
        ensures
            final(w).wf(),
            World::same_config(*old(w), *final(w)),
            sounds_extended(*old(w), *final(w)),
            final(w).entities@.len() >= old(w).entities@.len(),
            forall|j: int| 0 <= j < old(w).entities@.len() && j != p && j != m
                ==> final(w).entities@[j] == old(w).entities@[j],
            deadened(old(w).entities@[p as int], final(w).entities@[p as int]),
            deadened(old(w).entities@[m as int], final(w).entities@[m as int]),
            !final(w).entities@[p as int].alive,
            !final(w).entities@[m as int].alive,
            ({
                let parent = old(w).entities@[m as int];
                let n0 = old(w).entities@.len() as int;
                if parent.role matches Role::Meteor(pm)
                    && crate::meteor::can_split_spec(pm.behavior.size) {
                    &&& final(w).entities@.len() == n0 + 2
                    &&& child_of(final(w).entities@[n0], parent)
                    &&& child_of(final(w).entities@[n0 + 1], parent)
                } else {
                    final(w).entities@.len() == n0
                }
            }),
    {
        let mut ep = w.entities[p];
        ep.alive = false;
        w.entities.set(p, ep);
        let mut em = w.entities[m];
        em.alive = false;
        w.entities.set(m, em);
        if let Role::Meteor(ms) = em.role {
            if ms.behavior.size.can_split() {
                let child_size = ms.behavior.size.smaller().unwrap();
                let b1 = crate::meteor::MeteorBundle::new_random(
                    &mut w.rng, child_size, em.xform.x, em.xform.y,
                    &w.meteors_config, Some(ms.behavior.variant));
                let e1 = Entity {
                    id: w.next_id,
                    alive: true,
                    xform: b1.xform,
                    kin: b1.kinematics,
                    collider: b1.collider,
                    bounded: true,
                    role: Role::Meteor(crate::meteor::MeteorState {
                        behavior: b1.behavior,
                        sprite: b1.sprite,
                    }),
                };
                w.entities.push(e1);
                w.bump_id();
                let b2 = crate::meteor::MeteorBundle::new_random(
                    &mut w.rng, child_size, em.xform.x, em.xform.y,
                    &w.meteors_config, Some(ms.behavior.variant));
                let e2 = Entity {
                    id: w.next_id,
                    alive: true,
                    xform: b2.xform,
                    kin: b2.kinematics,
                    collider: b2.collider,
                    bounded: true,
                    role: Role::Meteor(crate::meteor::MeteorState {
                        behavior: b2.behavior,
                        sprite: b2.sprite,
                    }),
                };
                w.entities.push(e2);
                w.bump_id();
            }
        }
        w.sounds.push(SoundId::Explosion);
    }

    /// Consume this tick's projectile-meteor hits, from one consistent
    /// snapshot: every live projectile overlapping a live meteor destroys
    /// itself and the first such meteor it is paired with; each destroyed
    /// split-capable meteor leaves exactly two children at its position,
    /// and nothing else is appended (`split_accounting`). An entity
    /// destroyed earlier in the pass is not revisited, so nothing is
    /// destroyed twice.
    #[verifier::rlimit(100)]
    pub fn system_handle_projectile_collision(w: &mut World)
        requires
            old(w).wf(),
        ensures
            final(w).wf(),
            World::same_config(*old(w), *final(w)),
            sounds_extended(*old(w), *final(w)),
            forall|j: int| 0 <= j < old(w).entities@.len()
                ==> deadened(#[trigger] old(w).entities@[j], final(w).entities@[j]),
            forall|j: int| 0 <= j < old(w).entities@.len()
                && (#[trigger] old(w).entities@[j]).role is Ship
                ==> final(w).entities@[j] == old(w).entities@[j],
            forall|pi: int, mi: int|
                0 <= pi < old(w).entities@.len() && 0 <= mi < old(w).entities@.len()
                && live_projectile(*old(w), pi) && live_meteor(*old(w), mi)
                && #[trigger] hit(*old(w), pi, mi)
                ==> !(final(w).entities@[pi].alive && final(w).entities@[mi].alive),
            split_accounting(*old(w), *final(w)),
    {
        let n = w.entities.len();
        proof {
            lemma_count_split_self(old(w).entities@, n as int);
        }
        let ghost mut parents: Seq<int> = Seq::empty();
        let ghost mut killers: Map<int, int> = Map::empty();
        let ghost mut targets: Map<int, int> = Map::empty();
        for p in 0..n
            invariant
                n == old(w).entities@.len(),
                n <= w.entities@.len(),
                w.wf(),
                World::same_config(*old(w), *w),
                sounds_extended(*old(w), *w),
                forall|j: int| 0 <= j < n
                    ==> deadened(#[trigger] old(w).entities@[j], w.entities@[j]),
                forall|j: int| 0 <= j < n
                    && (#[trigger] old(w).entities@[j]).role is Ship
                    ==> w.entities@[j] == old(w).entities@[j],
                forall|pi: int, mi: int| 0 <= pi < p && 0 <= mi < n
                    && live_projectile(*old(w), pi) && live_meteor(*old(w), mi)
                    && #[trigger] hit(*old(w), pi, mi)
                    ==> !(w.entities@[pi].alive && w.entities@[mi].alive),
                w.entities@.len() == n
                    + 2 * count_split_destroyed(old(w).entities@, w.entities@, n as int),
                child_ledger(*old(w), *w, parents),
                kill_ledger(*old(w), *w, killers),
                spend_ledger(*old(w), *w, targets),
        {
            for m in 0..n
                invariant
                    n == old(w).entities@.len(),
                    n <= w.entities@.len(),
                    p < n,
                    w.wf(),
                    World::same_config(*old(w), *w),
                    sounds_extended(*old(w), *w),
                    forall|j: int| 0 <= j < n
                        ==> deadened(#[trigger] old(w).entities@[j], w.entities@[j]),
                    forall|j: int| 0 <= j < n
                        && (#[trigger] old(w).entities@[j]).role is Ship
                        ==> w.entities@[j] == old(w).entities@[j],
                    forall|pi: int, mi: int| 0 <= pi < p && 0 <= mi < n
                        && live_projectile(*old(w), pi) && live_meteor(*old(w), mi)
                        && #[trigger] hit(*old(w), pi, mi)
                        ==> !(w.entities@[pi].alive && w.entities@[mi].alive),
                    forall|mi: int| 0 <= mi < m
                        && live_projectile(*old(w), p as int) && live_meteor(*old(w), mi)
                        && #[trigger] hit(*old(w), p as int, mi)
                        ==> !(w.entities@[p as int].alive && w.entities@[mi].alive),
                    w.entities@.len() == n
                        + 2 * count_split_destroyed(old(w).entities@, w.entities@, n as int),
                    child_ledger(*old(w), *w, parents),
                    kill_ledger(*old(w), *w, killers),
                    spend_ledger(*old(w), *w, targets),
            {
                let ep = w.entities[p];
                if ep.alive && matches!(ep.role, Role::Projectile(_)) {
                    let em = w.entities[m];
                    if em.alive && matches!(em.role, Role::Meteor(_)) {
                        if Collider::is_collision(
                            ep.xform.x, ep.xform.y, &ep.collider,
                            em.xform.x, em.xform.y, &em.collider)
                        {
                            let ghost before = *w;
                            proof {
                                assert(before.entities@[p as int]
                                    == old(w).entities@[p as int]);
                                assert(before.entities@[m as int]
                                    == old(w).entities@[m as int]);
                                assert(hit(*old(w), p as int, m as int));
                            }
                            Self::resolve_projectile_hit(w, p, m);
                            proof {
                                assert(resolve_frame(*old(w), before, *w,
                                    n as int, p as int, m as int));
                                lemma_count_step(*old(w), before, *w,
                                    n as int, p as int, m as int);
                                lemma_child_ledger_step(*old(w), before, *w,
                                    n as int, p as int, m as int, parents);
                                lemma_kill_ledger_step(*old(w), before, *w,
                                    n as int, p as int, m as int, killers);
                                lemma_spend_ledger_step(*old(w), before, *w,
                                    n as int, p as int, m as int, targets);
                                if splits(old(w).entities@[m as int]) {
                                    parents = parents + seq![m as int, m as int];
                                }
                                killers = killers.insert(m as int, p as int);
                                targets = targets.insert(p as int, m as int);
                            }
                        }
                    }
                }
            }
        }
    }

    /// Destroy the player's ship on contact with any live meteor, with an
    /// explosion; the meteor survives.
    pub fn system_handle_player_collision(w: &mut World)
        requires
            old(w).wf(),
        ensures
            final(w).wf(),
            World::same_config(*old(w), *final(w)),
            sounds_extended(*old(w), *final(w)),
            final(w).entities@.len() == old(w).entities@.len(),
            final(w).rng == old(w).rng,
            forall|j: int| 0 <= j < old(w).entities@.len()
                && !((#[trigger] old(w).entities@[j]).role is Ship)
                ==> final(w).entities@[j] == old(w).entities@[j],
            forall|j: int| 0 <= j < old(w).entities@.len()
                && (#[trigger] old(w).entities@[j]).role is Ship
                ==> deadened(old(w).entities@[j], final(w).entities@[j])
                    && (final(w).entities@[j].alive
                        == (old(w).entities@[j].alive
                            && !exists|mi: int| 0 <= mi < old(w).entities@.len()
                                && live_meteor(*old(w), mi)
                                && #[trigger] hit(*old(w), j, mi))),
    {
        let n = w.entities.len();
        for i in 0..n
            invariant
                n == old(w).entities@.len(),
                n == w.entities@.len(),
                w.wf(),
                World::same_config(*old(w), *w),
                sounds_extended(*old(w), *w),
                w.rng == old(w).rng,
                forall|j: int| 0 <= j < n
                    && !((#[trigger] old(w).entities@[j]).role is Ship)
                    ==> w.entities@[j] == old(w).entities@[j],
                forall|j: int| i <= j < n ==> w.entities@[j] == old(w).entities@[j],
                forall|j: int| 0 <= j < i
                    && (#[trigger] old(w).entities@[j]).role is Ship
                    ==> deadened(old(w).entities@[j], w.entities@[j])
                        && (w.entities@[j].alive
                            == (old(w).entities@[j].alive
                                && !exists|mi: int| 0 <= mi < n
                                    && live_meteor(*old(w), mi)
                                    && #[trigger] hit(*old(w), j, mi))),
        {
            let e = w.entities[i];
            if e.alive && matches!(e.role, Role::Ship(_)) {
                let mut found = false;
                for m in 0..n
                    invariant
                        n == w.entities@.len(),
                        n == old(w).entities@.len(),
                        i < n,
                        w.wf(),
                        e == w.entities@[i as int],
                        e == old(w).entities@[i as int],
                        e.alive,
                        found ==> exists|mi: int| 0 <= mi < n
                            && live_meteor(*old(w), mi)
                            && #[trigger] hit(*old(w), i as int, mi),
                        !found ==> forall|mi: int| 0 <= mi < m
                            ==> !(live_meteor(*old(w), mi)
                                && #[trigger] hit(*old(w), i as int, mi)),
                        forall|j: int| 0 <= j < n
                            && !((#[trigger] old(w).entities@[j]).role is Ship)
                            ==> w.entities@[j] == old(w).entities@[j],
                        forall|j: int| 0 <= j < n
                            ==> deadened(#[trigger] old(w).entities@[j], w.entities@[j])
                                || w.entities@[j] == old(w).entities@[j],
                {
                    let em = w.entities[m];
                    if em.alive && matches!(em.role, Role::Meteor(_)) {
                        proof {
                            assert(w.entities@[m as int] == old(w).entities@[m as int]);
                        }
                        if Collider::is_collision(
                            e.xform.x, e.xform.y, &e.collider,
                            em.xform.x, em.xform.y, &em.collider)
                        {
                            proof {
                                assert(live_meteor(*old(w), m as int)
                                    && hit(*old(w), i as int, m as int));
                            }
                            found = true;
                        }
                    }
                }
                proof {
                    if !found {
                        assert(!exists|mi: int| 0 <= mi < n
                            && live_meteor(*old(w), mi)
                            && #[trigger] hit(*old(w), i as int, mi));
                    }
                }
                if found {
                    let mut e2 = e;
                    e2.alive = false;
                    w.entities.set(i, e2);
                    w.sounds.push(SoundId::Explosion);
                }
            }
        }
    }
}


/// How close to the origin, where the player spawns, a wave meteor may
/// appear: at least three hundred units away, in micro-units.
pub const SPAWN_SAFE_DIST: i64 = 300_000_000;

/// The entity sits at least the safety distance from the origin.
pub open spec fn outside_safe_zone(e: Entity) -> bool {
    e.xform.x * e.xform.x + e.xform.y * e.xform.y
        >= SPAWN_SAFE_DIST * SPAWN_SAFE_DIST
}

/// A wave meteor's position is acceptable: outside the safety zone, and
/// either inside the viewport rectangle or exactly the fallback point used
/// after too many rejected rolls.
pub open spec fn wave_spawn_pos_ok(e: Entity, bounds: ViewportBounds) -> bool {
    &&& outside_safe_zone(e)
    &&& {
        ||| (bounds.min_x <= e.xform.x < bounds.max_x
            && bounds.min_y <= e.xform.y < bounds.max_y)
        ||| (e.xform.x == SPAWN_SAFE_DIST && e.xform.y == SPAWN_SAFE_DIST)
    }
}

/// Whether `(x, y)` is at least the safety distance from the origin.
fn far_from_origin(x: i64, y: i64) -> (far: bool)
    requires
        -POS_MAX <= x <= POS_MAX,
        -POS_MAX <= y <= POS_MAX,
    ensures
        far == (x * x + y * y >= SPAWN_SAFE_DIST * SPAWN_SAFE_DIST),
{
    let xl: i128 = x as i128;
    let yl: i128 = y as i128;
    proof {
        lemma_mul_bound(xl as int, xl as int, POS_MAX as int, POS_MAX as int);
        lemma_mul_bound(yl as int, yl as int, POS_MAX as int, POS_MAX as int);
    }
    xl * xl + yl * yl >= (SPAWN_SAFE_DIST as i128) * (SPAWN_SAFE_DIST as i128)
}

impl crate::meteor::MeteorBundle {
    /// Open a scenario: spawn four large meteors at positions rolled within
    /// the viewport, rejecting and re-rolling any position that lands within
    /// the player's safety zone around the origin. If a hundred rolls in a
    /// row are rejected, the meteor is placed at the fixed fallback point on
    /// the diagonal at the safety distance, which may lie outside a small
    /// viewport; the wrap constraint brings it inside on the next tick. Each
    /// meteor rolls its own variant, sprite, heading and spin.
    pub fn system_spawn(w: &mut World)
        requires
            old(w).wf(),
        ensures
            final(w).wf(),
            World::same_config(*old(w), *final(w)),
            final(w).sounds == old(w).sounds,
            final(w).entities@.len() == old(w).entities@.len() + 4,
            forall|j: int| 0 <= j < old(w).entities@.len()
                ==> final(w).entities@[j] == old(w).entities@[j],
            forall|k: int| old(w).entities@.len() <= k < final(w).entities@.len() ==> {
                let e = #[trigger] final(w).entities@[k];
                &&& e.alive
                &&& e.role matches Role::Meteor(ms)
                    && ms.behavior.size == crate::meteor::MeteorSize::Large
                &&& wave_spawn_pos_ok(e, old(w).bounds)
            },
    {
        let n = w.entities.len();
        for c in 0..4usize
            invariant
                n == old(w).entities@.len(),
                w.entities@.len() == n + c,
                w.wf(),
                World::same_config(*old(w), *w),
                w.sounds == old(w).sounds,
                forall|j: int| 0 <= j < n ==> w.entities@[j] == old(w).entities@[j],
                forall|k: int| n <= k < w.entities@.len() ==> {
                    let e = #[trigger] w.entities@[k];
                    &&& e.alive
                    &&& e.role matches Role::Meteor(ms)
                        && ms.behavior.size == crate::meteor::MeteorSize::Large
                    &&& wave_spawn_pos_ok(e, old(w).bounds)
                },
        {
            let ghost old_entities_snapshot = w.entities;
            let mut chosen: Option<(i64, i64)> = None;
            let min_x = w.bounds.min_x;
            let max_x = w.bounds.max_x;
            let min_y = w.bounds.min_y;
            let max_y = w.bounds.max_y;
            for a in 0..100usize
                invariant
                    n == old(w).entities@.len(),
                    w.entities@.len() == n + c,
                    w.wf(),
                    World::same_config(*old(w), *w),
                    w.sounds == old(w).sounds,
                    w.entities == old_entities_snapshot,
                    min_x == w.bounds.min_x,
                    max_x == w.bounds.max_x,
                    min_y == w.bounds.min_y,
                    max_y == w.bounds.max_y,
                    chosen matches Some(pos) ==> {
                        &&& old(w).bounds.min_x <= pos.0 < old(w).bounds.max_x
                        &&& old(w).bounds.min_y <= pos.1 < old(w).bounds.max_y
                        &&& pos.0 * pos.0 + pos.1 * pos.1
                            >= SPAWN_SAFE_DIST * SPAWN_SAFE_DIST
                    },
            {
                if chosen.is_none() {
                    let x = crate::rng::rng_range(&mut w.rng, min_x, max_x);
                    let y = crate::rng::rng_range(&mut w.rng, min_y, max_y);
                    if far_from_origin(x, y) {
                        chosen = Some((x, y));
                    }
                }
            }
            let (x, y) = match chosen {
                Some(pos) => pos,
                None => (SPAWN_SAFE_DIST, SPAWN_SAFE_DIST),
            };
            let b = crate::meteor::MeteorBundle::new_random(
                &mut w.rng, crate::meteor::MeteorSize::Large, x, y,
                &w.meteors_config, None);
            let ent = Entity {
                id: w.next_id,
                alive: true,
                xform: b.xform,
                kin: b.kinematics,
                collider: b.collider,
                bounded: true,
                role: Role::Meteor(crate::meteor::MeteorState {
                    behavior: b.behavior,
                    sprite: b.sprite,
                }),
            };
            let ghost pre = w.entities@;
            w.entities.push(ent);
            w.bump_id();
            proof {
                assert(w.entities@[pre.len() as int] == ent);
                assert forall|k: int| n <= k < w.entities@.len() implies {
                    let e = #[trigger] w.entities@[k];
                    &&& e.alive
                    &&& e.role matches Role::Meteor(ms)
                        && ms.behavior.size == crate::meteor::MeteorSize::Large
                    &&& wave_spawn_pos_ok(e, old(w).bounds)
                } by {
                    if k < pre.len() {
                        assert(w.entities@[k] == pre[k]);
                    }
                };
            }
        }
    }
}

/// The input phase: one tick's events folded into every live ship.
pub open spec fn input_pass(pre: World, post: World,
    events: Seq<crate::input::InputEvent>) -> bool {
    &&& sweeps_frame(pre, post)
    &&& forall|i: int| 0 <= i < pre.entities@.len()
            ==> inputs_applied(#[trigger] pre.entities@[i], post.entities@[i], events)
}

/// The cooldown phase: every ship's shoot cooldown advanced by `dt`.
pub open spec fn cooldown_pass(pre: World, post: World, dt: int) -> bool {
    &&& sweeps_frame(pre, post)
    &&& forall|i: int| 0 <= i < pre.entities@.len()
            ==> cooled(#[trigger] pre.entities@[i], post.entities@[i], dt)
}

/// The control phase: every live ship's acceleration rewritten and its
/// shot fired and appended when the cooldown allows.
pub open spec fn controls_pass(pre: World, post: World) -> bool {
    &&& World::same_config(pre, post)
    &&& post.sounds == pre.sounds
    &&& post.rng == pre.rng
    &&& post.entities@.len() == pre.entities@.len() + count_firing(pre.entities@)
    &&& forall|i: int| 0 <= i < pre.entities@.len()
            ==> controls_applied(#[trigger] pre.entities@[i], post.entities@[i])
    &&& exists|shooters: Seq<int>|
            shot_ledger(pre, post, pre.projectile_config, shooters)
}

/// The four velocity-level integration phases and the two position-level
/// ones, as per-entity relations over the whole arena.
pub open spec fn acceleration_pass(pre: World, post: World, dt: int) -> bool {
    &&& sweeps_frame(pre, post)
    &&& forall|i: int| 0 <= i < pre.entities@.len()
            ==> accelerated(#[trigger] pre.entities@[i], post.entities@[i], dt)
}

/// See [`acceleration_pass`].
pub open spec fn angular_acceleration_pass(pre: World, post: World, dt: int) -> bool {
    &&& sweeps_frame(pre, post)
    &&& forall|i: int| 0 <= i < pre.entities@.len()
            ==> angular_accelerated(#[trigger] pre.entities@[i], post.entities@[i], dt)
}

/// See [`acceleration_pass`].
pub open spec fn velocity_pass(pre: World, post: World, dt: int) -> bool {
    &&& sweeps_frame(pre, post)
    &&& forall|i: int| 0 <= i < pre.entities@.len()
            ==> moved(#[trigger] pre.entities@[i], post.entities@[i], dt)
}

/// See [`acceleration_pass`].
pub open spec fn rotation_pass(pre: World, post: World, dt: int) -> bool {
    &&& sweeps_frame(pre, post)
    &&& forall|i: int| 0 <= i < pre.entities@.len()
            ==> rotated(#[trigger] pre.entities@[i], post.entities@[i], dt)
}

/// See [`acceleration_pass`].
pub open spec fn linear_damping_pass(pre: World, post: World, dt: int) -> bool {
    &&& sweeps_frame(pre, post)
    &&& forall|i: int| 0 <= i < pre.entities@.len()
            ==> lin_damped(#[trigger] pre.entities@[i], post.entities@[i], dt)
}

/// See [`acceleration_pass`].
pub open spec fn angular_damping_pass(pre: World, post: World, dt: int) -> bool {
    &&& sweeps_frame(pre, post)
    &&& forall|i: int| 0 <= i < pre.entities@.len()
            ==> ang_damped(#[trigger] pre.entities@[i], post.entities@[i], dt)
}

/// The wrap phase: every position re-projected into the viewport.
pub open spec fn wrap_pass(pre: World, post: World) -> bool {
    &&& sweeps_frame(pre, post)
    &&& forall|i: int| 0 <= i < pre.entities@.len()
            ==> wrapped(#[trigger] pre.entities@[i], post.entities@[i], pre.bounds)
}

/// The split phase: this tick's projectile-meteor hits consumed, with the
/// split engine's books kept.
pub open spec fn projectile_hits_pass(pre: World, post: World) -> bool {
    &&& World::same_config(pre, post)
    &&& sounds_extended(pre, post)
    &&& forall|j: int| 0 <= j < pre.entities@.len()
            ==> deadened(#[trigger] pre.entities@[j], post.entities@[j])
    &&& forall|j: int| 0 <= j < pre.entities@.len()
            && (#[trigger] pre.entities@[j]).role is Ship
            ==> post.entities@[j] == pre.entities@[j]
    &&& forall|pi: int, mi: int|
            0 <= pi < pre.entities@.len() && 0 <= mi < pre.entities@.len()
            && live_projectile(pre, pi) && live_meteor(pre, mi)
            && #[trigger] hit(pre, pi, mi)
            ==> !(post.entities@[pi].alive && post.entities@[mi].alive)
    &&& split_accounting(pre, post)
}

/// The player-death phase: every ship overlapping a live meteor destroyed.
pub open spec fn player_hits_pass(pre: World, post: World) -> bool {
    &&& World::same_config(pre, post)
    &&& sounds_extended(pre, post)
    &&& post.entities@.len() == pre.entities@.len()
    &&& post.rng == pre.rng
    &&& forall|j: int| 0 <= j < pre.entities@.len()
            && !((#[trigger] pre.entities@[j]).role is Ship)
            ==> post.entities@[j] == pre.entities@[j]
    &&& forall|j: int| 0 <= j < pre.entities@.len()
            && (#[trigger] pre.entities@[j]).role is Ship
            ==> deadened(pre.entities@[j], post.entities@[j])
                && (post.entities@[j].alive
                    == (pre.entities@[j].alive
                        && !exists|mi: int| 0 <= mi < pre.entities@.len()
                            && live_meteor(pre, mi)
                            && #[trigger] hit(pre, j, mi)))
}

/// The aging phase: every projectile's countdown advanced, the expired
/// despawned.
pub open spec fn lifetime_pass(pre: World, post: World, dt: int) -> bool {
    &&& sweeps_frame(pre, post)
    &&& forall|i: int| 0 <= i < pre.entities@.len()
            ==> aged(#[trigger] pre.entities@[i], post.entities@[i], dt)
}

/// One tick is the composition of the thirteen phases in their documented
/// order: `t` holds the twelve intermediate worlds between them.
pub open spec fn tick_trace(pre: World, post: World, dt: int,
    events: Seq<crate::input::InputEvent>, t: Seq<World>) -> bool {
    &&& t.len() == 12
    &&& input_pass(pre, t[0], events)
    &&& cooldown_pass(t[0], t[1], dt)
    &&& controls_pass(t[1], t[2])
    &&& acceleration_pass(t[2], t[3], dt)
    &&& angular_acceleration_pass(t[3], t[4], dt)
    &&& velocity_pass(t[4], t[5], dt)
    &&& rotation_pass(t[5], t[6], dt)
    &&& linear_damping_pass(t[6], t[7], dt)
    &&& angular_damping_pass(t[7], t[8], dt)
    &&& wrap_pass(t[8], t[9])
    &&& projectile_hits_pass(t[9], t[10])
    &&& player_hits_pass(t[10], t[11])
    &&& lifetime_pass(t[11], post, dt)
}

impl World {
    /// One simulation tick, in the documented phase order: fold the input
    /// events into the ships' controls; advance the shoot cooldowns; map
    /// controls to acceleration and fire; integrate acceleration into
    /// velocity and angular velocity; integrate start-of-tick velocity into
    /// position and heading; apply damping; wrap positions into the
    /// viewport; consume projectile-meteor hits (destroying and splitting)
    /// and meteor-ship hits (destroying the ship); and age projectiles,
    /// despawning the expired.
    pub fn tick(&mut self, dt: i64, events: &Vec<crate::input::InputEvent>)
        requires
            old(self).wf(),
            0 <= dt <= DT_MAX,
        ensures
            final(self).wf(),
            World::same_config(*old(self), *final(self)),
            final(self).entities@.len() >= old(self).entities@.len(),
            sounds_extended(*old(self), *final(self)),
            exists|t: Seq<World>|
                tick_trace(*old(self), *final(self), dt as int, events@, t),
    {
        crate::player::PlayerPlugin::system_handle_input(self, events);
        let ghost t0 = *self;
        crate::ship::ShipPlugin::system_shoot_cooldown(self, dt);
        let ghost t1 = *self;
        crate::ship::ShipPlugin::system_handle_controls(self);
        let ghost t2 = *self;
        proof {
            assert forall|i: int| 0 <= i < self.entities@.len()
                implies (#[trigger] self.entities@[i]).pos_within(POS_WANDER_MAX as int) by {
                assert(self.entities@[i].pos_within(POS_MAX as int));
            };
        }
        KinematicsPlugin::system_acceleration(self, dt);
        let ghost t3 = *self;
        proof {
            assert forall|i: int| 0 <= i < self.entities@.len()
                implies (#[trigger] self.entities@[i]).pos_within(POS_MAX as int) by {
                assert(accelerated(t2.entities@[i], self.entities@[i], dt as int));
                assert(t2.entities@[i].pos_within(POS_MAX as int));
            };
        }
        KinematicsPlugin::system_angular_acceleration(self, dt);
        let ghost t4 = *self;
        proof {
            assert forall|i: int| 0 <= i < self.entities@.len()
                implies (#[trigger] self.entities@[i]).pos_within(POS_MAX as int) by {
                assert(angular_accelerated(t3.entities@[i], self.entities@[i],
                    dt as int));
                assert(t3.entities@[i].pos_within(POS_MAX as int));
            };
        }
        KinematicsPlugin::system_velocity(self, dt);
        let ghost t5 = *self;
        KinematicsPlugin::system_angular_velocity(self, dt);
        let ghost t6 = *self;
        KinematicsPlugin::system_linear_damping(self, dt);
        let ghost t7 = *self;
        KinematicsPlugin::system_angular_damping(self, dt);
        let ghost t8 = *self;
        system_update_viewport_bounded(self);
        let ghost t9 = *self;
        crate::meteor::MeteorBundle::system_handle_projectile_collision(self);
        let ghost t10 = *self;
        crate::meteor::MeteorBundle::system_handle_player_collision(self);
        let ghost t11 = *self;
        crate::projectile::ProjectilePlugin::system_lifetime(self, dt);
        proof {
            let trace = seq![t0, t1, t2, t3, t4, t5, t6, t7, t8, t9, t10, t11];
            assert(trace[0] == t0 && trace[1] == t1 && trace[2] == t2
                && trace[3] == t3 && trace[4] == t4 && trace[5] == t5
                && trace[6] == t6 && trace[7] == t7 && trace[8] == t8
                && trace[9] == t9 && trace[10] == t10 && trace[11] == t11);
            assert(tick_trace(*old(self), *self, dt as int, events@, trace));
        }
    }
}

} // verus!
