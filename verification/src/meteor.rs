//! Meteors: the four-tier size hierarchy per visual variant, the split
//! rules, and the randomized spawn roll.
//!
//! A meteor's size only ever decreases: splitting a large or medium meteor
//! yields two children one tier smaller with the parent's variant, and tiny
//! (and small) meteors are terminal. Spawn rolls draw a sprite, a heading
//! and a spin from the world's seeded generator; only their ranges are
//! relied on.

use vstd::prelude::*;

verus! {

use crate::collision::Collider;
use crate::kinematics::KinematicsBundle;
use crate::kinematics::Transform2;
use crate::kinematics::Velocity;
use crate::kinematics::AngularVelocity;
use crate::rng::rng_range;
use crate::trig::cos_milli;
use crate::trig::sin_milli;
use crate::units::POS_MAX;
use crate::units::MILLI;
use crate::units::RADIUS_MAX;
use crate::units::TAU_URAD;
use crate::units::VEL_MAX;
use crate::units::scale_by_milli;
use crate::units::tdiv;
use crate::viewport::ViewportBounded;

/// Registration marker for the meteor passes; the per-world sweeps are
/// associated functions of the world.
#[derive(Debug)]
pub struct MeteorPlugin;

/// Largest spawn-rolled spin magnitude: a quarter turn per second, in
/// micro-radians per millisecond.
pub const METEOR_SPIN_MAX: i64 = 785;

/// The ordered size tiers.
#[derive(Debug, Clone, Copy, Hash, PartialEq, Eq, Structural)]
pub enum MeteorSize {
    Tiny,
    Small,
    Medium,
    Large,
}

impl Default for MeteorSize {
    /// Meteors start large.
    fn default() -> (s: MeteorSize)
        ensures
            s == MeteorSize::Large,
    {
        MeteorSize::Large
    }
}

/// The next tier down, if any.
pub open spec fn smaller_spec(s: MeteorSize) -> Option<MeteorSize> {
    match s {
        MeteorSize::Large => Some(MeteorSize::Medium),
        MeteorSize::Medium => Some(MeteorSize::Small),
        MeteorSize::Small => Some(MeteorSize::Tiny),
        MeteorSize::Tiny => None,
    }
}

/// Whether a meteor of this size splits when destroyed.
pub open spec fn can_split_spec(s: MeteorSize) -> bool {
    s == MeteorSize::Medium || s == MeteorSize::Large
}

/// Position of a size in the tier order: tiny is 0, large is 3.
pub open spec fn tier_rank(s: MeteorSize) -> nat {
    match s {
        MeteorSize::Tiny => 0,
        MeteorSize::Small => 1,
        MeteorSize::Medium => 2,
        MeteorSize::Large => 3,
    }
}

/// How many further split generations a meteor of this size can produce.
pub open spec fn split_depth(s: MeteorSize) -> nat
    decreases tier_rank(s),
{
    if can_split_spec(s) {
        1 + split_depth(smaller_spec(s).unwrap())
    } else {
        0
    }
}

/// Splitting terminates: size strictly descends the tier order, every size
/// is within three tiers of the terminal one, and a freshly spawned (large)
/// meteor is exhausted after at most three split generations.
pub proof fn lemma_split_terminates(s: MeteorSize)
    ensures
        can_split_spec(s) ==> tier_rank(smaller_spec(s).unwrap()) == tier_rank(s) - 1,
        split_depth(s) <= 3,
        split_depth(MeteorSize::Large) == 2,
        !can_split_spec(MeteorSize::Tiny),
{
    assert(split_depth(MeteorSize::Small) == 0);
    assert(split_depth(MeteorSize::Medium) == 1);
    assert(split_depth(MeteorSize::Large) == 2);
}

impl MeteorSize {
    /// The next tier down, if any.
    pub fn smaller(&self) -> (r: Option<MeteorSize>)
        ensures
            r == smaller_spec(*self),
    {
        match self {
            MeteorSize::Large => Some(MeteorSize::Medium),
            MeteorSize::Medium => Some(MeteorSize::Small),
            MeteorSize::Small => Some(MeteorSize::Tiny),
            MeteorSize::Tiny => None,
        }
    }

    /// Whether destroying a meteor of this size produces children.
    pub fn can_split(&self) -> (r: bool)
        ensures
            r == can_split_spec(*self),
    {
        matches!(self, MeteorSize::Medium | MeteorSize::Large)
    }
}

/// Tuning for one size tier of one variant: the sprite choices (indices
/// into the loaded image table), drift speed in micro-units per
/// millisecond, milli-scaled sprite scale, and base collision radius in
/// micro-units (scaled by the sprite scale on spawn).
#[derive(Debug, Clone)]
pub struct SizedMeteorConfig {
    pub sprites: Vec<usize>,
    pub speed: i64,
    pub scale: i64,
    pub collision_radius: i64,
}

impl SizedMeteorConfig {
    /// Ranges under which spawn rolls are exact; at least one sprite must
    /// be configured, since the roll picks one uniformly.
    pub open spec fn wf(self) -> bool {
        &&& 1 <= self.sprites@.len() <= 1_000
        &&& 0 <= self.speed <= VEL_MAX
        &&& 0 < self.scale <= 10_000
        &&& 0 <= self.collision_radius <= 100_000_000_000
    }
}

impl Default for SizedMeteorConfig {
    /// No sprites, no drift, unit scale, a hundred-unit radius.
    fn default() -> (c: SizedMeteorConfig)
        ensures
            c.sprites@.len() == 0,
            c.speed == 0,
            c.scale == 1_000,
            c.collision_radius == 100_000_000,
    {
        SizedMeteorConfig {
            sprites: Vec::new(),
            speed: 0,
            scale: 1_000,
            collision_radius: 100_000_000,
        }
    }
}

/// Tuning for all four size tiers of one variant.
#[derive(Debug, Clone)]
pub struct MeteorConfig {
    pub tiny: SizedMeteorConfig,
    pub small: SizedMeteorConfig,
    pub medium: SizedMeteorConfig,
    pub large: SizedMeteorConfig,
}

impl MeteorConfig {
    /// All four tiers in range.
    pub open spec fn wf(self) -> bool {
        &&& self.tiny.wf()
        &&& self.small.wf()
        &&& self.medium.wf()
        &&& self.large.wf()
    }

    /// The tier's tuning record.
    pub open spec fn size_config_spec(self, size: MeteorSize) -> SizedMeteorConfig {
        match size {
            MeteorSize::Tiny => self.tiny,
            MeteorSize::Small => self.small,
            MeteorSize::Medium => self.medium,
            MeteorSize::Large => self.large,
        }
    }

    /// Look up the tuning for one size tier.
    pub fn size_config(&self, size: MeteorSize) -> (c: &SizedMeteorConfig)
        ensures
            *c == self.size_config_spec(size),
    {
        match size {
            MeteorSize::Tiny => &self.tiny,
            MeteorSize::Small => &self.small,
            MeteorSize::Medium => &self.medium,
            MeteorSize::Large => &self.large,
        }
    }
}

/// One visual variant: its name (a key of the asset tables) and its
/// per-size tuning.
#[derive(Debug, Clone)]
pub struct MeteorVariant {
    pub name: String,
    pub sizes: MeteorConfig,
}

/// The whole meteor tuning table, one entry per variant.
#[derive(Debug, Clone)]
pub struct MeteorsConfig {
    pub variants: Vec<MeteorVariant>,
}

impl MeteorsConfig {
    /// A non-empty table of well-formed variants; the variant roll picks an
    /// index uniformly.
    pub open spec fn wf(self) -> bool {
        &&& 1 <= self.variants@.len() <= 1_000
        &&& forall|i: int| 0 <= i < self.variants@.len()
                ==> (#[trigger] self.variants@[i]).sizes.wf()
    }
}

/// A meteor's immutable behavior: its size tier and the index of its visual
/// variant in the tuning table.
#[derive(Debug, Clone, Copy, PartialEq, Eq, Structural)]
pub struct MeteorBehavior {
    pub size: MeteorSize,
    pub variant: usize,
}

/// The per-entity meteor attributes kept in the world: the behavior record
/// and the rolled sprite index.
#[derive(Debug, Clone, Copy, PartialEq, Eq, Structural)]
pub struct MeteorState {
    pub behavior: MeteorBehavior,
    pub sprite: usize,
}

/// Everything a freshly rolled meteor carries.
#[derive(Debug, Clone, Copy, PartialEq, Eq, Structural)]
pub struct MeteorBundle {
    pub behavior: MeteorBehavior,
    pub viewport_bounded: ViewportBounded,
    pub collider: Collider,
    pub sprite: usize,
    pub xform: Transform2,
    pub kinematics: KinematicsBundle,
}

impl MeteorBundle {
    /// What a spawn roll guarantees: the requested size and position, a
    /// variant and sprite within the tables, the scaled collision radius of
    /// its tier, a drift speed bounded by the tier's configured magnitude,
    /// and a spin within the spawn range: the drift is the tier's configured
    /// speed scaled along the milli-heading of some angle of the full
    /// circle. Which angle and which spin are random.
    pub open spec fn rolled(self, size: MeteorSize, x: i64, y: i64,
        config: MeteorsConfig) -> bool {
        let scfg = config.variants@[self.behavior.variant as int]
            .sizes.size_config_spec(size);
        &&& self.behavior.size == size
        &&& self.behavior.variant < config.variants@.len()
        &&& self.sprite < scfg.sprites@.len()
        &&& self.xform.x == x
        &&& self.xform.y == y
        &&& self.xform.rot == 0
        &&& self.xform.scale == scfg.scale
        &&& self.collider.radius == tdiv(scfg.collision_radius * scfg.scale, MILLI as int)
        &&& -scfg.speed <= self.kinematics.velocity.x <= scfg.speed
        &&& -scfg.speed <= self.kinematics.velocity.y <= scfg.speed
        &&& exists|angle: int| {
            &&& 0 <= angle < TAU_URAD
            &&& self.kinematics.velocity.x
                == tdiv(#[trigger] crate::trig::cos_milli_spec(angle) * scfg.speed,
                    MILLI as int)
            &&& self.kinematics.velocity.y
                == tdiv(crate::trig::sin_milli_spec(angle) * scfg.speed, MILLI as int)
        }
        &&& -METEOR_SPIN_MAX <= self.kinematics.angular_velocity.0 <= METEOR_SPIN_MAX
        &&& self.kinematics.acceleration.x == 0
        &&& self.kinematics.acceleration.y == 0
        &&& self.kinematics.angular_acceleration.0 == 0
        &&& self.kinematics.linear_damping.0 == 0
        &&& self.kinematics.angular_damping.0 == 0
    }

    /// Roll a meteor of the given size at the given position: the variant
    /// is taken from `variant` or rolled uniformly, the sprite is rolled
    /// uniformly within the variant's tier, the drift heading is rolled
    /// uniformly around the circle at the tier's configured speed, and the
    /// spin is rolled uniformly within the spawn range.
    pub fn new_random(rng: &mut rand::rngs::StdRng, size: MeteorSize, x: i64, y: i64,
        config: &MeteorsConfig, variant: Option<usize>) -> (b: MeteorBundle)
        requires
            config.wf(),
            -POS_MAX <= x <= POS_MAX,
            -POS_MAX <= y <= POS_MAX,
            variant matches Some(v) ==> v < config.variants@.len(),
        ensures
            b.rolled(size, x, y, *config),
            variant matches Some(v) ==> b.behavior.variant == v,
            b.xform.wf(),
            b.kinematics.wf(),
            b.collider.wf(),
    {
        let variant_idx: usize = match variant {
            Some(v) => v,
            None => rng_range(rng, 0, config.variants.len() as i64) as usize,
        };
        let scfg = config.variants[variant_idx].sizes.size_config(size);

        let sprite_idx: usize = rng_range(rng, 0, scfg.sprites.len() as i64) as usize;

        let angle = rng_range(rng, 0, TAU_URAD);
        let dir_x = cos_milli(angle);
        let dir_y = sin_milli(angle);
        let vel_x = scale_by_milli(dir_x, scfg.speed);
        let vel_y = scale_by_milli(dir_y, scfg.speed);

        proof {
            assert(vel_x == tdiv(
                crate::trig::cos_milli_spec(angle as int) * scfg.speed, MILLI as int));
            assert(vel_y == tdiv(
                crate::trig::sin_milli_spec(angle as int) * scfg.speed, MILLI as int));
        }

        let spin = rng_range(rng, -METEOR_SPIN_MAX, METEOR_SPIN_MAX + 1);

        let radius = scale_radius(scfg.collision_radius, scfg.scale);

        MeteorBundle {
            behavior: MeteorBehavior { size, variant: variant_idx },
            viewport_bounded: ViewportBounded,
            collider: Collider { radius },
            sprite: sprite_idx,
            xform: Transform2 { x, y, rot: 0, scale: scfg.scale },
            kinematics: KinematicsBundle {
                velocity: Velocity { x: vel_x, y: vel_y },
                angular_velocity: AngularVelocity(spin),
                ..Default::default()
            },
        }
    }
}

/// The effective collision radius of a scaled sprite: the base radius times
/// the milli-scaled sprite scale.
fn scale_radius(base: i64, scale: i64) -> (r: i64)
    requires
        0 <= base <= 100_000_000_000,
        0 < scale <= 10_000,
    ensures
        r == tdiv(base * scale, MILLI as int),
        0 <= r <= RADIUS_MAX,
{
    proof {
        crate::units::lemma_mul_bound(base as int, scale as int,
            100_000_000_000, 10_000);
        assert(base * scale >= 0) by (nonlinear_arith)
            requires base >= 0, scale > 0;
        vstd::arithmetic::div_mod::lemma_div_is_ordered(
            base * scale, (100_000_000_000 * 10_000) as int, MILLI as int);
        vstd::arithmetic::div_mod::lemma_div_is_ordered(0, base * scale, MILLI as int);
    }
    crate::units::div_trunc(base * scale, MILLI)
}

} // verus!
