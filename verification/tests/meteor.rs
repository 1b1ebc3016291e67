//! The meteor hierarchy, splitting, the spawn wave, and the end-to-end
//! split scenario.

use stroids_core::collision::Collider;
use stroids_core::collision::CollisionPlugin;
use stroids_core::kinematics::KinematicsBundle;
use stroids_core::kinematics::Transform2;
use stroids_core::meteor::MeteorBehavior;
use stroids_core::meteor::MeteorBundle;
use stroids_core::meteor::MeteorConfig;
use stroids_core::meteor::MeteorSize;
use stroids_core::meteor::MeteorsConfig;
use stroids_core::meteor::MeteorState;
use stroids_core::meteor::MeteorVariant;
use stroids_core::meteor::SizedMeteorConfig;
use stroids_core::meteor::METEOR_SPIN_MAX;
use stroids_core::player::PlayerConfig;
use stroids_core::projectile::ProjectileComponent;
use stroids_core::projectile::ProjectilePlugin;
use stroids_core::projectile::ProjectileConfig;
use stroids_core::ship::ShipConfig;
use stroids_core::sounds::SoundId;
use stroids_core::viewport::ViewportBounds;
use stroids_core::world::Entity;
use stroids_core::world::Role;
use stroids_core::world::World;

fn sized(speed: i64) -> SizedMeteorConfig {
    SizedMeteorConfig {
        sprites: vec![0, 1, 2],
        speed,
        scale: 1_000,
        collision_radius: 40_000_000,
    }
}

fn meteors_config() -> MeteorsConfig {
    MeteorsConfig {
        variants: vec![
            MeteorVariant {
                name: String::from("grey"),
                sizes: MeteorConfig {
                    tiny: sized(400_000),
                    small: sized(300_000),
                    medium: sized(200_000),
                    large: sized(100_000),
                },
            },
            MeteorVariant {
                name: String::from("brown"),
                sizes: MeteorConfig {
                    tiny: sized(440_000),
                    small: sized(330_000),
                    medium: sized(220_000),
                    large: sized(110_000),
                },
            },
        ],
    }
}

fn projectile_config() -> ProjectileConfig {
    ProjectileConfig {
        sprite_id: 0,
        speed: 500_000,
        collision_radius: 5_000_000,
        scale: 1_000,
        lifetime: 800,
    }
}

fn bounds() -> ViewportBounds {
    ViewportBounds {
        min_x: -900_000_000,
        max_x: 900_000_000,
        min_y: -900_000_000,
        max_y: 900_000_000,
    }
}

fn meteor_entity(id: u64, size: MeteorSize, variant: usize, x: i64, y: i64) -> Entity {
    Entity {
        id,
        alive: true,
        xform: Transform2 { x, y, rot: 0, scale: 1_000 },
        kin: KinematicsBundle::default(),
        collider: Collider { radius: 40_000_000 },
        bounded: true,
        role: Role::Meteor(MeteorState {
            behavior: MeteorBehavior { size, variant },
            sprite: 0,
        }),
    }
}

fn projectile_entity(id: u64, x: i64, y: i64) -> Entity {
    Entity {
        id,
        alive: true,
        xform: Transform2 { x, y, rot: 0, scale: 1_000 },
        kin: KinematicsBundle::default(),
        collider: Collider { radius: 5_000_000 },
        bounded: true,
        role: Role::Projectile(ProjectileComponent { lifetime: 600 }),
    }
}

#[test]
fn size_hierarchy_descends_to_a_terminal_tier() {
    assert_eq!(MeteorSize::Large.smaller(), Some(MeteorSize::Medium));
    assert_eq!(MeteorSize::Medium.smaller(), Some(MeteorSize::Small));
    assert_eq!(MeteorSize::Small.smaller(), Some(MeteorSize::Tiny));
    assert_eq!(MeteorSize::Tiny.smaller(), None);
    // descending from the top reaches the bottom within three steps
    let mut size = MeteorSize::Large;
    let mut steps = 0;
    while let Some(next) = size.smaller() {
        size = next;
        steps += 1;
    }
    assert_eq!(size, MeteorSize::Tiny);
    assert_eq!(steps, 3);
}

#[test]
fn only_large_and_medium_split() {
    assert!(MeteorSize::Large.can_split());
    assert!(MeteorSize::Medium.can_split());
    assert!(!MeteorSize::Small.can_split());
    assert!(!MeteorSize::Tiny.can_split());
}

#[test]
fn default_size_is_large() {
    assert_eq!(MeteorSize::default(), MeteorSize::Large);
}

#[test]
fn default_sized_config_matches_the_documented_values() {
    let c = SizedMeteorConfig::default();
    assert!(c.sprites.is_empty());
    assert_eq!(c.speed, 0);
    assert_eq!(c.scale, 1_000);
    assert_eq!(c.collision_radius, 100_000_000);
}

#[test]
fn rolled_meteor_respects_its_tier_tuning() {
    let config = meteors_config();
    let mut rng = <rand::rngs::StdRng as rand::SeedableRng>::seed_from_u64(5);
    for _ in 0..32 {
        let b = MeteorBundle::new_random(
            &mut rng, MeteorSize::Medium, 1_000, -2_000, &config, Some(1));
        assert_eq!(b.behavior.size, MeteorSize::Medium);
        assert_eq!(b.behavior.variant, 1);
        assert!(b.sprite < 3);
        assert_eq!(b.xform.x, 1_000);
        assert_eq!(b.xform.y, -2_000);
        assert_eq!(b.collider.radius, 40_000_000);
        assert!(b.kinematics.velocity.x.abs() <= 220_000);
        assert!(b.kinematics.velocity.y.abs() <= 220_000);
        assert!(b.kinematics.angular_velocity.0.abs() <= METEOR_SPIN_MAX);
    }
}

#[test]
fn rolled_variant_stays_within_the_table() {
    let config = meteors_config();
    let mut rng = <rand::rngs::StdRng as rand::SeedableRng>::seed_from_u64(9);
    for _ in 0..32 {
        let b = MeteorBundle::new_random(
            &mut rng, MeteorSize::Large, 0, 0, &config, None);
        assert!(b.behavior.variant < 2);
    }
}

#[test]
fn spawn_wave_makes_four_large_meteors_outside_the_safe_zone() {
    let mut w = World::new(bounds(), meteors_config(), projectile_config(), 3);
    MeteorBundle::system_spawn(&mut w);
    assert_eq!(w.entities.len(), 4);
    for e in &w.entities {
        assert!(e.alive);
        match &e.role {
            Role::Meteor(m) => assert_eq!(m.behavior.size, MeteorSize::Large),
            _ => panic!("expected a meteor"),
        }
        let d2 = (e.xform.x as i128) * (e.xform.x as i128)
            + (e.xform.y as i128) * (e.xform.y as i128);
        assert!(d2 >= 300_000_000i128 * 300_000_000i128);
    }
}

#[test]
fn split_scenario_large_grey_meteor() {
    // one large "grey" meteor at (500, 500) units and a projectile that
    // reaches it
    let mut w = World::new(bounds(), meteors_config(), projectile_config(), 21);
    w.entities.push(meteor_entity(100, MeteorSize::Large, 0, 500_000_000, 500_000_000));
    w.entities.push(projectile_entity(101, 510_000_000, 500_000_000));
    MeteorBundle::system_handle_projectile_collision(&mut w);
    // the meteor and the projectile are gone
    assert!(!w.entities[0].alive);
    assert!(!w.entities[1].alive);
    // exactly two medium children of the same variant sit at the parent's
    // position, with bounded rolled velocities
    assert_eq!(w.entities.len(), 4);
    for child in &w.entities[2..] {
        assert!(child.alive);
        match &child.role {
            Role::Meteor(m) => {
                assert_eq!(m.behavior.size, MeteorSize::Medium);
                assert_eq!(m.behavior.variant, 0);
            }
            _ => panic!("expected a meteor child"),
        }
        assert_eq!(child.xform.x, 500_000_000);
        assert_eq!(child.xform.y, 500_000_000);
        assert!(child.kin.velocity.x.abs() <= 200_000);
        assert!(child.kin.velocity.y.abs() <= 200_000);
    }
    // the hit was audible
    assert_eq!(w.sounds, vec![SoundId::Explosion]);
}

#[test]
fn tiny_meteor_yields_no_children() {
    let mut w = World::new(bounds(), meteors_config(), projectile_config(), 21);
    w.entities.push(meteor_entity(100, MeteorSize::Tiny, 0, 0, 0));
    w.entities.push(projectile_entity(101, 1_000_000, 0));
    MeteorBundle::system_handle_projectile_collision(&mut w);
    assert!(!w.entities[0].alive);
    assert!(!w.entities[1].alive);
    assert_eq!(w.entities.len(), 2);
}

#[test]
fn missed_projectile_hits_nothing() {
    let mut w = World::new(bounds(), meteors_config(), projectile_config(), 21);
    w.entities.push(meteor_entity(100, MeteorSize::Large, 0, 500_000_000, 500_000_000));
    w.entities.push(projectile_entity(101, -500_000_000, -500_000_000));
    MeteorBundle::system_handle_projectile_collision(&mut w);
    assert!(w.entities[0].alive);
    assert!(w.entities[1].alive);
    assert_eq!(w.entities.len(), 2);
    assert!(w.sounds.is_empty());
}

#[test]
fn meteor_contact_destroys_the_player() {
    let ship = ShipConfig {
        thrust_factor: 400,
        turn_factor: 200,
        velocity_damping: 500,
        rotation_rate_damping: 500,
        sprite_id: 0,
        collision_radius: 30_000_000,
        shoot_cooldown: 500,
    };
    let mut w = World::new(bounds(), meteors_config(), projectile_config(), 21);
    w.spawn_player(&PlayerConfig { ship });
    w.entities.push(meteor_entity(100, MeteorSize::Large, 0, 50_000_000, 0));
    MeteorBundle::system_handle_player_collision(&mut w);
    assert!(!w.entities[0].alive, "the ship is destroyed");
    assert!(w.entities[1].alive, "the meteor survives");
    assert_eq!(w.sounds, vec![SoundId::Explosion]);
}

#[test]
fn projectiles_expire_on_their_own() {
    let mut w = World::new(bounds(), meteors_config(), projectile_config(), 21);
    w.entities.push(projectile_entity(7, 0, 0));
    ProjectilePlugin::system_lifetime(&mut w, 200);
    assert!(w.entities[0].alive);
    match &w.entities[0].role {
        Role::Projectile(p) => assert_eq!(p.lifetime, 400),
        _ => panic!("expected the projectile"),
    }
    ProjectilePlugin::system_lifetime(&mut w, 400);
    assert!(!w.entities[0].alive);
}

#[test]
fn a_tick_runs_all_phases() {
    let mut w = World::new(bounds(), meteors_config(), projectile_config(), 12);
    MeteorBundle::system_spawn(&mut w);
    let before: Vec<(i64, i64)> = w.entities.iter()
        .map(|e| (e.xform.x, e.xform.y)).collect();
    let events = Vec::new();
    for _ in 0..10 {
        w.tick(16, &events);
    }
    assert_eq!(w.entities.len(), 4);
    // drifting meteors moved, stayed alive, and stayed in bounds
    for (e, (bx, by)) in w.entities.iter().zip(before) {
        assert!(e.alive);
        let moved = e.xform.x != bx || e.xform.y != by;
        let at_rest = e.kin.velocity.x == 0 && e.kin.velocity.y == 0;
        assert!(moved || at_rest);
        assert!(e.xform.x >= -900_000_000 && e.xform.x < 900_000_000);
        assert!(e.xform.y >= -900_000_000 && e.xform.y < 900_000_000);
    }
}

#[test]
fn pair_scan_reports_each_overlapping_pair_once_in_order() {
    let mut w = World::new(bounds(), meteors_config(), projectile_config(), 21);
    w.entities.push(meteor_entity(0, MeteorSize::Large, 0, 0, 0));
    w.entities.push(meteor_entity(1, MeteorSize::Large, 0, 10_000_000, 0));
    w.entities.push(meteor_entity(2, MeteorSize::Large, 0, 500_000_000, 0));
    w.entities.push(projectile_entity(3, -10_000_000, 0));
    let pairs = CollisionPlugin::find_collisions(&w);
    let as_tuples: Vec<(usize, usize)> = pairs.iter().map(|p| (p.a, p.b)).collect();
    assert_eq!(as_tuples, vec![(0, 1), (0, 3), (1, 3)]);
}

#[test]
fn a_meteor_is_not_destroyed_twice() {
    // two projectiles overlap the same large meteor; the first hit destroys
    // the meteor and that projectile, the second projectile flies on
    let mut w = World::new(bounds(), meteors_config(), projectile_config(), 21);
    w.entities.push(meteor_entity(100, MeteorSize::Large, 0, 0, 0));
    w.entities.push(projectile_entity(101, 10_000_000, 0));
    w.entities.push(projectile_entity(102, -10_000_000, 0));
    MeteorBundle::system_handle_projectile_collision(&mut w);
    assert!(!w.entities[0].alive, "the meteor is destroyed once");
    assert!(!w.entities[1].alive, "the first projectile is spent");
    assert!(w.entities[2].alive, "the second projectile is not revisited");
    // exactly one split happened
    assert_eq!(w.entities.len(), 5);
    assert_eq!(w.sounds, vec![SoundId::Explosion]);
}
