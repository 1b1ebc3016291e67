//! Input mapping, last-press-wins control state, cooldown gating, and the
//! thrust scenario.

use stroids_core::input::InputAction;
use stroids_core::input::InputEvent;
use stroids_core::input::Key;
use stroids_core::input::KeyState;
use stroids_core::input::system_keyboard_input;
use stroids_core::kinematics::KinematicsPlugin;
use stroids_core::meteor::MeteorConfig;
use stroids_core::meteor::MeteorsConfig;
use stroids_core::meteor::MeteorVariant;
use stroids_core::meteor::SizedMeteorConfig;
use stroids_core::player::PlayerConfig;
use stroids_core::player::PlayerPlugin;
use stroids_core::player::PlayerInputMemory;
use stroids_core::player::system_handle_input;
use stroids_core::projectile::ProjectileConfig;
use stroids_core::ship::ShipConfig;
use stroids_core::ship::ShipControls;
use stroids_core::ship::ShipPlugin;
use stroids_core::units::HALF_PI_URAD;
use stroids_core::viewport::ViewportBounds;
use stroids_core::world::Role;
use stroids_core::world::World;

fn sized(speed: i64) -> SizedMeteorConfig {
    SizedMeteorConfig {
        sprites: vec![0, 1],
        speed,
        scale: 1_000,
        collision_radius: 40_000_000,
    }
}

fn meteors_config() -> MeteorsConfig {
    MeteorsConfig {
        variants: vec![MeteorVariant {
            name: String::from("grey"),
            sizes: MeteorConfig {
                tiny: sized(400_000),
                small: sized(300_000),
                medium: sized(200_000),
                large: sized(100_000),
            },
        }],
    }
}

fn projectile_config() -> ProjectileConfig {
    ProjectileConfig {
        sprite_id: 0,
        speed: 500_000,
        collision_radius: 5_000_000,
        scale: 1_000,
        lifetime: 800,
    }
}

fn bounds() -> ViewportBounds {
    ViewportBounds {
        min_x: -600_000_000,
        max_x: 600_000_000,
        min_y: -600_000_000,
        max_y: 600_000_000,
    }
}

fn ship_config() -> ShipConfig {
    ShipConfig {
        thrust_factor: 400,
        turn_factor: 200,
        velocity_damping: 500,
        rotation_rate_damping: 500,
        sprite_id: 0,
        collision_radius: 30_000_000,
        shoot_cooldown: 500,
    }
}

fn press(action: InputAction, scan_code: u32) -> InputEvent {
    InputEvent { action, state: KeyState::Pressed, scan_code }
}

fn release(action: InputAction, scan_code: u32) -> InputEvent {
    InputEvent { action, state: KeyState::Released, scan_code }
}

#[test]
fn keyboard_mapping_table() {
    let keys = vec![
        (Key::W, KeyState::Pressed, 17u32),
        (Key::S, KeyState::Pressed, 31u32),
        (Key::A, KeyState::Pressed, 30u32),
        (Key::D, KeyState::Released, 32u32),
        (Key::Space, KeyState::Pressed, 57u32),
        (Key::Other, KeyState::Pressed, 1u32),
    ];
    let events = system_keyboard_input(&keys);
    assert_eq!(events.len(), 5);
    assert_eq!(events[0].action, InputAction::Thrust(1_000));
    assert_eq!(events[1].action, InputAction::Thrust(-1_000));
    assert_eq!(events[2].action, InputAction::Turn(1_000));
    assert_eq!(events[3].action, InputAction::Turn(-1_000));
    assert_eq!(events[3].state, KeyState::Released);
    assert_eq!(events[4].action, InputAction::Shoot);
}

#[test]
fn last_press_wins_on_release() {
    let mut controls = ShipControls::default();
    let mut memory = PlayerInputMemory::default();
    // W pressed, then Up pressed: Up is the most recent presser
    let events = vec![
        press(InputAction::Thrust(1_000), 17),
        press(InputAction::Thrust(1_000), 103),
    ];
    system_handle_input(&mut controls, &mut memory, &events);
    assert_eq!(controls.thrust, 1_000);
    // releasing the stale key W changes nothing
    let events = vec![release(InputAction::Thrust(1_000), 17)];
    system_handle_input(&mut controls, &mut memory, &events);
    assert_eq!(controls.thrust, 1_000);
    // releasing the remembered key Up zeroes the axis
    let events = vec![release(InputAction::Thrust(1_000), 103)];
    system_handle_input(&mut controls, &mut memory, &events);
    assert_eq!(controls.thrust, 0);
}

#[test]
fn press_magnitudes_are_clamped() {
    let mut controls = ShipControls::default();
    let mut memory = PlayerInputMemory::default();
    let events = vec![press(InputAction::Turn(5_000), 30)];
    system_handle_input(&mut controls, &mut memory, &events);
    assert_eq!(controls.turn, 1_000);
    let events = vec![press(InputAction::Turn(-5_000), 32)];
    system_handle_input(&mut controls, &mut memory, &events);
    assert_eq!(controls.turn, -1_000);
}

#[test]
fn shoot_mirrors_press_state() {
    let mut controls = ShipControls::default();
    let mut memory = PlayerInputMemory::default();
    let events = vec![press(InputAction::Shoot, 57)];
    system_handle_input(&mut controls, &mut memory, &events);
    assert!(controls.shoot);
    let events = vec![release(InputAction::Shoot, 57)];
    system_handle_input(&mut controls, &mut memory, &events);
    assert!(!controls.shoot);
}

#[test]
fn firing_is_refused_while_cooldown_remains() {
    let mut w = World::new(bounds(), meteors_config(), projectile_config(), 11);
    w.spawn_player(&PlayerConfig { ship: ship_config() });
    // hold the fire control
    let events = vec![press(InputAction::Shoot, 57)];
    PlayerPlugin::system_handle_input(&mut w, &events);
    // the cooldown starts full, so no projectile may appear yet
    ShipPlugin::system_handle_controls(&mut w);
    assert_eq!(w.entities.len(), 1);
    match &w.entities[0].role {
        Role::Ship(s) => assert_eq!(s.cooldown.0, 500),
        _ => panic!("expected the ship"),
    }
}

#[test]
fn firing_after_cooldown_elapsed_resets_it() {
    let mut w = World::new(bounds(), meteors_config(), projectile_config(), 11);
    w.spawn_player(&PlayerConfig { ship: ship_config() });
    let events = vec![press(InputAction::Shoot, 57)];
    PlayerPlugin::system_handle_input(&mut w, &events);
    // let the full cooldown elapse
    ShipPlugin::system_shoot_cooldown(&mut w, 500);
    match &w.entities[0].role {
        Role::Ship(s) => assert_eq!(s.cooldown.0, 0),
        _ => panic!("expected the ship"),
    }
    ShipPlugin::system_handle_controls(&mut w);
    // one projectile appeared, and the cooldown was rewound in full
    assert_eq!(w.entities.len(), 2);
    match &w.entities[0].role {
        Role::Ship(s) => assert_eq!(s.cooldown.0, 500),
        _ => panic!("expected the ship"),
    }
    match &w.entities[1].role {
        Role::Projectile(p) => assert_eq!(p.lifetime, 800),
        _ => panic!("expected the projectile"),
    }
    // the projectile flies straight up along the resting heading
    assert_eq!(w.entities[1].kin.velocity.x, 0);
    assert_eq!(w.entities[1].kin.velocity.y, 500_000);
}

#[test]
fn cooldown_never_goes_negative() {
    let mut w = World::new(bounds(), meteors_config(), projectile_config(), 11);
    w.spawn_player(&PlayerConfig { ship: ship_config() });
    ShipPlugin::system_shoot_cooldown(&mut w, 60_000);
    match &w.entities[0].role {
        Role::Ship(s) => assert_eq!(s.cooldown.0, 0),
        _ => panic!("expected the ship"),
    }
}

#[test]
fn thrust_scenario_full_forward() {
    // thrust factor 400, at rest, heading straight up, one press of full
    // forward thrust, one tick of a tenth of a second
    let mut w = World::new(bounds(), meteors_config(), projectile_config(), 11);
    w.spawn_player(&PlayerConfig { ship: ship_config() });
    let events = vec![press(InputAction::Thrust(1_000), 17)];
    PlayerPlugin::system_handle_input(&mut w, &events);
    ShipPlugin::system_handle_controls(&mut w);
    // acceleration magnitude is exactly the thrust factor, straight up
    assert_eq!(w.entities[0].kin.acceleration.x, 0);
    assert_eq!(w.entities[0].kin.acceleration.y, 400);
    // velocity after integrating 100 ms: 40 units per second, straight up
    KinematicsPlugin::system_acceleration(&mut w, 100);
    assert_eq!(w.entities[0].kin.velocity.x, 0);
    assert_eq!(w.entities[0].kin.velocity.y, 40_000);
}

#[test]
fn each_firing_ship_spawns_exactly_one_projectile() {
    let mut w = World::new(bounds(), meteors_config(), projectile_config(), 11);
    w.spawn_player(&PlayerConfig { ship: ship_config() });
    w.spawn_player(&PlayerConfig { ship: ship_config() });
    let events = vec![press(InputAction::Shoot, 57)];
    PlayerPlugin::system_handle_input(&mut w, &events);
    ShipPlugin::system_shoot_cooldown(&mut w, 500);
    ShipPlugin::system_handle_controls(&mut w);
    assert_eq!(w.entities.len(), 4);
    let projectiles = w.entities.iter()
        .filter(|e| matches!(e.role, Role::Projectile(_)))
        .count();
    assert_eq!(projectiles, 2);
}

#[test]
fn projectiles_fly_along_the_ship_heading() {
    let mut w = World::new(bounds(), meteors_config(), projectile_config(), 11);
    w.spawn_player(&PlayerConfig { ship: ship_config() });
    // face left: a quarter turn counter-clockwise
    w.entities[0].xform.rot = HALF_PI_URAD;
    let events = vec![press(InputAction::Shoot, 57)];
    PlayerPlugin::system_handle_input(&mut w, &events);
    ShipPlugin::system_shoot_cooldown(&mut w, 500);
    ShipPlugin::system_handle_controls(&mut w);
    assert_eq!(w.entities.len(), 2);
    assert_eq!(w.entities[1].kin.velocity.x, -500_000);
    assert!(w.entities[1].kin.velocity.y.abs() <= 1_000);
    assert_eq!(w.entities[1].xform.rot, HALF_PI_URAD);
}
