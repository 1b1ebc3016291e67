//! The shell around the simulation: headings, click routing, loading
//! progress, the sound button, the splash screen and the configuration
//! split.

use stroids_core::app::AppState;
use stroids_core::config::Config;
use stroids_core::input::ClickListener;
use stroids_core::input::system_click_input;
use stroids_core::loading::AssetLoadState;
use stroids_core::loading::AssetsConfig;
use stroids_core::loading::system_loading_update;
use stroids_core::player::PlayerConfig;
use stroids_core::ship::ShipConfig;
use stroids_core::sounds::MouseButton;
use stroids_core::sounds::SoundsPlugin;
use stroids_core::splash::SplashPlugin;
use stroids_core::trig::cos_milli;
use stroids_core::trig::heading_milli;
use stroids_core::trig::sin_milli;
use stroids_core::units::HALF_PI_URAD;
use stroids_core::units::PI_URAD;
use stroids_core::viewport::ViewportConfig;

#[test]
fn resting_heading_points_straight_up() {
    assert_eq!(heading_milli(0), (0, 1_000));
}

#[test]
fn quarter_turn_heading_points_left() {
    let (hx, hy) = heading_milli(HALF_PI_URAD);
    assert_eq!(hx, -1_000);
    assert!(hy.abs() <= 2, "cosine of a quarter turn is nearly zero, got {hy}");
}

#[test]
fn sine_and_cosine_hit_the_axis_points() {
    assert_eq!(sin_milli(0), 0);
    assert_eq!(sin_milli(HALF_PI_URAD), 1_000);
    assert!(sin_milli(PI_URAD).abs() <= 2);
    assert_eq!(cos_milli(0), 1_000);
    assert!(cos_milli(HALF_PI_URAD).abs() <= 2);
    assert_eq!(cos_milli(PI_URAD), -1_000);
}

#[test]
fn sine_is_odd() {
    for a in [1_000i64, 250_000, HALF_PI_URAD, 2_000_000] {
        assert_eq!(sin_milli(-a), -sin_milli(a));
    }
}

#[test]
fn clicks_go_to_the_lowest_z_listeners() {
    let listeners = vec![
        ClickListener { x: 0, y: 0, z: 5, radius: 100 },
        ClickListener { x: 10, y: 0, z: -1, radius: 100 },
        ClickListener { x: 500, y: 500, z: -10, radius: 10 },
    ];
    // the cursor falls on the first two; only the lower z one is clicked
    let clicked = system_click_input(&listeners, 0, 0);
    assert_eq!(clicked, vec![1]);
}

#[test]
fn tied_z_listeners_are_all_clicked() {
    let listeners = vec![
        ClickListener { x: 0, y: 0, z: 3, radius: 100 },
        ClickListener { x: 10, y: 0, z: 3, radius: 100 },
        ClickListener { x: 0, y: 10, z: 9, radius: 100 },
    ];
    let clicked = system_click_input(&listeners, 5, 5);
    assert_eq!(clicked, vec![0, 1]);
}

#[test]
fn a_click_on_nothing_clicks_nothing() {
    let listeners = vec![ClickListener { x: 0, y: 0, z: 0, radius: 10 }];
    let clicked = system_click_input(&listeners, 100, 100);
    assert!(clicked.is_empty());
}

#[test]
fn loading_counts_and_advances_when_done() {
    let states = vec![AssetLoadState::Loaded, AssetLoadState::Loading];
    assert_eq!(system_loading_update(&states), (1, None));
    let states = vec![AssetLoadState::Loaded, AssetLoadState::Loaded];
    assert_eq!(system_loading_update(&states), (2, Some(AppState::Splash)));
    let states = Vec::new();
    assert_eq!(system_loading_update(&states), (0, Some(AppState::Splash)));
}

#[test]
fn sound_toggle_flips_once_per_left_press() {
    let clicks = vec![MouseButton::Left, MouseButton::Right, MouseButton::Left];
    assert!(SoundsPlugin::system_handle_sound_button_clicked(true, &clicks));
    let clicks = vec![MouseButton::Left];
    assert!(!SoundsPlugin::system_handle_sound_button_clicked(true, &clicks));
    assert!(SoundsPlugin::system_handle_sound_button_clicked(false, &clicks));
}

#[test]
fn volume_mirrors_the_flag() {
    assert_eq!(SoundsPlugin::system_update_sound_volume(true), 1_000);
    assert_eq!(SoundsPlugin::system_update_sound_volume(false), 0);
}

#[test]
fn button_icon_matches_the_flag() {
    assert_eq!(SoundsPlugin::get_sound_button_icon(true), "sound_on");
    assert_eq!(SoundsPlugin::get_sound_button_icon(false), "sound_off");
}

#[test]
fn any_splash_click_starts_the_game() {
    let clicks = vec![MouseButton::Left];
    assert_eq!(SplashPlugin::system_handle_click(&clicks), Some(AppState::InGame));
    let clicks = Vec::new();
    assert_eq!(SplashPlugin::system_handle_click(&clicks), None);
}

#[test]
fn default_app_state_is_preloading() {
    assert_eq!(AppState::default(), AppState::PreLoading);
}

#[test]
fn config_splits_into_its_parts() {
    let config = Config {
        assets: AssetsConfig {
            images: vec![(String::from("player"), String::from("ship.png"))],
            audio: vec![(String::from("music"), String::from("music.ogg"))],
        },
        player: PlayerConfig {
            ship: ShipConfig {
                thrust_factor: 400,
                turn_factor: 200,
                velocity_damping: 500,
                rotation_rate_damping: 500,
                sprite_id: 0,
                collision_radius: 30_000_000,
                shoot_cooldown: 500,
            },
        },
        viewport: ViewportConfig {
            title: String::from("Stroids"),
            fit_canvas_to_parent: true,
            prevent_default_event_handling: true,
            resolution_x: 800,
            resolution_y: 600,
            background_color: String::from("080811"),
            camera_scale: 1_000,
            bounding_margin: 200_000_000,
        },
    };
    let (assets, player, viewport) = config.system_handle_config_change();
    assert_eq!(assets.images[0].0, "player");
    assert_eq!(player.ship.thrust_factor, 400);
    assert_eq!(viewport.resolution_x, 800);
}
