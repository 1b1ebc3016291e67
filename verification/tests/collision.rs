//! Collision tests: symmetry, inclusive boundary, and the wrap constraint.

use stroids_core::collision::Collider;
use stroids_core::sounds::SoundsPlugin;
use stroids_core::splash::SplashPlugin;
use stroids_core::viewport::wrap_axis;
use stroids_core::viewport::ViewportBounds;
use stroids_core::viewport::ViewportConfig;

#[test]
fn collision_is_symmetric() {
    let small = Collider { radius: 4 };
    let big = Collider { radius: 11 };
    let cases: Vec<(i64, i64, i64, i64)> = vec![
        (0, 0, 10, 0),
        (5, -3, -2, 9),
        (1_000_000, 1_000_000, -1_000_000, -1_000_000),
    ];
    for (x1, y1, x2, y2) in cases {
        assert_eq!(
            Collider::is_collision(x1, y1, &small, x2, y2, &big),
            Collider::is_collision(x2, y2, &big, x1, y1, &small),
        );
    }
}

#[test]
fn zero_radius_at_same_center_collides() {
    let point = Collider { radius: 0 };
    assert!(Collider::is_collision(7, -9, &point, 7, -9, &point));
}

#[test]
fn boundary_distance_is_inclusive() {
    let a = Collider { radius: 4 };
    let b = Collider { radius: 6 };
    // centers exactly 10 apart, radii sum to 10: touching counts
    assert!(Collider::is_collision(0, 0, &a, 10, 0, &b));
    // one step further apart does not
    assert!(!Collider::is_collision(0, 0, &a, 11, 0, &b));
    let c = Collider { radius: 5 };
    // radii sum 9 against distance 10
    assert!(!Collider::is_collision(0, 0, &a, 10, 0, &c));
}

#[test]
fn wrap_keeps_inside_positions() {
    assert_eq!(wrap_axis(250, 0, 1_000), 250);
    assert_eq!(wrap_axis(-500, -500, 1_000), -500);
}

#[test]
fn wrap_is_idempotent() {
    let cases: Vec<i64> = vec![-2_500, -1, 0, 999, 1_000, 123_456_789];
    for p in cases {
        let once = wrap_axis(p, -500, 1_000);
        let twice = wrap_axis(once, -500, 1_000);
        assert_eq!(once, twice);
    }
}

#[test]
fn wrap_far_edge_to_near_edge() {
    // a position exactly on max lands on min
    assert_eq!(wrap_axis(500, -500, 1_000), -500);
    // far outside in the negative direction, more than one span away
    assert_eq!(wrap_axis(-2_500, 0, 1_000), 500);
}

#[test]
fn bounds_from_config_center_on_origin() {
    let config = ViewportConfig {
        title: String::from("test"),
        fit_canvas_to_parent: true,
        prevent_default_event_handling: true,
        resolution_x: 800,
        resolution_y: 600,
        background_color: String::from("080811"),
        camera_scale: 1_000,
        bounding_margin: 0,
    };
    let bounds = ViewportBounds::from_config(&config);
    // 800 pixels at unit scale: 800 units wide, in micro-units
    assert_eq!(bounds.min_x, -400_000_000);
    assert_eq!(bounds.max_x, 400_000_000);
    assert_eq!(bounds.min_y, -300_000_000);
    assert_eq!(bounds.max_y, 300_000_000);
}

#[test]
fn splash_listener_covers_larger_half_extent() {
    let bounds = ViewportBounds {
        min_x: -400,
        max_x: 400,
        min_y: -300,
        max_y: 300,
    };
    assert_eq!(SplashPlugin::splash_listener_radius(&bounds), 400);
}

#[test]
fn sound_button_sits_inside_top_left_corner() {
    let bounds = ViewportBounds {
        min_x: -400_000_000,
        max_x: 400_000_000,
        min_y: -300_000_000,
        max_y: 300_000_000,
    };
    let (x, y) = SoundsPlugin::sound_button_position(&bounds);
    assert_eq!(x, -250_000_000);
    assert_eq!(y, 150_000_000);
}
