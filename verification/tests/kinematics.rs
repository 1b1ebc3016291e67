//! Integration and damping behavior on concrete values.

use stroids_core::kinematics::advance_position;
use stroids_core::kinematics::advance_rotation;
use stroids_core::kinematics::advance_velocity;
use stroids_core::kinematics::damp_scalar;
use stroids_core::kinematics::KinematicsBundle;
use stroids_core::units::TAU_URAD;
use stroids_core::units::VEL_MAX;

#[test]
fn position_integration_is_exact() {
    // position_after == position_before + v * dt, exactly
    assert_eq!(advance_position(10, 5, 100), 510);
    assert_eq!(advance_position(0, -7, 3), -21);
    assert_eq!(advance_position(-1_000, 0, 60_000), -1_000);
    assert_eq!(advance_position(42, 13, 0), 42);
}

#[test]
fn velocity_integration_is_exact() {
    assert_eq!(advance_velocity(100, 4, 50), 300);
    assert_eq!(advance_velocity(-100, -4, 50), -300);
    assert_eq!(advance_velocity(5, 0, 60_000), 5);
}

#[test]
fn velocity_integration_saturates() {
    assert_eq!(advance_velocity(VEL_MAX, 1, 60_000), VEL_MAX);
    assert_eq!(advance_velocity(-VEL_MAX, -1, 60_000), -VEL_MAX);
}

#[test]
fn rotation_wraps_to_one_turn() {
    assert_eq!(advance_rotation(0, 2, 100), 200);
    // a full turn comes back to zero
    assert_eq!(advance_rotation(TAU_URAD - 5, 1, 5), 0);
    // negative spin wraps through zero
    assert_eq!(advance_rotation(3, -1, 5), TAU_URAD - 2);
}

#[test]
fn damping_exact_value() {
    // d = 0.5 per second, dt = 100 ms: multiplier 0.95
    assert_eq!(damp_scalar(1_000, 500, 100), 950);
    assert_eq!(damp_scalar(-1_000, 500, 100), -950);
    // no damping leaves the velocity alone
    assert_eq!(damp_scalar(123_456, 0, 60_000), 123_456);
}

#[test]
fn damping_never_grows_and_never_flips_sign() {
    let samples: Vec<(i64, i64, i64)> = vec![
        (1_000, 999, 1_000),
        (-1_000, 999, 1_000),
        (-3, 999, 1_000),
        (7, 1, 1),
        (0, 500, 500),
        (1_000_000_000, 999, 60_000),
        (-1_000_000_000, 999, 60_000),
    ];
    for (v, d, dt) in samples {
        let r = damp_scalar(v, d, dt);
        assert!(r.abs() <= v.abs(), "magnitude grew: {v} {d} {dt} -> {r}");
        assert!(r == 0 || r.signum() == v.signum(), "sign flipped: {v} {d} {dt} -> {r}");
    }
}

#[test]
fn damping_multiplier_clamps_at_zero_instead_of_reversing() {
    // d * dt far beyond one full scale: the entity stops, it does not
    // bounce backwards
    assert_eq!(damp_scalar(1_000, 999, 60_000), 0);
    assert_eq!(damp_scalar(-1_000, 999, 60_000), 0);
}

#[test]
fn default_bundle_is_at_rest() {
    let k = KinematicsBundle::default();
    assert_eq!(k.velocity.x, 0);
    assert_eq!(k.velocity.y, 0);
    assert_eq!(k.angular_velocity.0, 0);
    assert_eq!(k.acceleration.x, 0);
    assert_eq!(k.linear_damping.0, 0);
}
