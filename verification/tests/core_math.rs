use first_person::entity::{Health, HealthBarFill};
use first_person::movement::{
    move_player, translate_player, Orientation, HALF_PI_URAD, PITCH_LIMIT_URAD, TAU_URAD,
};
use first_person::sensitivity::CameraSensitivity;
use first_person::units::isqrt_u128;
use first_person::view_model::update_health_bar;
use first_person::world_model::{change_fov, WorldModelCamera};

#[test]
fn default_sensitivity_is_three_and_two_thousandths() {
    let s = CameraSensitivity::default();
    assert_eq!(s.x, 3000);
    assert_eq!(s.y, 2000);
}

#[test]
fn no_mouse_motion_leaves_orientation_alone() {
    let mut o = Orientation { yaw_urad: 123, pitch_urad: -456 };
    move_player(&mut o, 0, 0, &CameraSensitivity::default());
    assert_eq!(o.yaw_urad, 123);
    assert_eq!(o.pitch_urad, -456);
}

#[test]
fn yaw_wraps_below_zero() {
    let mut o = Orientation::level();
    move_player(&mut o, 1, 0, &CameraSensitivity::default());
    assert_eq!(o.yaw_urad, TAU_URAD - 3000);
    assert_eq!(o.pitch_urad, 0);
}

#[test]
fn yaw_wraps_past_a_full_turn() {
    let mut o = Orientation::level();
    // A push of -3000 counts turns by 9_000_000 urad, more than a turn.
    move_player(&mut o, -3_000_000, 0, &CameraSensitivity::default());
    assert_eq!(o.yaw_urad, 9_000_000_000 % i64::from(TAU_URAD));
}

#[test]
fn pitch_clamps_short_of_straight_up_and_down() {
    let s = CameraSensitivity::default();
    let mut o = Orientation::level();
    move_player(&mut o, 0, -1_000_000, &s);
    assert_eq!(o.pitch_urad, PITCH_LIMIT_URAD);
    move_player(&mut o, 0, 2_000_000, &s);
    assert_eq!(o.pitch_urad, -PITCH_LIMIT_URAD);
    assert!(o.pitch_urad.abs() < HALF_PI_URAD);
}

#[test]
fn small_pitch_moves_are_exact() {
    let s = CameraSensitivity::default();
    let mut o = Orientation::level();
    move_player(&mut o, 0, 5, &s);
    assert_eq!(o.pitch_urad, -10_000);
    move_player(&mut o, 0, -7, &s);
    assert_eq!(o.pitch_urad, 4_000);
}

#[test]
fn forward_step_moves_point_three_units() {
    // Yaw zero: sine 0, cosine 1, forward is negative z.
    let mut pos = first_person::units::Vec3Fp { x: 0, y: 0, z: 0 };
    translate_player(&mut pos, 0, 1_000_000, true, false, false, false);
    assert_eq!((pos.x, pos.y, pos.z), (0, 0, -150_000_000));
}

#[test]
fn two_keys_add_full_steps() {
    let mut pos = first_person::units::Vec3Fp { x: 0, y: 0, z: 0 };
    translate_player(&mut pos, 0, 1_000_000, true, false, false, true);
    assert_eq!((pos.x, pos.y, pos.z), (150_000_000, 0, -150_000_000));
}

#[test]
fn strafe_keys_oppose_each_other() {
    let mut pos = first_person::units::Vec3Fp { x: 10, y: 20, z: 30 };
    translate_player(&mut pos, 0, 1_000_000, false, true, false, true);
    assert_eq!((pos.x, pos.y, pos.z), (10, 20, 30));
}

#[test]
fn fov_steps_one_degree_per_frame() {
    let mut camera = WorldModelCamera::new();
    assert_eq!(camera.fov_deg, 90);
    change_fov(&mut camera, true, false);
    assert_eq!(camera.fov_deg, 89);
    change_fov(&mut camera, false, true);
    assert_eq!(camera.fov_deg, 90);
    change_fov(&mut camera, true, true);
    assert_eq!(camera.fov_deg, 90);
}

#[test]
fn fov_never_leaves_its_range() {
    let mut camera = WorldModelCamera::new();
    for _ in 0..200 {
        change_fov(&mut camera, true, false);
        assert!((20..=160).contains(&camera.fov_deg));
    }
    assert_eq!(camera.fov_deg, 20);
    for _ in 0..500 {
        change_fov(&mut camera, false, true);
        assert!((20..=160).contains(&camera.fov_deg));
    }
    assert_eq!(camera.fov_deg, 160);
}

#[test]
fn health_bar_at_half_health() {
    let mut fill = HealthBarFill { scale_fp: 0, offset_ticks: 0 };
    update_health_bar(&Health { current: 5, max: 10 }, &mut fill);
    assert_eq!(fill.scale_fp, 500_000);
    assert_eq!(fill.offset_ticks, -50_000_000);
}

#[test]
fn health_bar_full_and_empty() {
    let mut fill = HealthBarFill { scale_fp: 0, offset_ticks: 0 };
    update_health_bar(&Health { current: 10, max: 10 }, &mut fill);
    assert_eq!((fill.scale_fp, fill.offset_ticks), (1_000_000, 0));
    update_health_bar(&Health { current: 0, max: 10 }, &mut fill);
    assert_eq!((fill.scale_fp, fill.offset_ticks), (0, -100_000_000));
}

#[test]
fn health_bar_clamps_outside_the_range() {
    let mut fill = HealthBarFill { scale_fp: 0, offset_ticks: 0 };
    update_health_bar(&Health { current: -3, max: 10 }, &mut fill);
    assert_eq!((fill.scale_fp, fill.offset_ticks), (0, -100_000_000));
    update_health_bar(&Health { current: 15, max: 10 }, &mut fill);
    assert_eq!((fill.scale_fp, fill.offset_ticks), (1_000_000, 0));
}

#[test]
fn health_bar_rounds_down() {
    let mut fill = HealthBarFill { scale_fp: 0, offset_ticks: 0 };
    update_health_bar(&Health { current: 1, max: 3 }, &mut fill);
    assert_eq!(fill.scale_fp, 333_333);
    assert_eq!(fill.offset_ticks, -66_666_700);
}

#[test]
fn player_rig_spawns_full_and_level() {
    let rig = first_person::view_model::spawn_view_model();
    assert_eq!((rig.health.current, rig.health.max), (10, 10));
    assert_eq!((rig.transform.x, rig.transform.y, rig.transform.z), (0, 500_000_000, 0));
    assert_eq!((rig.orientation.yaw_urad, rig.orientation.pitch_urad), (0, 0));
    assert_eq!((rig.sensitivity.x, rig.sensitivity.y), (3000, 2000));
    assert_eq!(rig.world_camera.fov_deg, 90);
    assert_eq!((rig.fill.scale_fp, rig.fill.offset_ticks), (1_000_000, 0));
}

#[test]
fn world_model_spawns_floor_and_two_cubes() {
    let bodies = first_person::world_model::spawn_world_model();
    assert_eq!(bodies.len(), 3);
    let floor = &bodies[0];
    assert_eq!(floor.friction_milli, Some(1000));
    assert_eq!(floor.collider_half_extents.x, 50_000_000_000);
    assert_eq!(floor.collider_half_extents.y, 500_000);
    let low = &bodies[1];
    assert_eq!((low.translation.x, low.translation.y, low.translation.z), (0, 125_000_000, -1_500_000_000));
    assert_eq!(low.friction_milli, None);
    let top = &bodies[2];
    assert_eq!((top.translation.x, top.translation.y, top.translation.z), (375_000_000, 875_000_000, 0));
}

#[test]
fn integer_square_roots_round_down() {
    assert_eq!(isqrt_u128(0), 0);
    assert_eq!(isqrt_u128(1), 1);
    assert_eq!(isqrt_u128(3), 1);
    assert_eq!(isqrt_u128(24), 4);
    assert_eq!(isqrt_u128(25), 5);
    assert_eq!(isqrt_u128(u128::from(u64::MAX) * u128::from(u64::MAX)), u64::MAX);
}
