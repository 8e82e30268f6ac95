use bevy::math::Vec3;
use gunplay::camera::{
    aim_down_sights, blend_factor_of, move_first_person_gun, position_and_rotate_camera,
    read_rotation_inputs_primary, switch_camera_perspective, target_player, update_camera,
    AimMode, AxisPair, CameraInput, CameraMode, CameraPerspective, Offset, PrimaryCamera,
};

const SECOND: u64 = 1_000_000_000;
const MILLI: u64 = 1_000_000;

#[test]
fn new_camera_looks_ahead_in_first_person() {
    let camera = PrimaryCamera::new(Vec3::ZERO);
    assert_eq!(camera.offset, Offset { x: -1000, y: 500, z: -6000 });
    assert_eq!(camera.x_angle, 0);
    assert_eq!(camera.y_angle, 0);
    assert_eq!(camera.target, Vec3::ZERO);
    assert_eq!(camera.mode, CameraMode::Shoot);
    assert_eq!(camera.perspective, CameraPerspective::FirstPerson);
    assert_eq!(camera.fov_degrees, 45_000);
    assert_eq!(AimMode::default(), AimMode::Hip);
}

#[test]
fn first_person_pitch_stays_within_87_degrees() {
    let mut camera = PrimaryCamera::new(Vec3::ZERO);
    for increase in [40_000, 40_000, 40_000, -10_000, i64::MAX, 1] {
        camera.adjust_x_angle(increase);
        assert!(camera.x_angle >= -87_000 && camera.x_angle <= 87_000);
    }
    assert_eq!(camera.x_angle, 87_000);
    camera.adjust_x_angle(-100_000);
    assert_eq!(camera.x_angle, -13_000);
    camera.adjust_x_angle(i64::MIN);
    assert_eq!(camera.x_angle, -87_000);
    camera.adjust_x_angle(-1);
    assert_eq!(camera.x_angle, -87_000);
}

#[test]
fn third_person_pitch_stays_between_minus_2_and_20_degrees() {
    let mut camera = PrimaryCamera::new(Vec3::ZERO);
    switch_camera_perspective(&mut camera, true);
    for increase in [5_000, 5_000, 50_000, -1, -30_000, -30_000, 1_500] {
        camera.adjust_x_angle(increase);
        assert!(camera.x_angle >= -2_000 && camera.x_angle <= 20_000);
    }
    assert_eq!(camera.x_angle, -500);
}

#[test]
fn camera_perspective_toggle() {
    let mut camera = PrimaryCamera::new(Vec3::ZERO);
    camera.adjust_x_angle(50_000);
    assert_eq!(camera.x_angle, 50_000);
    switch_camera_perspective(&mut camera, false);
    assert_eq!(camera.perspective, CameraPerspective::FirstPerson);
    switch_camera_perspective(&mut camera, true);
    assert_eq!(camera.perspective, CameraPerspective::ThirdPerson);
    // the pitch is untouched until the next clamp pass
    assert_eq!(camera.x_angle, 50_000);
    read_rotation_inputs_primary(&mut camera, None, None, 16 * MILLI);
    assert_eq!(camera.x_angle, 20_000);
    switch_camera_perspective(&mut camera, true);
    assert_eq!(camera.perspective, CameraPerspective::FirstPerson);
    assert_eq!(camera.x_angle, 20_000);
}

#[test]
fn yaw_adds_up_without_limit() {
    let mut camera = PrimaryCamera::new(Vec3::ZERO);
    camera.adjust_y_angle(350_000);
    camera.adjust_y_angle(350_000);
    assert_eq!(camera.y_angle, 700_000);
    camera.adjust_y_angle(-1_000_000);
    assert_eq!(camera.y_angle, -300_000);
    assert_eq!(camera.x_angle, 0);
}

#[test]
fn pointer_turns_the_camera_against_its_deflection() {
    let mut camera = PrimaryCamera::new(Vec3::ZERO);
    read_rotation_inputs_primary(&mut camera, Some(AxisPair { x: 1000, y: 2000 }), None, SECOND);
    assert_eq!(camera.x_angle, -30_000);
    assert_eq!(camera.y_angle, -15_000);
    read_rotation_inputs_primary(&mut camera, Some(AxisPair { x: -400, y: -400 }), None, SECOND / 2);
    assert_eq!(camera.x_angle, -27_000);
    assert_eq!(camera.y_angle, -12_000);
}

#[test]
fn stick_pitches_with_its_deflection_and_yaws_against_it() {
    let mut camera = PrimaryCamera::new(Vec3::ZERO);
    read_rotation_inputs_primary(&mut camera, None, Some(AxisPair { x: 500, y: -1000 }), SECOND / 2);
    assert_eq!(camera.x_angle, -45_000);
    assert_eq!(camera.y_angle, -45_000);
    read_rotation_inputs_primary(
        &mut camera,
        Some(AxisPair { x: 0, y: 1000 }),
        Some(AxisPair { x: 0, y: 1000 }),
        SECOND,
    );
    // the pointer takes 15 degrees off, the stick adds 90 and the limit cuts in
    assert_eq!(camera.x_angle, 30_000);
    assert_eq!(camera.y_angle, -45_000);
}

#[test]
fn pitch_is_clamped_after_each_source() {
    let mut camera = PrimaryCamera::new(Vec3::ZERO);
    camera.adjust_x_angle(-80_000);
    read_rotation_inputs_primary(
        &mut camera,
        Some(AxisPair { x: 0, y: 1000 }),
        Some(AxisPair { x: 0, y: 1000 }),
        SECOND,
    );
    // -80 - 15 stops at -87, then + 90
    assert_eq!(camera.x_angle, 3_000);
}

#[test]
fn turns_round_toward_zero() {
    let mut camera = PrimaryCamera::new(Vec3::ZERO);
    read_rotation_inputs_primary(&mut camera, Some(AxisPair { x: 1, y: -1 }), None, 100 * MILLI);
    // 15 * 1 * 0.1 = 1.5 thousandths of a degree
    assert_eq!(camera.x_angle, 1);
    assert_eq!(camera.y_angle, -1);
    read_rotation_inputs_primary(&mut camera, Some(AxisPair { x: 1, y: 1 }), None, 1);
    assert_eq!(camera.x_angle, 1);
    assert_eq!(camera.y_angle, -1);
}

#[test]
fn extreme_rotation_input_is_still_clamped() {
    let mut camera = PrimaryCamera::new(Vec3::ZERO);
    read_rotation_inputs_primary(
        &mut camera,
        Some(AxisPair { x: 0, y: i32::MIN }),
        Some(AxisPair { x: 0, y: i32::MIN }),
        u64::MAX,
    );
    assert_eq!(camera.x_angle, -87_000);
    assert_eq!(camera.y_angle, 0);
}

#[test]
fn camera_follows_its_target() {
    let mut camera = PrimaryCamera::new(Vec3::ZERO);
    target_player(&mut camera, Vec3::new(1.0, 2.0, 3.0));
    assert_eq!(camera.target, Vec3::new(1.0, 2.0, 3.0));
    camera.adjust_x_angle(12_000);
    camera.adjust_y_angle(-33_000);
    let first = position_and_rotate_camera(&camera, 10 * MILLI);
    assert_eq!(first.anchor, Vec3::new(1.0, 2.0, 3.0));
    assert_eq!(first.pitch, 12_000);
    assert_eq!(first.yaw, -33_000);
    assert_eq!(first.offset, Offset { x: 0, y: 500, z: 0 });
    assert_eq!(first.blend, 200_000);
    switch_camera_perspective(&mut camera, true);
    let third = position_and_rotate_camera(&camera, 100 * MILLI);
    assert_eq!(third.offset, Offset { x: -1000, y: 500, z: -6000 });
    assert_eq!(third.blend, 1_000_000);
}

#[test]
fn blend_factor_is_rate_times_time_and_at_most_one() {
    assert_eq!(blend_factor_of(20, 0), 0);
    assert_eq!(blend_factor_of(20, 16_666_667), 333_333);
    assert_eq!(blend_factor_of(30, 33_333_333), 999_999);
    assert_eq!(blend_factor_of(30, 33_333_334), 1_000_000);
    assert_eq!(blend_factor_of(u64::MAX, u64::MAX), 1_000_000);
}

#[test]
fn weapon_model_bobs_from_the_hip_and_rests_down_the_sights() {
    let hip = move_first_person_gun(AimMode::Hip, 0, 10 * MILLI);
    assert_eq!(hip.offset, Offset { x: 350, y: -300, z: 900 });
    assert_eq!(hip.blend, 300_000);
    assert_eq!(move_first_person_gun(AimMode::Hip, 1000, 0).offset.y, -275);
    assert_eq!(move_first_person_gun(AimMode::Hip, -1000, 0).offset.y, -325);
    assert_eq!(move_first_person_gun(AimMode::Hip, 500, 0).offset.y, -288);
    assert_eq!(move_first_person_gun(AimMode::Hip, -500, 0).offset.y, -312);
    let sights = move_first_person_gun(AimMode::Sights, 1000, SECOND);
    assert_eq!(sights.offset, Offset { x: 0, y: -200, z: 500 });
    assert_eq!(sights.blend, 1_000_000);
}

#[test]
fn field_of_view_nears_its_goal_and_never_passes_it() {
    let mut camera = PrimaryCamera::new(Vec3::ZERO);
    assert_eq!(aim_down_sights(&mut camera, true, 10 * MILLI), AimMode::Sights);
    assert_eq!(camera.fov_degrees, 37_500);
    assert_eq!(aim_down_sights(&mut camera, true, 10 * MILLI), AimMode::Sights);
    assert_eq!(camera.fov_degrees, 32_250);
    assert_eq!(aim_down_sights(&mut camera, false, 20 * MILLI), AimMode::Hip);
    assert_eq!(camera.fov_degrees, 39_900);
    // a frame long enough to overshoot stops at the goal
    assert_eq!(aim_down_sights(&mut camera, true, 40 * MILLI), AimMode::Sights);
    assert_eq!(camera.fov_degrees, 20_000);
    assert_eq!(aim_down_sights(&mut camera, true, u64::MAX), AimMode::Sights);
    assert_eq!(camera.fov_degrees, 20_000);
    assert_eq!(aim_down_sights(&mut camera, false, SECOND), AimMode::Hip);
    assert_eq!(camera.fov_degrees, 45_000);
    assert_eq!(aim_down_sights(&mut camera, false, 0), AimMode::Hip);
    assert_eq!(camera.fov_degrees, 45_000);
}

#[test]
fn a_frame_of_the_camera_runs_its_steps_in_order() {
    let mut camera = PrimaryCamera::new(Vec3::ZERO);
    let mut stance = AimMode::Hip;
    camera.adjust_x_angle(50_000);
    let input = CameraInput {
        pointer: Some(AxisPair { x: 1000, y: 0 }),
        stick: None,
        switch_perspective: true,
        aim: true,
        sway: 1000,
    };
    let subject = Vec3::new(4.0, 0.0, -2.0);
    let frame = update_camera(&mut camera, &mut stance, &input, Some(subject), 10 * MILLI)
        .expect("there is a subject to follow");
    // the pitch was clamped before the perspective changed
    assert_eq!(camera.x_angle, 50_000);
    assert_eq!(camera.y_angle, -150);
    assert_eq!(camera.perspective, CameraPerspective::ThirdPerson);
    assert_eq!(camera.target, subject);
    assert_eq!(camera.fov_degrees, 37_500);
    assert_eq!(stance, AimMode::Sights);
    assert_eq!(frame.placement.anchor, subject);
    assert_eq!(frame.placement.pitch, 50_000);
    assert_eq!(frame.placement.yaw, -150);
    assert_eq!(frame.placement.offset, Offset { x: -1000, y: 500, z: -6000 });
    assert_eq!(frame.placement.blend, 200_000);
    // the weapon model is placed as it was held on entering the frame
    assert_eq!(frame.view_model.offset, Offset { x: 350, y: -275, z: 900 });
    assert_eq!(frame.view_model.blend, 300_000);

    let idle = CameraInput { pointer: None, stick: None, switch_perspective: false, aim: true, sway: 0 };
    let frame = update_camera(&mut camera, &mut stance, &idle, Some(subject), 10 * MILLI).unwrap();
    // the next clamp pass brings the pitch into the third-person limits
    assert_eq!(camera.x_angle, 20_000);
    assert_eq!(frame.view_model.offset, Offset { x: 0, y: -200, z: 500 });

    let before = camera;
    assert!(update_camera(&mut camera, &mut stance, &input, None, 10 * MILLI).is_none());
    assert_eq!(camera, before);
    assert_eq!(stance, AimMode::Sights);
}
