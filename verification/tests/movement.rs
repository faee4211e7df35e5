use source_movement::controller::{
    controller_inputs, controller_movement, source_accelerate, source_air_movement,
    source_ground_movement, SourceMovement, AIR_ACCEL, FRICTION, GROUND_ACCEL, JUMP_SPEED,
    MAX_AIR_SPEED, MAX_GROUND_SPEED, SPRINT_FACTOR, TICK_DT,
};
use source_movement::fx::SCALE;
use source_movement::player::PlayerAction;
use source_movement::vec3::Vec3Fx;

fn zero() -> Vec3Fx {
    Vec3Fx::new(0, 0, 0)
}

fn forward_unit() -> Vec3Fx {
    Vec3Fx::new(0, 0, SCALE)
}

/// Default camera orientation: its local +z axis, so that "forward" is -z.
fn camera_default() -> Vec3Fx {
    Vec3Fx::new(0, 0, SCALE)
}

/// A camera turned to look along +z, so that "forward" is +z.
fn camera_facing_plus_z() -> Vec3Fx {
    Vec3Fx::new(0, 0, -SCALE)
}

fn state_with(pressed: &[PlayerAction], sprint_first: bool) -> SourceMovement {
    let mut s = SourceMovement::default();
    if sprint_first {
        let press = vec![PlayerAction::Sprint];
        controller_inputs(&mut s, &Vec::new(), &press, &Vec::new(), true);
    }
    let press: Vec<PlayerAction> = pressed.to_vec();
    controller_inputs(&mut s, &Vec::new(), &press, &Vec::new(), true);
    s
}

#[test]
fn ground_accelerate_from_rest_gains_064() {
    // accel * dt = 20.0 * 0.032 = 0.64, well under the 2.0 cap.
    let r = source_accelerate(forward_unit(), zero(), GROUND_ACCEL, MAX_GROUND_SPEED, TICK_DT);
    assert_eq!(r.x, 0);
    assert_eq!(r.y, 0);
    assert_eq!(r.z, 640_000);
}

#[test]
fn repeated_acceleration_clamps_at_the_cap() {
    let mut v = zero();
    let mut seen = Vec::new();
    for _ in 0..6 {
        v = source_accelerate(forward_unit(), v, GROUND_ACCEL, MAX_GROUND_SPEED, TICK_DT);
        seen.push(v.z);
    }
    // 0.64, 1.28, 1.92, then the clamp path trims the step to 0.08, then 0.
    assert_eq!(seen, vec![640_000, 1_280_000, 1_920_000, 2_000_000, 2_000_000, 2_000_000]);
}

#[test]
fn air_at_cap_gains_nothing() {
    let at_cap = Vec3Fx::new(0, 0, MAX_AIR_SPEED);
    let r = source_air_movement(forward_unit(), at_cap, AIR_ACCEL, MAX_AIR_SPEED, TICK_DT);
    assert_eq!(r.x, 0);
    assert_eq!(r.y, 0);
    assert_eq!(r.z, MAX_AIR_SPEED);
}

#[test]
fn airborne_tick_keeps_capped_speed_and_adds_gravity() {
    let s = state_with(&[PlayerAction::Forward], false);
    let eff = Vec3Fx::new(0, 0, MAX_AIR_SPEED);
    let out = controller_movement(&s, eff, false, camera_facing_plus_z());
    assert_eq!(out.translate_by.x, 0);
    assert_eq!(out.translate_by.y, -20_000);
    assert_eq!(out.translate_by.z, MAX_AIR_SPEED);
    // The constant positional nudge follows the world direction.
    assert_eq!(out.position_nudge.x, 0);
    assert_eq!(out.position_nudge.y, 0);
    assert_eq!(out.position_nudge.z, 333_333);
    assert_eq!(out.yaw, 0);
}

#[test]
fn friction_collapses_top_speed_in_one_tick() {
    // drop = 2.0 * 120 * 0.032 = 7.68 > 2.0, so the pre-step zeroes the
    // velocity before acceleration runs.
    let prev = Vec3Fx::new(0, 0, MAX_GROUND_SPEED);
    let r = source_ground_movement(
        forward_unit(),
        prev,
        FRICTION,
        GROUND_ACCEL,
        MAX_GROUND_SPEED,
        TICK_DT,
    );
    assert_eq!(r.z, 640_000);
    // With no intent at all the tick ends at rest.
    let rest = source_ground_movement(zero(), prev, FRICTION, GROUND_ACCEL, MAX_GROUND_SPEED,
        TICK_DT);
    assert_eq!(rest.x, 0);
    assert_eq!(rest.y, 0);
    assert_eq!(rest.z, 0);
}

#[test]
fn gentle_friction_decays_without_reversing() {
    // friction 10.0: drop = speed * 0.32, so one tick keeps 68 percent.
    let gentle: i64 = 10_000_000;
    let r = source_ground_movement(zero(), Vec3Fx::new(0, 0, SCALE), gentle, GROUND_ACCEL,
        MAX_GROUND_SPEED, TICK_DT);
    assert_eq!(r.z, 680_000);
    let r_neg = source_ground_movement(zero(), Vec3Fx::new(0, 0, -SCALE), gentle, GROUND_ACCEL,
        MAX_GROUND_SPEED, TICK_DT);
    assert_eq!(r_neg.z, -680_000);
}

#[test]
fn idle_grounded_ticks_never_go_negative() {
    let s = state_with(&[], false);
    let mut eff = Vec3Fx::new(300_000, 0, 400_000);
    for _ in 0..4 {
        let out = controller_movement(&s, eff, true, camera_default());
        assert!(out.translate_by.x >= 0 && out.translate_by.x <= eff.x);
        assert!(out.translate_by.z >= 0 && out.translate_by.z <= eff.z);
        eff = out.translate_by;
    }
    assert_eq!(eff.x, 0);
    assert_eq!(eff.z, 0);
}

#[test]
fn sprint_multiplies_the_grounded_result() {
    let s = state_with(&[PlayerAction::Forward, PlayerAction::Sprint], false);
    assert!(s.sprinting);
    let out = controller_movement(&s, zero(), true, camera_facing_plus_z());
    // 0.64 * 2.2 = 1.408.
    assert_eq!(out.translate_by.z, 1_408_000);
}

#[test]
fn no_sprint_no_multiplier() {
    let s = state_with(&[PlayerAction::Forward], false);
    let out = controller_movement(&s, zero(), true, camera_facing_plus_z());
    assert_eq!(out.translate_by.z, 640_000);
}

#[test]
fn sprint_does_not_touch_the_airborne_branch() {
    let sprinting = state_with(&[PlayerAction::Forward, PlayerAction::Sprint], false);
    let walking = state_with(&[PlayerAction::Forward], false);
    let eff = Vec3Fx::new(0, 0, 500_000);
    let out_sprinting = controller_movement(&sprinting, eff, false, camera_facing_plus_z());
    let out_walking = controller_movement(&walking, eff, false, camera_facing_plus_z());
    assert_eq!(out_sprinting.translate_by, out_walking.translate_by);
}

#[test]
fn jump_override_fires_when_grounded_and_fully_deflected() {
    let s = state_with(&[PlayerAction::Jump], false);
    assert_eq!(s.direction.y, SCALE);
    let out = controller_movement(&s, zero(), true, camera_default());
    assert_eq!(out.translate_by.y, JUMP_SPEED);
}

#[test]
fn jump_override_is_an_exact_equality_test() {
    // A vertical axis at 0.99 must not trigger the override.
    let mut s = SourceMovement::default();
    s.direction = Vec3Fx::new(0, 990_000, 0);
    let out = controller_movement(&s, zero(), true, camera_default());
    assert_ne!(out.translate_by.y, JUMP_SPEED);
    assert_eq!(out.translate_by.y, 0);
}

#[test]
fn jump_override_needs_the_grounded_flag() {
    let s = state_with(&[PlayerAction::Jump], false);
    let out = controller_movement(&s, zero(), false, camera_default());
    assert_eq!(out.translate_by.y, -20_000);
}

#[test]
fn yaw_passes_through_to_the_rotation() {
    let mut s = state_with(&[], false);
    s.input_state.yaw = 123_456;
    let out = controller_movement(&s, zero(), true, camera_default());
    assert_eq!(out.yaw, 123_456);
}

#[test]
fn default_camera_sends_forward_intent_toward_minus_z() {
    let s = state_with(&[PlayerAction::Forward], false);
    let out = controller_movement(&s, zero(), true, camera_default());
    assert_eq!(out.translate_by.z, -640_000);
    assert_eq!(out.position_nudge.z, -333_333);
}

#[test]
fn short_camera_vector_is_renormalized_before_use() {
    // A camera +z of length 0.5 pointing between +x and +z: its flattened
    // forward normalizes to (-0.6, 0, -0.8) and the tick accelerates by
    // 0.64 along it.
    let s = state_with(&[PlayerAction::Forward], false);
    let camera = Vec3Fx::new(300_000, 0, 400_000);
    let out = controller_movement(&s, zero(), true, camera);
    assert_eq!(out.translate_by, Vec3Fx::new(-384_000, 0, -512_000));
    assert_eq!(out.position_nudge, Vec3Fx::new(-200_000, 0, -266_666));
}

#[test]
fn vertical_camera_drops_the_intent() {
    // A camera looking straight down has no horizontal facing: the intent
    // is silently dropped and friction alone acts.
    let s = state_with(&[PlayerAction::Forward], false);
    let camera = Vec3Fx::new(0, SCALE, 0);
    let out = controller_movement(&s, Vec3Fx::new(0, 0, 500_000), true, camera);
    assert_eq!(out.translate_by, Vec3Fx::new(0, 0, 0));
    assert_eq!(out.position_nudge, Vec3Fx::new(0, 0, 0));
}

#[test]
fn sprint_factor_matches_its_constant() {
    assert_eq!(SPRINT_FACTOR, 2_200_000);
    assert_eq!(FRICTION, 120_000_000);
}
