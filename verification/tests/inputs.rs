use source_movement::controller::{
    controller_inputs, PointerDelta, SourceMovement, PITCH_LIMIT, SENS, TICK_RATE_MILLIS,
};
use source_movement::fx::SCALE;
use source_movement::player::PlayerAction;

fn fresh() -> SourceMovement {
    SourceMovement::default()
}

fn no_actions() -> Vec<PlayerAction> {
    Vec::new()
}

#[test]
fn default_state_is_idle_and_grounded() {
    let s = fresh();
    assert_eq!(s.velocity.x, 0);
    assert_eq!(s.velocity.y, 0);
    assert_eq!(s.velocity.z, 0);
    assert!(s.grounded);
    assert!(s.inputs.is_empty());
    assert_eq!(s.input_state.pitch, 0);
    assert_eq!(s.input_state.yaw, 0);
    assert_eq!(s.direction.x, 0);
    assert_eq!(s.direction.y, 0);
    assert_eq!(s.direction.z, 0);
    assert!(!s.sprinting);
    assert!(!s.primary_action);
}

#[test]
fn named_constants_expose_tick_and_sensitivity() {
    assert_eq!(TICK_RATE_MILLIS, 32);
    assert_eq!(SENS, 27_360);
    assert_eq!(SCALE, 1_000_000);
}

#[test]
fn one_pixel_moves_both_angles_by_one_step() {
    // 0.02736 degrees = 477 fixed-point microradians (truncated).
    let mut s = fresh();
    let deltas = vec![PointerDelta { dx: 1_000_000, dy: 1_000_000 }];
    controller_inputs(&mut s, &deltas, &no_actions(), &no_actions(), true);
    assert_eq!(s.input_state.yaw, -477);
    assert_eq!(s.input_state.pitch, -477);
}

#[test]
fn batch_of_samples_accumulates_in_order() {
    let mut s = fresh();
    let deltas = vec![
        PointerDelta { dx: 1_000_000, dy: 0 },
        PointerDelta { dx: 1_000_000, dy: 0 },
    ];
    controller_inputs(&mut s, &deltas, &no_actions(), &no_actions(), true);
    assert_eq!(s.input_state.yaw, -954);
    assert_eq!(s.input_state.pitch, 0);
}

#[test]
fn pitch_is_clamped_after_a_violent_swipe() {
    // Ten thousand pixels upward is nearly -4.8 radians before the clamp.
    let mut s = fresh();
    let deltas = vec![PointerDelta { dx: 0, dy: 10_000_000_000 }];
    controller_inputs(&mut s, &deltas, &no_actions(), &no_actions(), true);
    assert_eq!(s.input_state.pitch, -PITCH_LIMIT);

    let mut s2 = fresh();
    let deltas2 = vec![PointerDelta { dx: 0, dy: -10_000_000_000 }];
    controller_inputs(&mut s2, &deltas2, &no_actions(), &no_actions(), true);
    assert_eq!(s2.input_state.pitch, PITCH_LIMIT);
}

#[test]
fn yaw_is_never_clamped() {
    let mut s = fresh();
    let deltas = vec![PointerDelta { dx: 10_000_000_000, dy: 0 }];
    controller_inputs(&mut s, &deltas, &no_actions(), &no_actions(), true);
    // 10000 pixels are 273.6 degrees: about 4.775 radians, past the pitch
    // clamp but applied to yaw in full.
    assert_eq!(s.input_state.yaw, -4_775_140);
}

#[test]
fn uncaptured_pointer_skips_the_whole_step() {
    let mut s = fresh();
    let deltas = vec![PointerDelta { dx: 5_000_000, dy: 5_000_000 }];
    let pressed = vec![PlayerAction::Forward, PlayerAction::Sprint];
    controller_inputs(&mut s, &deltas, &pressed, &no_actions(), false);
    assert_eq!(s.input_state.pitch, 0);
    assert_eq!(s.input_state.yaw, 0);
    assert_eq!(s.direction.z, 0);
    assert!(!s.sprinting);
}

#[test]
fn direction_axes_follow_pressed_actions() {
    let mut s = fresh();
    let pressed = vec![PlayerAction::Forward, PlayerAction::Right];
    controller_inputs(&mut s, &Vec::new(), &pressed, &no_actions(), true);
    assert_eq!(s.direction.x, SCALE);
    assert_eq!(s.direction.y, 0);
    assert_eq!(s.direction.z, SCALE);
}

#[test]
fn opposed_axes_cancel() {
    let mut s = fresh();
    let pressed = vec![
        PlayerAction::Forward,
        PlayerAction::Back,
        PlayerAction::Left,
        PlayerAction::Right,
    ];
    controller_inputs(&mut s, &Vec::new(), &pressed, &no_actions(), true);
    assert_eq!(s.direction.x, 0);
    assert_eq!(s.direction.y, 0);
    assert_eq!(s.direction.z, 0);
}

#[test]
fn jump_is_a_direction_bit() {
    let mut s = fresh();
    let pressed = vec![PlayerAction::Jump];
    controller_inputs(&mut s, &Vec::new(), &pressed, &no_actions(), true);
    assert_eq!(s.direction.y, SCALE);
}

#[test]
fn direction_never_keeps_stale_bits() {
    let mut s = fresh();
    let pressed = vec![PlayerAction::Forward];
    controller_inputs(&mut s, &Vec::new(), &pressed, &no_actions(), true);
    assert_eq!(s.direction.z, SCALE);
    controller_inputs(&mut s, &Vec::new(), &no_actions(), &no_actions(), true);
    assert_eq!(s.direction.z, 0);
}

#[test]
fn sprint_latches_until_released() {
    let mut s = fresh();
    let pressed = vec![PlayerAction::Sprint];
    controller_inputs(&mut s, &Vec::new(), &pressed, &no_actions(), true);
    assert!(s.sprinting);
    // Still latched while nothing about sprint is reported.
    controller_inputs(&mut s, &Vec::new(), &no_actions(), &no_actions(), true);
    assert!(s.sprinting);
    let released = vec![PlayerAction::Sprint];
    controller_inputs(&mut s, &Vec::new(), &no_actions(), &released, true);
    assert!(!s.sprinting);
}

#[test]
fn sprint_release_wins_over_press() {
    let mut s = fresh();
    let pressed = vec![PlayerAction::Sprint];
    let released = vec![PlayerAction::Sprint];
    controller_inputs(&mut s, &Vec::new(), &pressed, &released, true);
    assert!(!s.sprinting);
}

#[test]
fn primary_action_is_not_a_direction() {
    let mut s = fresh();
    let pressed = vec![PlayerAction::PrimaryAction];
    controller_inputs(&mut s, &Vec::new(), &pressed, &no_actions(), true);
    assert_eq!(s.direction.x, 0);
    assert_eq!(s.direction.y, 0);
    assert_eq!(s.direction.z, 0);
    assert!(!s.primary_action);
}

#[test]
fn idle_ticks_leave_angles_unchanged() {
    let mut s = fresh();
    let deltas = vec![PointerDelta { dx: 1_000_000, dy: 2_000_000 }];
    controller_inputs(&mut s, &deltas, &no_actions(), &no_actions(), true);
    let pitch = s.input_state.pitch;
    let yaw = s.input_state.yaw;
    for _ in 0..5 {
        controller_inputs(&mut s, &Vec::new(), &no_actions(), &no_actions(), true);
    }
    assert_eq!(s.input_state.pitch, pitch);
    assert_eq!(s.input_state.yaw, yaw);
    assert_eq!(s.direction.x, 0);
    assert_eq!(s.direction.y, 0);
    assert_eq!(s.direction.z, 0);
}
