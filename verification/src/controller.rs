//! The per-tick movement controller.
//!
//! Two stages run in strict order each simulation tick. Input aggregation
//! ([`controller_inputs`]) folds the pointer deltas accumulated since the
//! last tick into the view angles, rederives the movement-intent vector from
//! the currently pressed actions, and latches the sprint flag. Movement
//! integration ([`controller_movement`]) turns the intent, the previous
//! tick's effective displacement and the grounded flag into a new
//! displacement request, using source-engine-style friction and capped
//! acceleration.

use crate::fx::{clamp, clamp_s, div_tz, fmul, fmul_s, sat_add, sat_s, FX_MAX, SCALE};
use crate::player::{has_action, PlayerAction};
use crate::vec3::{bounded_s, zero_s, Vec3Fx, V3};
use vstd::prelude::*;

verus! {

/// Pointer sensitivity: degrees of view rotation per pixel of pointer
/// travel, in fixed point (0.02736 degrees per pixel).
pub const SENS: i64 = 27_360;

/// Radians per degree, in fixed point (truncated at the sixth decimal).
pub const RAD_PER_DEG: i64 = 17_453;

/// Fixed simulation tick, in milliseconds. Not configurable at runtime.
pub const TICK_RATE_MILLIS: i64 = 32;

/// The same tick, as a fixed-point fraction of a second (0.032).
pub const TICK_DT: i64 = 32_000;

/// Pitch is clamped to `[-PITCH_LIMIT, PITCH_LIMIT]` radians (1.5 in fixed
/// point).
pub const PITCH_LIMIT: i64 = 1_500_000;

/// Largest pointer-delta sample the aggregation accepts: thirty thousand
/// pixels, far beyond any real event, bounding the fixed-point products.
pub const DELTA_MAX: i64 = 30_000_000_000;

/// Accumulated view angles, in fixed-point radians. Yaw is never clamped
/// (its accumulation saturates only at the far ends of the `i64` range);
/// pitch is kept within [`PITCH_LIMIT`] by the aggregation step.
#[derive(Clone, Copy, Debug, PartialEq, Eq, Structural)]
pub struct InputState {
    pub pitch: i64,
    pub yaw: i64,
}

impl Default for InputState {
    /// Both angles start at zero.
    fn default() -> (r: InputState)
        ensures
            r.pitch == 0,
            r.yaw == 0,
    {
        InputState { pitch: 0, yaw: 0 }
    }
}

/// One raw pointer-motion sample: the pointer travel since the previous
/// sample, in fixed-point pixels.
#[derive(Clone, Copy, Debug, PartialEq, Eq, Structural)]
pub struct PointerDelta {
    pub dx: i64,
    pub dy: i64,
}

/// Per-actor movement state: the velocity proxy, the grounded flag reported
/// by the previous collision query, the accumulated view angles, the intent
/// vector recomputed every tick, and the sprint latch.
#[derive(Debug)]
pub struct SourceMovement {
    pub velocity: Vec3Fx,
    pub grounded: bool,
    pub inputs: Vec<PlayerAction>,
    pub input_state: InputState,
    pub direction: Vec3Fx,
    pub sprinting: bool,
    pub primary_action: bool,
}

impl SourceMovement {
    /// Well-formedness: pitch within its clamp and an intent vector whose
    /// axes are at most fully deflected. Constructors establish it and both
    /// controller stages preserve it.
    pub open spec fn wf(self) -> bool {
        &&& -PITCH_LIMIT <= self.input_state.pitch <= PITCH_LIMIT
        &&& bounded_s(self.direction.v3(), SCALE as int)
    }
}

impl Default for SourceMovement {
    /// A fresh actor: at rest, grounded, no inputs, centered view, not
    /// sprinting.
    fn default() -> (r: SourceMovement)
        ensures
            r.velocity.v3() == zero_s(),
            r.grounded == true,
            r.inputs@ =~= Seq::<PlayerAction>::empty(),
            r.input_state.pitch == 0,
            r.input_state.yaw == 0,
            r.direction.v3() == zero_s(),
            r.sprinting == false,
            r.primary_action == false,
            r.wf(),
    {
        SourceMovement {
            velocity: Vec3Fx { x: 0, y: 0, z: 0 },
            grounded: true,
            inputs: Vec::new(),
            input_state: InputState { pitch: 0, yaw: 0 },
            direction: Vec3Fx { x: 0, y: 0, z: 0 },
            sprinting: false,
            primary_action: false,
        }
    }
}

/// The view-angle change of one pointer sample: the sample scaled by the
/// sensitivity, then converted from degrees to radians.
pub open spec fn angle_step_s(d: int) -> int {
    fmul_s(fmul_s(SENS as int, d), RAD_PER_DEG as int)
}

/// Yaw after folding a batch of pointer samples, oldest first: each sample's
/// angle is subtracted (pointer right turns the view right).
pub open spec fn yaw_after_s(y0: int, ds: Seq<PointerDelta>) -> int
    decreases ds.len(),
{
    if ds.len() == 0 {
        y0
    } else {
        sat_s(yaw_after_s(y0, ds.drop_last()) - angle_step_s(ds.last().dx as int))
    }
}

/// Pitch after folding a batch of pointer samples, before the final clamp.
pub open spec fn pitch_raw_after_s(p0: int, ds: Seq<PointerDelta>) -> int
    decreases ds.len(),
{
    if ds.len() == 0 {
        p0
    } else {
        sat_s(pitch_raw_after_s(p0, ds.drop_last()) - angle_step_s(ds.last().dy as int))
    }
}

/// Pitch after a batch: the raw accumulation clamped into its limits. The
/// clamp runs once, after the whole batch, as the controller does.
pub open spec fn pitch_after_s(p0: int, ds: Seq<PointerDelta>) -> int {
    clamp_s(pitch_raw_after_s(p0, ds), -PITCH_LIMIT as int, PITCH_LIMIT as int)
}

/// The intent vector derived from the pressed actions: one fixed-point unit
/// per fully deflected axis (forward +z, back -z, left -x, right +x, jump
/// +y). Sprint is a modifier, not an axis.
pub open spec fn direction_from_s(pressed: Seq<PlayerAction>) -> V3 {
    V3 {
        x: (if pressed.contains(PlayerAction::Right) {
            SCALE as int
        } else {
            0
        }) - (if pressed.contains(PlayerAction::Left) {
            SCALE as int
        } else {
            0
        }),
        y: if pressed.contains(PlayerAction::Jump) {
            SCALE as int
        } else {
            0
        },
        z: (if pressed.contains(PlayerAction::Forward) {
            SCALE as int
        } else {
            0
        }) - (if pressed.contains(PlayerAction::Back) {
            SCALE as int
        } else {
            0
        }),
    }
}

/// The sprint latch after one aggregation step: a pressed sprint action sets
/// it, a just-released sprint action clears it (release wins when both
/// appear), otherwise it keeps its previous value.
pub open spec fn sprint_after_s(
    prev: bool,
    pressed: Seq<PlayerAction>,
    released: Seq<PlayerAction>,
) -> bool {
    if released.contains(PlayerAction::Sprint) {
        false
    } else if pressed.contains(PlayerAction::Sprint) {
        true
    } else {
        prev
    }
}

/// Every sample of the batch is within the accepted pointer range.
pub open spec fn deltas_bounded_s(ds: Seq<PointerDelta>) -> bool {
    forall|i: int|
        0 <= i < ds.len() ==> (-DELTA_MAX <= #[trigger] ds[i].dx <= DELTA_MAX && -DELTA_MAX
            <= ds[i].dy <= DELTA_MAX)
}

/// One pointer sample's angle step stays well inside the saturation range.
proof fn lemma_angle_step_bound(d: int)
    requires
        -DELTA_MAX <= d <= DELTA_MAX,
    ensures
        -20_000_000 <= angle_step_s(d) <= 20_000_000,
{
    crate::vec3::lemma_fmul_s_bound(SENS as int, d, SENS as int, DELTA_MAX as int);
    crate::vec3::lemma_fmul_s_bound(
        fmul_s(SENS as int, d),
        RAD_PER_DEG as int,
        820_800_000,
        RAD_PER_DEG as int,
    );
}

/// Input aggregation. When the pointer is captured, folds the batch of
/// pointer samples into the view angles (clamping pitch once at the end),
/// rederives the intent vector from the pressed actions, and updates the
/// sprint latch from the press and release edges. When the pointer is not
/// captured, the whole step is skipped and the state is untouched. Never
/// fails; touches nothing but the view angles, intent and sprint latch.
pub fn controller_inputs(
    state: &mut SourceMovement,
    pointer_deltas: &Vec<PointerDelta>,
    pressed: &Vec<PlayerAction>,
    just_released: &Vec<PlayerAction>,
    pointer_captured: bool,
)
    requires
        old(state).wf(),
        deltas_bounded_s(pointer_deltas@),
    ensures
        final(state).wf(),
        !pointer_captured ==> *final(state) == *old(state),
        pointer_captured ==> final(state).input_state.yaw == yaw_after_s(
            old(state).input_state.yaw as int,
            pointer_deltas@,
        ),
        pointer_captured ==> final(state).input_state.pitch == pitch_after_s(
            old(state).input_state.pitch as int,
            pointer_deltas@,
        ),
        pointer_captured ==> final(state).direction.v3() == direction_from_s(pressed@),
        pointer_captured ==> final(state).sprinting == sprint_after_s(
            old(state).sprinting,
            pressed@,
            just_released@,
        ),
        final(state).velocity == old(state).velocity,
        final(state).grounded == old(state).grounded,
        final(state).inputs == old(state).inputs,
        final(state).primary_action == old(state).primary_action,
{
    if !pointer_captured {
        return ;
    }
    let ghost y0 = state.input_state.yaw as int;
    let ghost p0 = state.input_state.pitch as int;
    let ghost ds = pointer_deltas@;
    let mut yaw = state.input_state.yaw;
    let mut pitch = state.input_state.pitch;
    let mut i: usize = 0;
    while i < pointer_deltas.len()
        invariant
            i <= ds.len(),
            ds == pointer_deltas@,
            deltas_bounded_s(ds),
            yaw == yaw_after_s(y0, ds.take(i as int)),
            pitch == pitch_raw_after_s(p0, ds.take(i as int)),
        decreases ds.len() - i,
    {
        let d = pointer_deltas[i];
        proof {
            crate::vec3::lemma_fmul_s_bound(SENS as int, d.dx as int, SENS as int, DELTA_MAX as int);
            crate::vec3::lemma_fmul_s_bound(SENS as int, d.dy as int, SENS as int, DELTA_MAX as int);
            lemma_angle_step_bound(d.dx as int);
            lemma_angle_step_bound(d.dy as int);
        }
        let yaw_step = fmul(fmul(SENS, d.dx), RAD_PER_DEG);
        let pitch_step = fmul(fmul(SENS, d.dy), RAD_PER_DEG);
        yaw = sat_add(yaw, -yaw_step);
        pitch = sat_add(pitch, -pitch_step);
        proof {
            assert(ds.take(i as int + 1).drop_last() =~= ds.take(i as int));
            assert(ds.take(i as int + 1).last() == ds[i as int]);
        }
        i += 1;
    }
    proof {
        assert(ds.take(ds.len() as int) =~= ds);
    }
    state.input_state.yaw = yaw;
    state.input_state.pitch = clamp(pitch, -PITCH_LIMIT, PITCH_LIMIT);

    let right = has_action(pressed, PlayerAction::Right);
    let left = has_action(pressed, PlayerAction::Left);
    let forward = has_action(pressed, PlayerAction::Forward);
    let back = has_action(pressed, PlayerAction::Back);
    let jump = has_action(pressed, PlayerAction::Jump);
    state.direction = Vec3Fx {
        x: (if right {
            SCALE
        } else {
            0
        }) - (if left {
            SCALE
        } else {
            0
        }),
        y: if jump {
            SCALE
        } else {
            0
        },
        z: (if forward {
            SCALE
        } else {
            0
        }) - (if back {
            SCALE
        } else {
            0
        }),
    };
    if has_action(pressed, PlayerAction::Sprint) {
        state.sprinting = true;
    }
    if has_action(just_released, PlayerAction::Sprint) {
        state.sprinting = false;
    }
}

/// Friction coefficient applied while grounded (120.0).
pub const FRICTION: i64 = 120_000_000;

/// Largest friction coefficient the fixed-point pre-step accepts (500.0).
pub const FRICTION_MAX: i64 = 500_000_000;

/// Ground acceleration rate (20.0 units per second per second).
pub const GROUND_ACCEL: i64 = 20_000_000;

/// Speed cap along the intent direction while grounded (2.0).
pub const MAX_GROUND_SPEED: i64 = 2_000_000;

/// Air acceleration rate (0.5).
pub const AIR_ACCEL: i64 = 500_000;

/// Speed cap along the intent direction while airborne (1.5).
pub const MAX_AIR_SPEED: i64 = 1_500_000;

/// Constant downward bias added every airborne tick (0.02), a gravity pull
/// separate from the capped acceleration model.
pub const GRAVITY_STEP: i64 = 20_000;

/// Velocity multiplier while sprinting on the ground (2.2).
pub const SPRINT_FACTOR: i64 = 2_200_000;

/// Vertical speed forced by a grounded jump (0.95): an override, not an
/// addition.
pub const JUMP_SPEED: i64 = 950_000;

/// Divisor of the constant positional nudge applied along the intent
/// direction every tick.
pub const NUDGE_DIV: i64 = 3;

/// The acceleration increment along the intent direction: the rate times the
/// tick, clamped so that the already-aligned velocity component never ends
/// above `max` (and is pulled back to `max` when it already exceeds it).
pub open spec fn accel_delta_s(dir: V3, prev: V3, acc: int, max: int, dt: int) -> int {
    let p = crate::vec3::dot_s(prev, dir);
    let d0 = fmul_s(acc, dt);
    if p + d0 > max {
        max - p
    } else {
        d0
    }
}

/// The shared acceleration primitive: the previous velocity plus the intent
/// direction scaled by the clamped increment. Components perpendicular to
/// the intent are untouched.
pub open spec fn accelerate_s(dir: V3, prev: V3, acc: int, max: int, dt: int) -> V3 {
    crate::vec3::add_s(prev, crate::vec3::scale_s(dir, accel_delta_s(dir, prev, acc, max, dt)))
}

/// The grounded friction pre-step: a vector at rest is untouched; otherwise
/// the velocity is scaled by `max(speed - speed*friction*dt, 0) / speed`,
/// decaying toward zero and never reversing direction.
pub open spec fn friction_s(prev: V3, friction: int, dt: int) -> V3 {
    let speed = crate::vec3::speed_s(prev);
    if speed == 0 {
        prev
    } else {
        let decay = fmul_s(fmul_s(speed, friction), dt);
        let m = if speed - decay > 0 {
            speed - decay
        } else {
            0
        };
        V3 {
            x: div_tz(prev.x * m, speed),
            y: div_tz(prev.y * m, speed),
            z: div_tz(prev.z * m, speed),
        }
    }
}

/// Grounded movement: friction first, then the shared acceleration
/// primitive.
pub open spec fn ground_move_s(dir: V3, prev: V3, friction: int, acc: int, max: int, dt: int) -> V3 {
    accelerate_s(dir, friction_s(prev, friction, dt), acc, max, dt)
}

/// The world-space movement direction: the camera's forward and right
/// vectors are flattened onto the horizontal plane and normalized, weighted
/// by the intent axes, combined and normalized again; a degenerate facing
/// (camera looking straight up or down) or a zero intent yields the zero
/// vector, silently dropping the movement intent for the tick.
pub open spec fn world_direction_s(intent: V3, local_z: V3) -> V3 {
    let fwd = crate::vec3::norm_s(V3 { x: -local_z.x, y: 0, z: -local_z.z });
    let right = crate::vec3::norm_s(V3 { x: local_z.z, y: 0, z: -local_z.x });
    crate::vec3::norm_s(
        crate::vec3::add_s(
            crate::vec3::scale_s(fwd, intent.z),
            crate::vec3::scale_s(right, intent.x),
        ),
    )
}

/// The new velocity of one tick: the grounded branch applies friction,
/// capped ground acceleration, the sprint multiplier and the jump override;
/// the airborne branch applies capped air acceleration and the constant
/// gravity step. The jump override fires only on an exactly fully deflected
/// jump axis, and only when grounded.
pub open spec fn new_velocity_s(wd: V3, prev: V3, grounded: bool, sprinting: bool, intent: V3) -> V3 {
    if grounded {
        let g = ground_move_s(
            wd,
            prev,
            FRICTION as int,
            GROUND_ACCEL as int,
            MAX_GROUND_SPEED as int,
            TICK_DT as int,
        );
        let sv = if sprinting {
            crate::vec3::scale_s(g, SPRINT_FACTOR as int)
        } else {
            g
        };
        if intent.y == SCALE as int {
            V3 { x: sv.x, y: JUMP_SPEED as int, z: sv.z }
        } else {
            sv
        }
    } else {
        let a = accelerate_s(wd, prev, AIR_ACCEL as int, MAX_AIR_SPEED as int, TICK_DT as int);
        V3 { x: a.x, y: a.y - GRAVITY_STEP as int, z: a.z }
    }
}

/// The constant positional nudge: the world direction divided by
/// [`NUDGE_DIV`], truncated toward zero.
pub open spec fn nudge_s(wd: V3) -> V3 {
    V3 {
        x: div_tz(wd.x, NUDGE_DIV as int),
        y: div_tz(wd.y, NUDGE_DIV as int),
        z: div_tz(wd.z, NUDGE_DIV as int),
    }
}

/// What one integration tick asks of the outside world: the displacement
/// request handed to the collision sweep, the constant positional nudge
/// applied directly to the body, and the yaw the body is rotated to.
#[derive(Clone, Copy, Debug, PartialEq, Eq, Structural)]
pub struct MovementOutput {
    pub translate_by: Vec3Fx,
    pub position_nudge: Vec3Fx,
    pub yaw: i64,
}

/// The shared acceleration primitive. Projects the previous velocity onto
/// the intent direction, clamps the acceleration increment so the aligned
/// component never passes `max_velocity`, and adds the scaled direction.
pub fn source_accelerate(
    unit_direction: Vec3Fx,
    previous_velocity: Vec3Fx,
    accelerate: i64,
    max_velocity: i64,
    dt: i64,
) -> (r: Vec3Fx)
    requires
        bounded_s(unit_direction.v3(), SCALE as int),
        bounded_s(previous_velocity.v3(), crate::vec3::VEC_MAX as int),
        0 <= accelerate <= FX_MAX,
        0 <= dt <= SCALE,
        fmul_s(accelerate as int, dt as int) <= crate::vec3::VEC_MAX as int,
        0 <= max_velocity <= crate::vec3::VEC_MAX,
    ensures
        r.v3() == accelerate_s(
            unit_direction.v3(),
            previous_velocity.v3(),
            accelerate as int,
            max_velocity as int,
            dt as int,
        ),
        bounded_s(r.v3(), 6 * crate::vec3::VEC_MAX as int),
{
    let ghost vmax = crate::vec3::VEC_MAX as int;
    proof {
        crate::vec3::lemma_dot_unit_bound(previous_velocity.v3(), unit_direction.v3(), vmax);
        crate::fx::lemma_fmul_s_nonneg(accelerate as int, dt as int);
    }
    let projected = crate::vec3::dot(previous_velocity, unit_direction);
    let acceleration_velocity = fmul(accelerate, dt);
    let delta = if projected + acceleration_velocity > max_velocity {
        max_velocity - projected
    } else {
        acceleration_velocity
    };
    proof {
        crate::vec3::lemma_scale_unit_bound(unit_direction.v3(), delta as int, 5 * vmax);
    }
    let scaled = crate::vec3::vscale(unit_direction, delta);
    crate::vec3::vadd(previous_velocity, scaled)
}

/// Grounded movement: the friction pre-step (guarded against a zero speed),
/// then the shared acceleration primitive.
pub fn source_ground_movement(
    unit_direction: Vec3Fx,
    previous_velocity: Vec3Fx,
    friction: i64,
    ground_accelerate: i64,
    max_ground_velocity: i64,
    dt: i64,
) -> (r: Vec3Fx)
    requires
        bounded_s(unit_direction.v3(), SCALE as int),
        bounded_s(previous_velocity.v3(), crate::vec3::VEC_MAX as int),
        0 <= friction <= FRICTION_MAX,
        0 <= ground_accelerate <= FX_MAX,
        0 <= dt <= SCALE,
        fmul_s(ground_accelerate as int, dt as int) <= crate::vec3::VEC_MAX as int,
        0 <= max_ground_velocity <= crate::vec3::VEC_MAX,
    ensures
        r.v3() == ground_move_s(
            unit_direction.v3(),
            previous_velocity.v3(),
            friction as int,
            ground_accelerate as int,
            max_ground_velocity as int,
            dt as int,
        ),
        bounded_s(r.v3(), 6 * crate::vec3::VEC_MAX as int),
{
    let ghost vmax = crate::vec3::VEC_MAX as int;
    let speed = crate::vec3::length(previous_velocity);
    proof {
        crate::vec3::lemma_len_bound(previous_velocity.v3(), vmax);
    }
    let slowed = if speed != 0 {
        proof {
            crate::vec3::lemma_fmul_s_bound(
                speed as int,
                friction as int,
                2 * vmax,
                FRICTION_MAX as int,
            );
            crate::fx::lemma_fmul_s_nonneg(speed as int, friction as int);
            crate::vec3::lemma_fmul_s_bound(
                fmul_s(speed as int, friction as int),
                dt as int,
                FX_MAX as int,
                SCALE as int,
            );
            crate::fx::lemma_fmul_s_nonneg(fmul_s(speed as int, friction as int), dt as int);
        }
        let decay = fmul(fmul(speed, friction), dt);
        let m = if speed - decay > 0 {
            speed - decay
        } else {
            0
        };
        Vec3Fx {
            x: crate::fx::muldiv(previous_velocity.x, m, speed),
            y: crate::fx::muldiv(previous_velocity.y, m, speed),
            z: crate::fx::muldiv(previous_velocity.z, m, speed),
        }
    } else {
        previous_velocity
    };
    source_accelerate(unit_direction, slowed, ground_accelerate, max_ground_velocity, dt)
}

/// Airborne movement: the shared acceleration primitive with the air cap;
/// the gravity bias is added by the caller, outside the primitive.
pub fn source_air_movement(
    unit_direction: Vec3Fx,
    previous_velocity: Vec3Fx,
    air_acceleration: i64,
    max_air_velocity: i64,
    dt: i64,
) -> (r: Vec3Fx)
    requires
        bounded_s(unit_direction.v3(), SCALE as int),
        bounded_s(previous_velocity.v3(), crate::vec3::VEC_MAX as int),
        0 <= air_acceleration <= FX_MAX,
        0 <= dt <= SCALE,
        fmul_s(air_acceleration as int, dt as int) <= crate::vec3::VEC_MAX as int,
        0 <= max_air_velocity <= crate::vec3::VEC_MAX,
    ensures
        r.v3() == accelerate_s(
            unit_direction.v3(),
            previous_velocity.v3(),
            air_acceleration as int,
            max_air_velocity as int,
            dt as int,
        ),
        bounded_s(r.v3(), 6 * crate::vec3::VEC_MAX as int),
{
    source_accelerate(unit_direction, previous_velocity, air_acceleration, max_air_velocity, dt)
}

/// Movement integration, run once per fixed tick. Converts the intent into a
/// world-space direction using the camera's horizontal facing, applies the
/// grounded or airborne acceleration model (selected solely by the previous
/// tick's grounded flag), the sprint multiplier, and the jump override, and
/// returns the displacement request, the constant positional nudge, and the
/// absolute yaw for the body's rotation. Never fails: degenerate directions
/// and a zero speed degrade to "no change".
pub fn controller_movement(
    state: &SourceMovement,
    effective_translation: Vec3Fx,
    grounded: bool,
    camera_local_z: Vec3Fx,
) -> (out: MovementOutput)
    requires
        state.wf(),
        bounded_s(effective_translation.v3(), crate::vec3::VEC_MAX as int),
        bounded_s(camera_local_z.v3(), SCALE as int),
    ensures
        ({
            let wd = world_direction_s(state.direction.v3(), camera_local_z.v3());
            let nv = new_velocity_s(
                wd,
                effective_translation.v3(),
                grounded,
                state.sprinting,
                state.direction.v3(),
            );
            &&& out.translate_by.v3() == crate::vec3::lerp_s(
                effective_translation.v3(),
                nv,
                SCALE as int,
            )
            &&& out.translate_by.v3() == nv
            &&& out.position_nudge.v3() == nudge_s(wd)
            &&& out.yaw == state.input_state.yaw
        }),
{
    let fwd = crate::vec3::normalize_or_zero(
        Vec3Fx { x: -camera_local_z.x, y: 0, z: -camera_local_z.z },
    );
    let right = crate::vec3::normalize_or_zero(
        Vec3Fx { x: camera_local_z.z, y: 0, z: -camera_local_z.x },
    );
    proof {
        crate::vec3::lemma_scale_unit_bound(fwd.v3(), state.direction.z as int, SCALE as int);
        crate::vec3::lemma_scale_unit_bound(right.v3(), state.direction.x as int, SCALE as int);
    }
    let combined = crate::vec3::vadd(
        crate::vec3::vscale(fwd, state.direction.z),
        crate::vec3::vscale(right, state.direction.x),
    );
    let unit_direction = crate::vec3::normalize_or_zero(combined);

    let ghost vmax = crate::vec3::VEC_MAX as int;
    let mut accel: Vec3Fx;
    if grounded {
        accel = source_ground_movement(
            unit_direction,
            effective_translation,
            FRICTION,
            GROUND_ACCEL,
            MAX_GROUND_SPEED,
            TICK_DT,
        );
        if state.sprinting {
            proof {
                crate::vec3::lemma_fmul_s_bound(
                    accel.x as int,
                    SPRINT_FACTOR as int,
                    6 * vmax,
                    SPRINT_FACTOR as int,
                );
                crate::vec3::lemma_fmul_s_bound(
                    accel.y as int,
                    SPRINT_FACTOR as int,
                    6 * vmax,
                    SPRINT_FACTOR as int,
                );
                crate::vec3::lemma_fmul_s_bound(
                    accel.z as int,
                    SPRINT_FACTOR as int,
                    6 * vmax,
                    SPRINT_FACTOR as int,
                );
            }
            accel = crate::vec3::vscale(accel, SPRINT_FACTOR);
        }
        if state.direction.y == SCALE {
            accel.y = JUMP_SPEED;
        }
    } else {
        accel = source_air_movement(
            unit_direction,
            effective_translation,
            AIR_ACCEL,
            MAX_AIR_SPEED,
            TICK_DT,
        );
        accel.y = accel.y - GRAVITY_STEP;
    }

    proof {
        crate::vec3::lemma_lerp_one(effective_translation.v3(), accel.v3());
    }
    let translate_by = crate::vec3::lerp(effective_translation, accel, SCALE);
    let position_nudge = Vec3Fx {
        x: crate::fx::div_trunc(unit_direction.x, NUDGE_DIV),
        y: crate::fx::div_trunc(unit_direction.y, NUDGE_DIV),
        z: crate::fx::div_trunc(unit_direction.z, NUDGE_DIV),
    };
    MovementOutput { translate_by, position_nudge, yaw: state.input_state.yaw }
}

} // verus!
