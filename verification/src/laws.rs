//! Global laws of the movement model, stated and proved once over the spec
//! functions that the controller's contracts use.

use crate::controller::{
    accel_delta_s, accelerate_s, direction_from_s, friction_s, ground_move_s, new_velocity_s,
    pitch_after_s, sprint_after_s, world_direction_s, yaw_after_s, PointerDelta, AIR_ACCEL,
    FRICTION, GRAVITY_STEP, GROUND_ACCEL, JUMP_SPEED, MAX_AIR_SPEED, MAX_GROUND_SPEED, PITCH_LIMIT,
    SPRINT_FACTOR, TICK_DT,
};
use crate::fx::{div_tz, fmul_s, lemma_fmul_s_nonneg, lemma_sqrt_floor_props, SCALE};
use crate::player::PlayerAction;
use crate::vec3::{
    add_s, dot_s, lemma_fmul_one, len_sq_s, scale_s, speed_s, zero_s, V3,
};
use vstd::arithmetic::div_mod::{
    lemma_div_is_ordered, lemma_div_multiples_vanish, lemma_div_pos_is_pos,
};
use vstd::prelude::*;

verus! {

/// Pitch is always clamped: whatever pointer deltas a batch holds and
/// wherever the pitch started, the aggregated pitch lies within its limits.
pub proof fn lemma_pitch_always_clamped(p0: int, ds: Seq<PointerDelta>)
    ensures
        -PITCH_LIMIT <= pitch_after_s(p0, ds) <= PITCH_LIMIT,
{
}

/// A quiet tick leaves the input state alone: an empty pointer batch keeps
/// both view angles (pitch needs only to start inside its clamp), no pressed
/// action yields the zero intent vector, and the sprint latch keeps its
/// value when no sprint edge arrives.
pub proof fn lemma_idle_inputs_fix_state(y0: int, p0: int, sprint: bool)
    requires
        -PITCH_LIMIT <= p0 <= PITCH_LIMIT,
    ensures
        yaw_after_s(y0, Seq::<PointerDelta>::empty()) == y0,
        pitch_after_s(p0, Seq::<PointerDelta>::empty()) == p0,
        direction_from_s(Seq::<PlayerAction>::empty()) == zero_s(),
        sprint_after_s(sprint, Seq::<PlayerAction>::empty(), Seq::<PlayerAction>::empty())
            == sprint,
{
    assert(!Seq::<PlayerAction>::empty().contains(PlayerAction::Right));
    assert(!Seq::<PlayerAction>::empty().contains(PlayerAction::Left));
    assert(!Seq::<PlayerAction>::empty().contains(PlayerAction::Forward));
    assert(!Seq::<PlayerAction>::empty().contains(PlayerAction::Back));
    assert(!Seq::<PlayerAction>::empty().contains(PlayerAction::Jump));
    assert(!Seq::<PlayerAction>::empty().contains(PlayerAction::Sprint));
}

/// Acceleration never pushes the direction-aligned velocity component above
/// the cap: when the projection of the previous velocity onto the intent
/// direction is at most `max`, the clamped increment keeps it at most `max`.
pub proof fn lemma_accel_cap(dir: V3, prev: V3, acc: int, max: int, dt: int)
    requires
        dot_s(prev, dir) <= max,
        0 <= acc,
        0 <= dt,
    ensures
        dot_s(prev, dir) + accel_delta_s(dir, prev, acc, max, dt) <= max,
{
    lemma_fmul_s_nonneg(acc, dt);
}

/// The cap law read off the result, for an intent exactly along the +z axis:
/// the z component of the accelerated velocity is the old z plus the clamped
/// increment, so it never passes the cap when it started at or below it.
pub proof fn lemma_accel_cap_axis_z(prev: V3, acc: int, max: int, dt: int)
    requires
        prev.z <= max,
        0 <= acc,
        0 <= dt,
    ensures
        ({
            let dir = V3 { x: 0, y: 0, z: SCALE as int };
            let r = accelerate_s(dir, prev, acc, max, dt);
            &&& r.x == prev.x
            &&& r.y == prev.y
            &&& r.z == prev.z + accel_delta_s(dir, prev, acc, max, dt)
            &&& r.z <= max
        }),
{
    let dir = V3 { x: 0, y: 0, z: SCALE as int };
    assert(prev.x * 0 == 0 && prev.y * 0 == 0);
    assert(fmul_s(prev.x, 0) == 0 && fmul_s(prev.y, 0) == 0);
    lemma_fmul_one(prev.z);
    assert(dot_s(prev, dir) == prev.z);
    let delta = accel_delta_s(dir, prev, acc, max, dt);
    assert(0 * delta == 0);
    assert(fmul_s(0, delta) == 0);
    assert(fmul_s(SCALE as int, delta) == delta) by {
        lemma_fmul_one(delta);
        assert(SCALE as int * delta == delta * SCALE as int);
    }
    lemma_accel_cap(dir, prev, acc, max, dt);
}

/// One component scaled by a fraction `m / s` with `0 <= m <= s` keeps its
/// sign and never grows in magnitude.
proof fn lemma_scale_frac_bound(c: int, m: int, s: int)
    requires
        0 < s,
        0 <= m <= s,
    ensures
        c >= 0 ==> 0 <= div_tz(c * m, s) <= c,
        c < 0 ==> c <= div_tz(c * m, s) <= 0,
{
    if c >= 0 {
        assert(0 <= c * m <= c * s) by (nonlinear_arith)
            requires
                0 <= c,
                0 <= m <= s,
        ;
        lemma_div_pos_is_pos(c * m, s);
        lemma_div_is_ordered(c * m, c * s, s);
        lemma_div_multiples_vanish(c, s);
        assert(c * s == s * c);
    } else {
        assert(0 <= (-c) * m <= (-c) * s && (-c) * m == -(c * m)) by (nonlinear_arith)
            requires
                c < 0,
                0 <= m <= s,
        ;
        lemma_div_pos_is_pos(-(c * m), s);
        lemma_div_is_ordered(-(c * m), (-c) * s, s);
        lemma_div_multiples_vanish(-c, s);
        assert((-c) * s == s * (-c)) by (nonlinear_arith);
    }
}

/// Friction never reverses a velocity: every component keeps its sign and
/// never grows in magnitude, on any input and any nonnegative coefficients
/// (the decayed speed is floored at zero before it scales the vector).
pub proof fn lemma_friction_never_reverses(prev: V3, friction: int, dt: int)
    requires
        0 <= friction,
        0 <= dt,
    ensures
        ({
            let r = friction_s(prev, friction, dt);
            &&& prev.x >= 0 ==> 0 <= r.x <= prev.x
            &&& prev.x < 0 ==> prev.x <= r.x <= 0
            &&& prev.y >= 0 ==> 0 <= r.y <= prev.y
            &&& prev.y < 0 ==> prev.y <= r.y <= 0
            &&& prev.z >= 0 ==> 0 <= r.z <= prev.z
            &&& prev.z < 0 ==> prev.z <= r.z <= 0
        }),
{
    assert(len_sq_s(prev) >= 0) by (nonlinear_arith)
        requires
            len_sq_s(prev) == prev.x * prev.x + prev.y * prev.y + prev.z * prev.z,
    ;
    lemma_sqrt_floor_props(len_sq_s(prev));
    let speed = speed_s(prev);
    if speed != 0 {
        let decay = fmul_s(fmul_s(speed, friction), dt);
        lemma_fmul_s_nonneg(speed, friction);
        lemma_fmul_s_nonneg(fmul_s(speed, friction), dt);
        let m = if speed - decay > 0 {
            speed - decay
        } else {
            0
        };
        lemma_scale_frac_bound(prev.x, m, speed);
        lemma_scale_frac_bound(prev.y, m, speed);
        lemma_scale_frac_bound(prev.z, m, speed);
    }
}

/// The sprint multiplier touches nothing but the grounded branch, and there
/// only when the latch is set at the moment integration runs: airborne, the
/// latch is irrelevant; grounded without the latch, the velocity is exactly
/// the friction-plus-acceleration result (with only the jump override
/// applied on top).
pub proof fn lemma_sprint_multiplier_scope(wd: V3, prev: V3, intent: V3)
    ensures
        new_velocity_s(wd, prev, false, true, intent) == new_velocity_s(
            wd,
            prev,
            false,
            false,
            intent,
        ),
        ({
            let g = ground_move_s(
                wd,
                prev,
                FRICTION as int,
                GROUND_ACCEL as int,
                MAX_GROUND_SPEED as int,
                TICK_DT as int,
            );
            &&& intent.y != SCALE as int ==> new_velocity_s(wd, prev, true, false, intent) == g
            &&& intent.y == SCALE as int ==> new_velocity_s(wd, prev, true, false, intent) == (V3 {
                x: g.x,
                y: JUMP_SPEED as int,
                z: g.z,
            })
        }),
{
}

/// The jump override fires if and only if the intent's vertical axis is
/// exactly fully deflected and the actor was grounded on the previous tick;
/// in every other case the vertical velocity is exactly what the grounded or
/// airborne model produced.
pub proof fn lemma_jump_override_iff(
    wd: V3,
    prev: V3,
    grounded: bool,
    sprinting: bool,
    intent: V3,
)
    ensures
        ({
            let g = ground_move_s(
                wd,
                prev,
                FRICTION as int,
                GROUND_ACCEL as int,
                MAX_GROUND_SPEED as int,
                TICK_DT as int,
            );
            let sv = if sprinting {
                scale_s(g, SPRINT_FACTOR as int)
            } else {
                g
            };
            let nv = new_velocity_s(wd, prev, grounded, sprinting, intent);
            &&& (grounded && intent.y == SCALE as int) ==> nv == (V3 {
                x: sv.x,
                y: JUMP_SPEED as int,
                z: sv.z,
            })
            &&& (grounded && intent.y != SCALE as int) ==> nv == sv
            &&& !grounded ==> nv.y == accelerate_s(
                wd,
                prev,
                AIR_ACCEL as int,
                MAX_AIR_SPEED as int,
                TICK_DT as int,
            ).y - GRAVITY_STEP as int
        }),
{
}

/// A zero intent yields a zero world direction, whatever the camera faces.
pub proof fn lemma_zero_intent_zero_direction(local_z: V3)
    ensures
        world_direction_s(zero_s(), local_z) == zero_s(),
{
    let fwd = crate::vec3::norm_s(V3 { x: -local_z.x, y: 0, z: -local_z.z });
    let right = crate::vec3::norm_s(V3 { x: local_z.z, y: 0, z: -local_z.x });
    assert(fwd.x * 0 == 0 && fwd.y * 0 == 0 && fwd.z * 0 == 0);
    assert(right.x * 0 == 0 && right.y * 0 == 0 && right.z * 0 == 0);
    assert(fmul_s(fwd.x, 0) == 0 && fmul_s(fwd.y, 0) == 0 && fmul_s(fwd.z, 0) == 0);
    assert(fmul_s(right.x, 0) == 0 && fmul_s(right.y, 0) == 0 && fmul_s(right.z, 0) == 0);
    let combined = add_s(scale_s(fwd, 0), scale_s(right, 0));
    assert(combined == zero_s());
    assert(len_sq_s(combined) == 0);
}

/// An idle grounded tick only decays: with a zero world direction, no sprint
/// and no jump request, the new velocity is exactly the friction result, so
/// every component keeps its sign and never grows in magnitude — repeated
/// idle ticks drive the velocity monotonically toward zero, never past it.
pub proof fn lemma_idle_velocity_decays(prev: V3, intent: V3)
    requires
        intent.y != SCALE as int,
    ensures
        new_velocity_s(zero_s(), prev, true, false, intent) == friction_s(
            prev,
            FRICTION as int,
            TICK_DT as int,
        ),
        ({
            let r = new_velocity_s(zero_s(), prev, true, false, intent);
            &&& prev.x >= 0 ==> 0 <= r.x <= prev.x
            &&& prev.x < 0 ==> prev.x <= r.x <= 0
            &&& prev.y >= 0 ==> 0 <= r.y <= prev.y
            &&& prev.y < 0 ==> prev.y <= r.y <= 0
            &&& prev.z >= 0 ==> 0 <= r.z <= prev.z
            &&& prev.z < 0 ==> prev.z <= r.z <= 0
        }),
{
    let f = friction_s(prev, FRICTION as int, TICK_DT as int);
    let dir = zero_s();
    let delta = accel_delta_s(dir, f, GROUND_ACCEL as int, MAX_GROUND_SPEED as int, TICK_DT as int);
    assert(0 * delta == 0) by (nonlinear_arith);
    assert(fmul_s(0, delta) == 0);
    assert(scale_s(dir, delta) == zero_s());
    assert(accelerate_s(dir, f, GROUND_ACCEL as int, MAX_GROUND_SPEED as int, TICK_DT as int)
        == f);
    lemma_friction_never_reverses(prev, FRICTION as int, TICK_DT as int);
}

} // verus!
