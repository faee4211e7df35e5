//! Fixed-point 3-vectors and their mathematical model.
//!
//! `Vec3Fx` is the executable vector (three `i64` fixed-point components);
//! `V3` is its mathematical model over unbounded integers. Every executable
//! operation is specified exactly against a spec-level counterpart.

use crate::fx::{
    div_tz, fmul, fmul_s, isqrt, scale_div, sqrt_floor, FX_MAX, SCALE,
};
use vstd::arithmetic::div_mod::{lemma_div_is_ordered, lemma_div_multiples_vanish, lemma_div_pos_is_pos};
use vstd::prelude::*;

verus! {

/// Largest component magnitude accepted for a velocity or translation:
/// one thousand units, far beyond any speed the model produces.
pub const VEC_MAX: i64 = 1_000_000_000;

/// Mathematical model of a vector: three unbounded integers, each counting
/// millionths of a unit.
pub ghost struct V3 {
    pub x: int,
    pub y: int,
    pub z: int,
}

/// Executable fixed-point vector.
#[derive(Clone, Copy, Debug, PartialEq, Eq, Structural)]
pub struct Vec3Fx {
    pub x: i64,
    pub y: i64,
    pub z: i64,
}

impl Vec3Fx {
    /// The mathematical model of this vector.
    pub open spec fn v3(self) -> V3 {
        V3 { x: self.x as int, y: self.y as int, z: self.z as int }
    }

    /// The zero vector.
    pub fn zero() -> (r: Vec3Fx)
        ensures
            r.v3() == zero_s(),
    {
        Vec3Fx { x: 0, y: 0, z: 0 }
    }

    /// Build a vector from its components.
    pub fn new(x: i64, y: i64, z: i64) -> (r: Vec3Fx)
        ensures
            r.x == x,
            r.y == y,
            r.z == z,
    {
        Vec3Fx { x, y, z }
    }
}

pub open spec fn zero_s() -> V3 {
    V3 { x: 0, y: 0, z: 0 }
}

/// Every component of `v` lies in `[-b, b]`.
pub open spec fn bounded_s(v: V3, b: int) -> bool {
    &&& -b <= v.x <= b
    &&& -b <= v.y <= b
    &&& -b <= v.z <= b
}

pub open spec fn add_s(a: V3, b: V3) -> V3 {
    V3 { x: a.x + b.x, y: a.y + b.y, z: a.z + b.z }
}

pub open spec fn sub_s(a: V3, b: V3) -> V3 {
    V3 { x: a.x - b.x, y: a.y - b.y, z: a.z - b.z }
}

/// Fixed-point dot product.
pub open spec fn dot_s(a: V3, b: V3) -> int {
    fmul_s(a.x, b.x) + fmul_s(a.y, b.y) + fmul_s(a.z, b.z)
}

/// Fixed-point scaling of every component by `k`.
pub open spec fn scale_s(v: V3, k: int) -> V3 {
    V3 { x: fmul_s(v.x, k), y: fmul_s(v.y, k), z: fmul_s(v.z, k) }
}

/// Squared Euclidean length (in squared fixed-point steps).
pub open spec fn len_sq_s(v: V3) -> int {
    v.x * v.x + v.y * v.y + v.z * v.z
}

/// Fixed-point Euclidean length: the integer square root of the squared
/// length, which carries the same scale as the components.
pub open spec fn speed_s(v: V3) -> int {
    sqrt_floor(len_sq_s(v))
}

/// Normalization: the zero vector stays zero, every other vector is scaled
/// by the reciprocal of its length.
pub open spec fn norm_s(v: V3) -> V3 {
    let l = speed_s(v);
    if l == 0 {
        zero_s()
    } else {
        V3 { x: div_tz(v.x * SCALE, l), y: div_tz(v.y * SCALE, l), z: div_tz(v.z * SCALE, l) }
    }
}

/// Linear interpolation from `a` toward `b` by the fixed-point factor `t`.
pub open spec fn lerp_s(a: V3, b: V3, t: int) -> V3 {
    add_s(a, scale_s(sub_s(b, a), t))
}

/// A fixed-point product is bounded by the product of its factors' bounds.
pub proof fn lemma_fmul_s_bound(a: int, b: int, ba: int, bb: int)
    requires
        -ba <= a <= ba,
        -bb <= b <= bb,
        0 <= ba,
        0 <= bb,
    ensures
        -((ba * bb) / SCALE as int) <= fmul_s(a, b) <= (ba * bb) / SCALE as int,
{
    assert(-(ba * bb) <= a * b <= ba * bb) by (nonlinear_arith)
        requires
            -ba <= a <= ba,
            -bb <= b <= bb,
            0 <= ba,
            0 <= bb,
    ;
    if a * b >= 0 {
        lemma_div_is_ordered(a * b, ba * bb, SCALE as int);
        lemma_div_pos_is_pos(a * b, SCALE as int);
    } else {
        lemma_div_is_ordered(-(a * b), ba * bb, SCALE as int);
        lemma_div_pos_is_pos(-(a * b), SCALE as int);
    }
}

/// The product of a value and a unit-bounded factor keeps the value's bound.
pub proof fn lemma_fmul_unit_bound(a: int, d: int, ba: int)
    requires
        -ba <= a <= ba,
        -(SCALE as int) <= d <= SCALE as int,
        0 <= ba,
    ensures
        -ba <= fmul_s(a, d) <= ba,
        -ba <= fmul_s(d, a) <= ba,
{
    lemma_fmul_s_bound(a, d, ba, SCALE as int);
    lemma_fmul_s_bound(d, a, SCALE as int, ba);
    lemma_div_multiples_vanish(ba, SCALE as int);
    assert(ba * SCALE == SCALE as int * ba);
    assert(fmul_s(a, d) == fmul_s(d, a)) by {
        assert(a * d == d * a);
    }
}

/// A dot product against a unit-bounded direction is at most three times the
/// other factor's bound.
pub proof fn lemma_dot_unit_bound(a: V3, d: V3, ba: int)
    requires
        bounded_s(a, ba),
        bounded_s(d, SCALE as int),
        0 <= ba,
    ensures
        -3 * ba <= dot_s(a, d) <= 3 * ba,
{
    lemma_fmul_unit_bound(a.x, d.x, ba);
    lemma_fmul_unit_bound(a.y, d.y, ba);
    lemma_fmul_unit_bound(a.z, d.z, ba);
}

/// Scaling a unit-bounded vector by `k` bounds every component by `k`'s
/// bound.
pub proof fn lemma_scale_unit_bound(d: V3, k: int, bk: int)
    requires
        bounded_s(d, SCALE as int),
        -bk <= k <= bk,
        0 <= bk,
    ensures
        bounded_s(scale_s(d, k), bk),
{
    lemma_fmul_unit_bound(k, d.x, bk);
    lemma_fmul_unit_bound(k, d.y, bk);
    lemma_fmul_unit_bound(k, d.z, bk);
}

/// Scaling by the fixed-point one is the identity.
pub proof fn lemma_fmul_one(x: int)
    ensures
        fmul_s(x, SCALE as int) == x,
{
    if x >= 0 {
        lemma_div_multiples_vanish(x, SCALE as int);
        assert(x * SCALE == SCALE as int * x);
    } else {
        lemma_div_multiples_vanish(-x, SCALE as int);
        assert(-(x * SCALE) == SCALE as int * (-x));
    }
}

/// Interpolating all the way (`t` equal to one) lands exactly on `b`.
pub proof fn lemma_lerp_one(a: V3, b: V3)
    ensures
        lerp_s(a, b, SCALE as int) == b,
{
    lemma_fmul_one(b.x - a.x);
    lemma_fmul_one(b.y - a.y);
    lemma_fmul_one(b.z - a.z);
}

/// The length of a componentwise-bounded vector is at most twice the bound.
pub proof fn lemma_len_bound(v: V3, b: int)
    requires
        bounded_s(v, b),
        0 <= b,
    ensures
        0 <= speed_s(v) <= 2 * b,
{
    let n = len_sq_s(v);
    assert(0 <= n <= 3 * b * b) by (nonlinear_arith)
        requires
            n == v.x * v.x + v.y * v.y + v.z * v.z,
            -b <= v.x <= b,
            -b <= v.y <= b,
            -b <= v.z <= b,
            0 <= b,
    ;
    crate::fx::lemma_sqrt_floor_props(n);
    let l = speed_s(v);
    assert(l <= 2 * b) by (nonlinear_arith)
        requires
            l >= 0,
            l * l <= n,
            n <= 3 * b * b,
            0 <= b,
    ;
}

/// A normalized vector has components no larger than one.
pub proof fn lemma_norm_unit(v: V3)
    ensures
        bounded_s(norm_s(v), SCALE as int),
{
    let n = len_sq_s(v);
    assert(n >= v.x * v.x >= 0 && n >= v.y * v.y >= 0 && n >= v.z * v.z >= 0)
        by (nonlinear_arith)
        requires
            n == v.x * v.x + v.y * v.y + v.z * v.z,
    ;
    crate::fx::lemma_sqrt_floor_props(n);
    let l = speed_s(v);
    if l != 0 {
        lemma_norm_component(v.x, n, l);
        lemma_norm_component(v.y, n, l);
        lemma_norm_component(v.z, n, l);
    }
}

/// One component of a normalization stays within one unit.
proof fn lemma_norm_component(c: int, n: int, l: int)
    requires
        c * c <= n,
        l > 0,
        l * l <= n,
        n < (l + 1) * (l + 1),
    ensures
        -(SCALE as int) <= div_tz(c * SCALE, l) <= SCALE as int,
{
    assert(-l <= c <= l) by (nonlinear_arith)
        requires
            c * c <= n,
            l > 0,
            n < (l + 1) * (l + 1),
    ;
    assert(-(l * SCALE) <= c * SCALE <= l * SCALE) by (nonlinear_arith)
        requires
            -l <= c <= l,
    ;
    lemma_div_multiples_vanish(SCALE as int, l);
    assert(l * SCALE == SCALE as int * l && (-c) * SCALE == -(c * SCALE)) by (nonlinear_arith);
    if c >= 0 {
        lemma_div_is_ordered(c * SCALE, l * SCALE, l);
        lemma_div_pos_is_pos(c * SCALE, l);
    } else {
        lemma_div_is_ordered(-(c * SCALE), l * SCALE, l);
        lemma_div_pos_is_pos(-(c * SCALE), l);
    }
}

/// Componentwise sum.
pub fn vadd(a: Vec3Fx, b: Vec3Fx) -> (r: Vec3Fx)
    requires
        bounded_s(a.v3(), FX_MAX as int),
        bounded_s(b.v3(), FX_MAX as int),
    ensures
        r.v3() == add_s(a.v3(), b.v3()),
{
    Vec3Fx { x: a.x + b.x, y: a.y + b.y, z: a.z + b.z }
}

/// Fixed-point dot product.
pub fn dot(a: Vec3Fx, b: Vec3Fx) -> (r: i64)
    requires
        bounded_s(a.v3(), FX_MAX as int),
        bounded_s(b.v3(), FX_MAX as int),
    ensures
        r == dot_s(a.v3(), b.v3()),
{
    proof {
        lemma_fmul_s_bound(a.x as int, b.x as int, FX_MAX as int, FX_MAX as int);
        lemma_fmul_s_bound(a.y as int, b.y as int, FX_MAX as int, FX_MAX as int);
        lemma_fmul_s_bound(a.z as int, b.z as int, FX_MAX as int, FX_MAX as int);
    }
    fmul(a.x, b.x) + fmul(a.y, b.y) + fmul(a.z, b.z)
}

/// Scale every component by the fixed-point factor `k`.
pub fn vscale(v: Vec3Fx, k: i64) -> (r: Vec3Fx)
    requires
        bounded_s(v.v3(), FX_MAX as int),
        -FX_MAX <= k <= FX_MAX,
    ensures
        r.v3() == scale_s(v.v3(), k as int),
{
    Vec3Fx { x: fmul(v.x, k), y: fmul(v.y, k), z: fmul(v.z, k) }
}

/// Fixed-point Euclidean length.
pub fn length(v: Vec3Fx) -> (r: i64)
    requires
        bounded_s(v.v3(), FX_MAX as int),
    ensures
        r == speed_s(v.v3()),
        r >= 0,
{
    let ax: u64 = if v.x < 0 {
        (-v.x) as u64
    } else {
        v.x as u64
    };
    let ay: u64 = if v.y < 0 {
        (-v.y) as u64
    } else {
        v.y as u64
    };
    let az: u64 = if v.z < 0 {
        (-v.z) as u64
    } else {
        v.z as u64
    };
    proof {
        assert(ax as int * ax as int == v.x * v.x && ax as int * ax as int
            <= FX_MAX as int * FX_MAX as int) by (nonlinear_arith)
            requires
                ax as int == if v.x < 0 { -(v.x as int) } else { v.x as int },
                -FX_MAX <= v.x <= FX_MAX,
        ;
        assert(ay as int * ay as int == v.y * v.y && ay as int * ay as int
            <= FX_MAX as int * FX_MAX as int) by (nonlinear_arith)
            requires
                ay as int == if v.y < 0 { -(v.y as int) } else { v.y as int },
                -FX_MAX <= v.y <= FX_MAX,
        ;
        assert(az as int * az as int == v.z * v.z && az as int * az as int
            <= FX_MAX as int * FX_MAX as int) by (nonlinear_arith)
            requires
                az as int == if v.z < 0 { -(v.z as int) } else { v.z as int },
                -FX_MAX <= v.z <= FX_MAX,
        ;
    }
    let n: u128 = (ax as u128) * (ax as u128) + (ay as u128) * (ay as u128) + (az as u128) * (az
        as u128);
    let r: u64 = isqrt(n);
    proof {
        crate::fx::lemma_sqrt_floor_props(n as int);
        assert(sqrt_floor(n as int) * sqrt_floor(n as int) <= 3_000_000_000_000_000_000_000_000);
        assert(sqrt_floor(n as int) <= 2_000_000_000_000) by (nonlinear_arith)
            requires
                sqrt_floor(n as int) >= 0,
                sqrt_floor(n as int) * sqrt_floor(n as int)
                    <= 3_000_000_000_000_000_000_000_000,
        ;
    }
    r as i64
}

/// Normalization to (fixed-point) unit length; the zero vector is passed
/// through unchanged, never an error.
pub fn normalize_or_zero(v: Vec3Fx) -> (r: Vec3Fx)
    requires
        bounded_s(v.v3(), FX_MAX as int),
    ensures
        r.v3() == norm_s(v.v3()),
        bounded_s(r.v3(), SCALE as int),
{
    proof {
        lemma_norm_unit(v.v3());
    }
    let l = length(v);
    if l == 0 {
        proof {
            assert(v.x * v.x >= 0 && v.y * v.y >= 0 && v.z * v.z >= 0) by (nonlinear_arith);
            crate::fx::lemma_sqrt_floor_props(len_sq_s(v.v3()));
            assert(v.x * v.x < 1 && v.y * v.y < 1 && v.z * v.z < 1) by (nonlinear_arith)
                requires
                    v.x * v.x + v.y * v.y + v.z * v.z < 1,
                    v.x * v.x >= 0,
                    v.y * v.y >= 0,
                    v.z * v.z >= 0,
            ;
            assert(v.x == 0 && v.y == 0 && v.z == 0) by (nonlinear_arith)
                requires
                    v.x * v.x < 1,
                    v.y * v.y < 1,
                    v.z * v.z < 1,
            ;
        }
        Vec3Fx { x: 0, y: 0, z: 0 }
    } else {
        Vec3Fx { x: scale_div(v.x, l), y: scale_div(v.y, l), z: scale_div(v.z, l) }
    }
}

/// Linear interpolation from `a` toward `b` by the fixed-point factor `t`.
pub fn lerp(a: Vec3Fx, b: Vec3Fx, t: i64) -> (r: Vec3Fx)
    requires
        bounded_s(a.v3(), FX_MAX as int),
        bounded_s(sub_s(b.v3(), a.v3()), FX_MAX as int),
        0 <= t <= SCALE,
    ensures
        r.v3() == lerp_s(a.v3(), b.v3(), t as int),
{
    proof {
        lemma_fmul_s_bound(b.x - a.x, t as int, FX_MAX as int, SCALE as int);
        lemma_fmul_s_bound(b.y - a.y, t as int, FX_MAX as int, SCALE as int);
        lemma_fmul_s_bound(b.z - a.z, t as int, FX_MAX as int, SCALE as int);
    }
    Vec3Fx {
        x: a.x + fmul(b.x - a.x, t),
        y: a.y + fmul(b.y - a.y, t),
        z: a.z + fmul(b.z - a.z, t),
    }
}

} // verus!
