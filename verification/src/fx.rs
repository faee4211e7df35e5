//! Fixed-point scalar arithmetic.
//!
//! A fixed-point value is an `i64` counting millionths of a unit: the value
//! `v` stands for the real number `v / SCALE`. Multiplication of two
//! fixed-point values truncates toward zero, as the corresponding `f32`
//! product would round; every executable operation here is specified exactly
//! over the mathematical integers.

use vstd::arithmetic::div_mod::{lemma_div_is_ordered, lemma_div_nonincreasing, lemma_div_pos_is_pos};
use vstd::prelude::*;

verus! {

/// Number of fixed-point steps in one unit (1.0 is `SCALE`).
pub const SCALE: i64 = 1_000_000;

/// Largest magnitude accepted by the fixed-point multiplier: one million
/// units. Keeps every intermediate product inside 128 bits and every
/// truncated quotient inside an `i64`.
pub const FX_MAX: i64 = 1_000_000_000_000;

/// Largest magnitude of an i64, used to state saturation.
pub const I64_TOP: i64 = 0x7fff_ffff_ffff_ffff;

/// Division truncating toward zero, the rounding of Rust's `/` on integers;
/// `d` must be positive.
pub open spec fn div_tz(a: int, d: int) -> int {
    if a >= 0 {
        a / d
    } else {
        -((-a) / d)
    }
}

/// Fixed-point product: the mathematical product scaled back down, truncated
/// toward zero.
pub open spec fn fmul_s(a: int, b: int) -> int {
    div_tz(a * b, SCALE as int)
}

/// Clamp `x` into `[lo, hi]`.
pub open spec fn clamp_s(x: int, lo: int, hi: int) -> int {
    if x < lo {
        lo
    } else if x > hi {
        hi
    } else {
        x
    }
}

/// Saturate `x` into the `i64` range.
pub open spec fn sat_s(x: int) -> int {
    clamp_s(x, -(I64_TOP as int) - 1, I64_TOP as int)
}

/// Floor of the square root, defined for nonnegative arguments (and 0 below
/// them, where it is never used).
pub open spec fn sqrt_floor(n: int) -> int
    decreases n,
{
    if n <= 0 {
        0
    } else {
        let r = sqrt_floor(n - 1);
        if (r + 1) * (r + 1) <= n {
            r + 1
        } else {
            r
        }
    }
}

/// `sqrt_floor` is the unique nonnegative root with `r^2 <= n < (r+1)^2`.
pub proof fn lemma_sqrt_floor_props(n: int)
    requires
        n >= 0,
    ensures
        0 <= sqrt_floor(n),
        sqrt_floor(n) * sqrt_floor(n) <= n,
        n < (sqrt_floor(n) + 1) * (sqrt_floor(n) + 1),
    decreases n,
{
    if n > 0 {
        lemma_sqrt_floor_props(n - 1);
        let r = sqrt_floor(n - 1);
        if (r + 1) * (r + 1) <= n {
            assert(n < (r + 2) * (r + 2)) by (nonlinear_arith)
                requires
                    n - 1 < (r + 1) * (r + 1),
                    r >= 0,
            ;
        }
    }
}

/// Any integer satisfying the square-root bracketing equals `sqrt_floor`.
pub proof fn lemma_sqrt_floor_unique(n: int, r: int)
    requires
        n >= 0,
        r >= 0,
        r * r <= n,
        n < (r + 1) * (r + 1),
    ensures
        r == sqrt_floor(n),
{
    lemma_sqrt_floor_props(n);
    let s = sqrt_floor(n);
    assert(r == s) by (nonlinear_arith)
        requires
            r >= 0,
            s >= 0,
            r * r <= n,
            n < (r + 1) * (r + 1),
            s * s <= n,
            n < (s + 1) * (s + 1),
    ;
}

/// A fixed-point product of nonnegative factors is nonnegative.
pub proof fn lemma_fmul_s_nonneg(a: int, b: int)
    requires
        0 <= a,
        0 <= b,
    ensures
        0 <= fmul_s(a, b),
{
    assert(a * b >= 0) by (nonlinear_arith)
        requires
            0 <= a,
            0 <= b,
    ;
    lemma_div_pos_is_pos(a * b, SCALE as int);
}

/// Saturating addition on `i64`.
pub fn sat_add(a: i64, b: i64) -> (r: i64)
    ensures
        r == sat_s(a + b),
{
    if b >= 0 {
        if a <= I64_TOP - b {
            a + b
        } else {
            I64_TOP
        }
    } else {
        if a >= (-I64_TOP - 1) - b {
            a + b
        } else {
            -I64_TOP - 1
        }
    }
}

/// Clamp `x` into `[lo, hi]`.
pub fn clamp(x: i64, lo: i64, hi: i64) -> (r: i64)
    requires
        lo <= hi,
    ensures
        r == clamp_s(x as int, lo as int, hi as int),
{
    if x < lo {
        lo
    } else if x > hi {
        hi
    } else {
        x
    }
}

/// Fixed-point multiplication, truncating toward zero.
pub fn fmul(a: i64, b: i64) -> (r: i64)
    requires
        -FX_MAX <= a <= FX_MAX,
        -FX_MAX <= b <= FX_MAX,
    ensures
        r == fmul_s(a as int, b as int),
{
    let ma: u64 = if a < 0 {
        (-a) as u64
    } else {
        a as u64
    };
    let mb: u64 = if b < 0 {
        (-b) as u64
    } else {
        b as u64
    };
    proof {
        assert(ma as int * mb as int <= FX_MAX as int * FX_MAX as int) by (nonlinear_arith)
            requires
                0 <= ma as int <= FX_MAX as int,
                0 <= mb as int <= FX_MAX as int,
        ;
    }
    let p: u128 = (ma as u128) * (mb as u128);
    let q: u128 = p / (SCALE as u128);
    proof {
        lemma_div_is_ordered(p as int, FX_MAX as int * FX_MAX as int, SCALE as int);
        lemma_div_pos_is_pos(p as int, SCALE as int);
        if a >= 0 && b >= 0 {
            assert(a * b == ma as int * mb as int);
        } else if a < 0 && b < 0 {
            assert(a * b == ma as int * mb as int) by (nonlinear_arith)
                requires
                    ma as int == -(a as int),
                    mb as int == -(b as int),
            ;
        } else if a < 0 {
            assert(-(a * b) == ma as int * mb as int) by (nonlinear_arith)
                requires
                    ma as int == -(a as int),
                    mb as int == b as int,
            ;
        } else {
            assert(-(a * b) == ma as int * mb as int) by (nonlinear_arith)
                requires
                    ma as int == a as int,
                    mb as int == -(b as int),
            ;
        }
    }
    let qi: i64 = q as i64;
    if (a < 0) != (b < 0) {
        -qi
    } else {
        qi
    }
}

/// Multiply `a` by the ratio `m / d`, where `0 <= m <= d`; the result is
/// truncated toward zero and never larger in magnitude than `a`.
pub fn muldiv(a: i64, m: i64, d: i64) -> (r: i64)
    requires
        0 < d,
        0 <= m <= d,
        -FX_MAX <= a <= FX_MAX,
    ensures
        r == div_tz(a * m, d as int),
        a >= 0 ==> 0 <= r <= a,
        a < 0 ==> a <= r <= 0,
{
    let ma: u64 = if a < 0 {
        (-a) as u64
    } else {
        a as u64
    };
    proof {
        assert(ma as int * m as int <= ma as int * d as int <= FX_MAX as int * I64_TOP as int)
            by (nonlinear_arith)
            requires
                0 <= ma as int <= FX_MAX as int,
                0 <= m as int <= d as int <= I64_TOP as int,
        ;
    }
    let p: u128 = (ma as u128) * (m as u128);
    let q: u128 = p / (d as u128);
    proof {
        lemma_div_is_ordered(p as int, ma as int * d as int, d as int);
        vstd::arithmetic::div_mod::lemma_div_multiples_vanish(ma as int, d as int);
        assert(ma as int * d as int == d as int * ma as int);
        lemma_div_pos_is_pos(p as int, d as int);
        if a < 0 {
            assert(-(a * m) == ma as int * m as int) by (nonlinear_arith)
                requires
                    ma as int == -(a as int),
                    m as int >= 0,
            ;
        } else {
            assert(a * m == ma as int * m as int);
        }
    }
    let qi: i64 = q as i64;
    if a < 0 {
        -qi
    } else {
        qi
    }
}

/// Scale `a` up to a ratio against `d`: computes `a * SCALE / d`, truncated
/// toward zero; `d` must be positive.
pub fn scale_div(a: i64, d: i64) -> (r: i64)
    requires
        0 < d,
        -FX_MAX <= a <= FX_MAX,
    ensures
        r == div_tz(a * SCALE, d as int),
{
    let ma: u64 = if a < 0 {
        (-a) as u64
    } else {
        a as u64
    };
    proof {
        assert(ma as int * SCALE as int <= FX_MAX as int * SCALE as int) by (nonlinear_arith)
            requires
                0 <= ma as int <= FX_MAX as int,
        ;
    }
    let p: u128 = (ma as u128) * (SCALE as u128);
    let q: u128 = p / (d as u128);
    proof {
        lemma_div_is_ordered(p as int, FX_MAX as int * SCALE as int, d as int);
        lemma_div_nonincreasing(FX_MAX as int * SCALE as int, d as int);
        lemma_div_pos_is_pos(p as int, d as int);
        if a < 0 {
            assert(-(a * SCALE) == ma as int * SCALE as int) by (nonlinear_arith)
                requires
                    ma as int == -(a as int),
            ;
        } else {
            assert(a * SCALE == ma as int * SCALE as int);
        }
    }
    let qi: i64 = q as i64;
    if a < 0 {
        -qi
    } else {
        qi
    }
}

/// Integer division truncating toward zero; `d` must be positive.
pub fn div_trunc(a: i64, d: i64) -> (r: i64)
    requires
        0 < d,
        -I64_TOP <= a,
    ensures
        r == div_tz(a as int, d as int),
{
    let ma: u64 = if a < 0 {
        (-a) as u64
    } else {
        a as u64
    };
    let q: u64 = ma / (d as u64);
    proof {
        lemma_div_nonincreasing(ma as int, d as int);
        lemma_div_pos_is_pos(ma as int, d as int);
    }
    let qi: i64 = q as i64;
    if a < 0 {
        -qi
    } else {
        qi
    }
}

/// Floor of the square root, by bisection.
pub fn isqrt(n: u128) -> (r: u64)
    requires
        n <= 4_000_000_000_000_000_000_000_000,
    ensures
        r == sqrt_floor(n as int),
{
    let mut lo: u64 = 0;
    let mut hi: u64 = 2_000_000_000_000;
    proof {
        assert((hi as int + 1) * (hi as int + 1) > n as int) by (nonlinear_arith)
            requires
                hi as int == 2_000_000_000_000,
                n as int <= 4_000_000_000_000_000_000_000_000,
        ;
    }
    while lo < hi
        invariant
            0 <= lo <= hi <= 2_000_000_000_000,
            lo as int * lo as int <= n as int,
            (hi as int + 1) * (hi as int + 1) > n as int,
        decreases hi - lo,
    {
        let mid: u64 = lo + (hi - lo + 1) / 2;
        proof {
            assert(mid as int * mid as int <= 4_000_000_000_000_000_000_000_000int)
                by (nonlinear_arith)
                requires
                    0 <= mid as int <= 2_000_000_000_000,
            ;
        }
        if (mid as u128) * (mid as u128) <= n {
            lo = mid;
        } else {
            hi = mid - 1;
        }
    }
    proof {
        lemma_sqrt_floor_unique(n as int, lo as int);
    }
    lo
}

} // verus!
