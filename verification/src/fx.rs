//! Q31.32 fixed-point scalars.
//!
//! A scalar is an `i64` holding the underlying real number times 2^32.
//! Every operation saturates at the `i64` range instead of overflowing, and
//! rounds toward zero where a quotient is inexact, so each operation is a
//! total function on `i64` that the spec functions here describe exactly.
use vstd::arithmetic::div_mod::{
    lemma_div_multiples_vanish, lemma_fundamental_div_mod, lemma_fundamental_div_mod_converse,
};
use vstd::prelude::*;

verus! {

/// The fixed-point representation of 1.
pub const FX_ONE: i64 = 4294967296;

/// The fixed-point representation of 2.
pub const FX_TWO: i64 = 8589934592;

/// The fixed-point representation of 4.
pub const FX_FOUR: i64 = 17179869184;

/// Half of `FX_ONE`; the representation of 1/2.
pub const FX_HALF: i64 = 2147483648;

/// Comparison tolerance: the representation of roughly 1e-5.
pub const EPSILON: i64 = 42950;

/// Saturate a mathematical integer into the `i64` range.
pub open spec fn clip(x: int) -> i64 {
    if x > i64::MAX {
        i64::MAX
    } else if x < i64::MIN {
        i64::MIN
    } else {
        x as i64
    }
}

/// Absolute value of a mathematical integer.
pub open spec fn abs_i(x: int) -> int {
    if x >= 0 {
        x
    } else {
        -x
    }
}

/// Quotient of `p` by positive `d`, rounded toward zero.
pub open spec fn tz_div(p: int, d: int) -> int
    recommends
        d > 0,
{
    if p >= 0 {
        p / d
    } else {
        -((-p) / d)
    }
}

/// Saturating fixed-point addition.
pub open spec fn fx_add_s(a: i64, b: i64) -> i64 {
    clip(a + b)
}

/// Saturating fixed-point subtraction.
pub open spec fn fx_sub_s(a: i64, b: i64) -> i64 {
    clip(a - b)
}

/// Saturating fixed-point negation.
pub open spec fn fx_neg_s(a: i64) -> i64 {
    clip(-a)
}

/// Saturating fixed-point multiplication: the product rescaled by 2^-32,
/// rounded toward zero.
pub open spec fn fx_mul_s(a: i64, b: i64) -> i64 {
    clip(tz_div(a * b, FX_ONE as int))
}

/// Saturating fixed-point division, rounded toward zero; division by zero
/// yields zero.
pub open spec fn fx_div_s(a: i64, b: i64) -> i64 {
    if b == 0 {
        0
    } else if (a < 0) != (b < 0) {
        clip(-((abs_i(a as int) * FX_ONE) / abs_i(b as int)))
    } else {
        clip((abs_i(a as int) * FX_ONE) / abs_i(b as int))
    }
}

/// Absolute value, saturating (the absolute value of `i64::MIN` clips to
/// `i64::MAX`).
pub open spec fn fx_abs_s(a: i64) -> i64 {
    clip(abs_i(a as int))
}

/// Two scalars are approximately equal when they differ by less than
/// `EPSILON`.
pub open spec fn approx_eq_s(a: i64, b: i64) -> bool {
    abs_i(a - b) < EPSILON
}

fn i64_abs_u(a: i64) -> (r: u64)
    ensures
        r == abs_i(a as int),
{
    if a >= 0 {
        a as u64
    } else if a == i64::MIN {
        9223372036854775808u64
    } else {
        (-a) as u64
    }
}

fn clamp_pos(q: u128) -> (r: i64)
    ensures
        r == clip(q as int),
{
    if q > i64::MAX as u128 {
        i64::MAX
    } else {
        q as i64
    }
}

fn clamp_neg(q: u128) -> (r: i64)
    ensures
        r == clip(-(q as int)),
{
    if q >= 9223372036854775808u128 {
        i64::MIN
    } else {
        -(q as i64)
    }
}

/// Saturating addition.
pub fn fx_add(a: i64, b: i64) -> (r: i64)
    ensures
        r == fx_add_s(a, b),
{
    match a.checked_add(b) {
        Some(s) => s,
        None => if b > 0 {
            i64::MAX
        } else {
            i64::MIN
        },
    }
}

/// Saturating subtraction.
pub fn fx_sub(a: i64, b: i64) -> (r: i64)
    ensures
        r == fx_sub_s(a, b),
{
    match a.checked_sub(b) {
        Some(s) => s,
        None => if b < 0 {
            i64::MAX
        } else {
            i64::MIN
        },
    }
}

/// Saturating negation.
pub fn fx_neg(a: i64) -> (r: i64)
    ensures
        r == fx_neg_s(a),
{
    if a == i64::MIN {
        i64::MAX
    } else {
        -a
    }
}

/// Saturating absolute value.
pub fn fx_abs(a: i64) -> (r: i64)
    ensures
        r == fx_abs_s(a),
{
    if a == i64::MIN {
        i64::MAX
    } else if a < 0 {
        -a
    } else {
        a
    }
}

/// Fixed-point multiplication.
pub fn fx_mul(a: i64, b: i64) -> (r: i64)
    ensures
        r == fx_mul_s(a, b),
{
    let neg = (a < 0) != (b < 0);
    let ma = i64_abs_u(a);
    let mb = i64_abs_u(b);
    proof {
        assert((ma as int) * (mb as int) <= 0xffffffffffffffff * 0xffffffffffffffff)
            by (nonlinear_arith)
            requires
                ma <= 0xffffffffffffffffu64,
                mb <= 0xffffffffffffffffu64;
    }
    let p = (ma as u128) * (mb as u128);
    let q = p / (FX_ONE as u128);
    proof {
        assert(ma as int * mb as int == abs_i((a as int) * (b as int))) by (nonlinear_arith)
            requires
                ma == abs_i(a as int),
                mb == abs_i(b as int);
        assert(q == abs_i((a as int) * (b as int)) / (FX_ONE as int));
    }
    if neg {
        proof {
            if (a as int) * (b as int) >= 0 {
                assert((a as int) * (b as int) == 0) by (nonlinear_arith)
                    requires
                        (a < 0) != (b < 0),
                        (a as int) * (b as int) >= 0;
            }
            assert(tz_div((a as int) * (b as int), FX_ONE as int) == -(q as int));
        }
        clamp_neg(q)
    } else {
        proof {
            if (a as int) * (b as int) < 0 {
                assert(false) by (nonlinear_arith)
                    requires
                        (a < 0) == (b < 0),
                        (a as int) * (b as int) < 0;
            }
            assert(tz_div((a as int) * (b as int), FX_ONE as int) == q as int);
        }
        clamp_pos(q)
    }
}

/// Fixed-point division; division by zero yields zero.
pub fn fx_div(a: i64, b: i64) -> (r: i64)
    ensures
        r == fx_div_s(a, b),
{
    if b == 0 {
        return 0;
    }
    let neg = (a < 0) != (b < 0);
    let ma = i64_abs_u(a);
    let mb = i64_abs_u(b);
    proof {
        assert((ma as int) * (FX_ONE as int) <= 0xffffffffffffffff * 0x100000000)
            by (nonlinear_arith)
            requires
                ma <= 0xffffffffffffffffu64,
                FX_ONE == 0x100000000;
    }
    let p = (ma as u128) * (FX_ONE as u128);
    let q = p / (mb as u128);
    if neg {
        clamp_neg(q)
    } else {
        clamp_pos(q)
    }
}

/// `r` is the integer square root of `n`.
pub open spec fn is_isqrt(n: int, r: int) -> bool {
    r >= 0 && r * r <= n && n < (r + 1) * (r + 1)
}

/// The integer square root of a non-negative integer.
pub open spec fn isqrt_s(n: int) -> int
    recommends
        n >= 0,
{
    choose|r: int| is_isqrt(n, r)
}

/// The integer square root satisfies its defining bounds.
pub proof fn lemma_isqrt(n: int)
    requires
        n >= 0,
    ensures
        is_isqrt(n, isqrt_s(n)),
    decreases n,
{
    if n == 0 {
        assert(is_isqrt(0, 0));
        assert(exists|r: int| is_isqrt(n, r));
    } else {
        lemma_isqrt(n - 1);
        let r = isqrt_s(n - 1);
        if (r + 1) * (r + 1) <= n {
            assert(is_isqrt(n, r + 1)) by (nonlinear_arith)
                requires
                    r >= 0,
                    r * r <= n - 1,
                    n - 1 < (r + 1) * (r + 1),
                    (r + 1) * (r + 1) <= n;
        } else {
            assert(is_isqrt(n, r));
        }
        assert(exists|rr: int| is_isqrt(n, rr));
    }
}

proof fn lemma_isqrt_unique(n: int, r1: int, r2: int)
    by (nonlinear_arith)
    requires
        is_isqrt(n, r1),
        is_isqrt(n, r2),
    ensures
        r1 == r2,
{
}

/// Fixed-point square root: the scaled square root of the scaled input,
/// rounded down; non-positive inputs yield zero.
pub open spec fn fx_sqrt_s(a: i64) -> i64 {
    if a <= 0 {
        0
    } else {
        clip(isqrt_s(a * FX_ONE))
    }
}

/// Square root of a fixed-point scalar.
pub fn fx_sqrt(a: i64) -> (r: i64)
    ensures
        r == fx_sqrt_s(a),
{
    if a <= 0 {
        return 0;
    }
    proof {
        assert((a as int) * (FX_ONE as int) <= 0x7fffffffffffffff * 0x100000000)
            by (nonlinear_arith)
            requires
                0 < a <= 0x7fffffffffffffff,
                FX_ONE == 0x100000000;
    }
    let n = (a as u128) * (FX_ONE as u128);
    let mut lo: u128 = 0;
    let mut hi: u128 = 0x1000000000000;
    proof {
        assert((hi as int) * (hi as int) == 0x1000000000000000000000000)
            by (nonlinear_arith)
            requires
                hi == 0x1000000000000u128;
        assert(n < 0x1000000000000000000000000);
    }
    while hi - lo > 1
        invariant
            lo < hi,
            hi <= 0x1000000000000,
            (lo as int) * (lo as int) <= n as int,
            (n as int) < (hi as int) * (hi as int),
        decreases hi - lo,
    {
        let mid = lo + (hi - lo) / 2;
        proof {
            assert((mid as int) * (mid as int) <= 0x1000000000000 * 0x1000000000000)
                by (nonlinear_arith)
                requires
                    mid <= 0x1000000000000u128;
        }
        if mid * mid <= n {
            lo = mid;
        } else {
            hi = mid;
        }
    }
    proof {
        assert(is_isqrt(n as int, lo as int));
        lemma_isqrt_unique(n as int, lo as int, isqrt_s(n as int));
        assert(lo < 0x1000000000000);
    }
    lo as i64
}

/// Truncated division of a scalar by a positive integer count.
pub open spec fn fx_divn_s(a: i64, n: int) -> i64
    recommends
        n > 0,
{
    clip(tz_div(a as int, n))
}

/// Divide a scalar by a positive integer count, rounding toward zero.
pub fn fx_divn(a: i64, n: i64) -> (r: i64)
    requires
        n > 0,
    ensures
        r == fx_divn_s(a, n as int),
{
    let ma = i64_abs_u(a);
    let q = ma / (n as u64);
    if a < 0 {
        clamp_neg(q as u128)
    } else {
        proof {
            assert(q <= ma);
        }
        q as i64
    }
}

proof fn lemma_neg_floor(t: int, d: int)
    requires
        t > 0,
        d > 0,
    ensures
        (-t) / d == -((t + d - 1) / d),
{
    let q = (t + d - 1) / d;
    let r = (t + d - 1) % d;
    lemma_fundamental_div_mod(t + d - 1, d);
    assert(-t == (-q) * d + (d - 1 - r)) by (nonlinear_arith)
        requires
            t + d - 1 == q * d + r;
    lemma_fundamental_div_mod_converse(-t, d, -q, d - 1 - r);
}

fn floor_div_one(s: i128) -> (r: i64)
    requires
        -0x80000000ffffffffi128 <= s <= 0x80000000ffffffffi128,
    ensures
        r == s as int / (FX_ONE as int),
{
    if s >= 0 {
        let q = (s as u128) / (FX_ONE as u128);
        proof {
            assert(q <= s as u128);
            assert(q * (FX_ONE as int) <= s < (q + 1) * (FX_ONE as int)) by (nonlinear_arith)
                requires
                    q == (s as int) / (FX_ONE as int),
                    s >= 0,
                    FX_ONE == 0x100000000;
            assert(q <= 0x80000000ffffffffu128 / 0x100000000);
        }
        q as i64
    } else {
        let t = (-s) as u128;
        let q = (t + (FX_ONE as u128 - 1)) / (FX_ONE as u128);
        proof {
            lemma_neg_floor(t as int, FX_ONE as int);
            assert(q <= t);
            assert(q * (FX_ONE as int) <= t + FX_ONE - 1 < (q + 1) * (FX_ONE as int))
                by (nonlinear_arith)
                requires
                    q == (t as int + FX_ONE - 1) / (FX_ONE as int),
                    t as int + FX_ONE - 1 >= 0,
                    FX_ONE == 0x100000000;
            assert(q <= 0x100000001u128);
        }
        -(q as i64)
    }
}

/// The integer floor of a scalar: the largest integer at most `a / 2^32`.
pub open spec fn fx_floor_s(a: i64) -> int {
    a as int / (FX_ONE as int)
}

/// Integer floor of a scalar, as a plain (unscaled) integer.
pub fn fx_floor(a: i64) -> (r: i64)
    ensures
        r == fx_floor_s(a),
{
    floor_div_one(a as i128)
}

/// The nearest integer to a scalar, rounding halves up.
pub open spec fn fx_round_s(a: i64) -> int {
    (a + FX_HALF) / (FX_ONE as int)
}

/// Round a scalar to the nearest integer, halves up, as a plain integer.
pub fn fx_round(a: i64) -> (r: i64)
    ensures
        r == fx_round_s(a),
{
    floor_div_one(a as i128 + FX_HALF as i128)
}

/// A plain integer scaled into fixed point, saturating.
pub open spec fn int_to_fx_s(n: int) -> i64 {
    clip(n * (FX_ONE as int))
}

/// Scale a plain integer into fixed point.
pub fn int_to_fx(n: i64) -> (r: i64)
    ensures
        r == int_to_fx_s(n as int),
{
    proof {
        assert(-0x8000000000000000 * 0x100000000 <= (n as int) * (FX_ONE as int)
            <= 0x7fffffffffffffff * 0x100000000) by (nonlinear_arith)
            requires
                -0x8000000000000000 <= n <= 0x7fffffffffffffff,
                FX_ONE == 0x100000000;
    }
    let p = (n as i128) * (FX_ONE as i128);
    if p > i64::MAX as i128 {
        i64::MAX
    } else if p < i64::MIN as i128 {
        i64::MIN
    } else {
        p as i64
    }
}

/// The product of a plain integer count and a scalar, saturating.
pub open spec fn int_mul_s(k: int, c: i64) -> i64 {
    clip(k * c)
}

/// Multiply a scalar by a plain integer count.
pub fn int_mul(k: i64, c: i64) -> (r: i64)
    ensures
        r == int_mul_s(k as int, c),
{
    proof {
        assert(-0x8000000000000000 * 0x8000000000000000 <= (k as int) * (c as int)
            <= 0x8000000000000000 * 0x8000000000000000) by (nonlinear_arith)
            requires
                -0x8000000000000000 <= k <= 0x7fffffffffffffff,
                -0x8000000000000000 <= c <= 0x7fffffffffffffff;
    }
    let p = (k as i128) * (c as i128);
    if p > i64::MAX as i128 {
        i64::MAX
    } else if p < i64::MIN as i128 {
        i64::MIN
    } else {
        p as i64
    }
}

/// A fixed-point power with a plain non-negative integer exponent.
pub open spec fn fx_pow_s(b: i64, n: nat) -> i64
    decreases n,
{
    if n == 0 {
        FX_ONE
    } else {
        fx_mul_s(fx_pow_s(b, (n - 1) as nat), b)
    }
}

/// Raise a scalar to a non-negative integer power.
pub fn fx_pow(b: i64, n: u32) -> (r: i64)
    ensures
        r == fx_pow_s(b, n as nat),
{
    let mut acc: i64 = FX_ONE;
    let mut i: u32 = 0;
    while i < n
        invariant
            i <= n,
            acc == fx_pow_s(b, i as nat),
        decreases n - i,
    {
        acc = fx_mul(acc, b);
        i = i + 1;
    }
    acc
}

/// The representation of pi/2, rounded to the nearest scalar.
pub const FX_HALF_PI: i64 = 6746518852;

/// The degree-nine Taylor polynomial for the sine of a reduced angle.
pub open spec fn sin_poly_s(y: i64) -> i64 {
    let y2 = fx_mul_s(y, y);
    let y3 = fx_mul_s(y2, y);
    let y5 = fx_mul_s(y3, y2);
    let y7 = fx_mul_s(y5, y2);
    let y9 = fx_mul_s(y7, y2);
    fx_add_s(
        fx_sub_s(fx_add_s(fx_sub_s(y, fx_divn_s(y3, 6)), fx_divn_s(y5, 120)), fx_divn_s(y7, 5040)),
        fx_divn_s(y9, 362880),
    )
}

/// The degree-eight Taylor polynomial for the cosine of a reduced angle.
pub open spec fn cos_poly_s(y: i64) -> i64 {
    let y2 = fx_mul_s(y, y);
    let y4 = fx_mul_s(y2, y2);
    let y6 = fx_mul_s(y4, y2);
    let y8 = fx_mul_s(y6, y2);
    fx_add_s(
        fx_sub_s(
            fx_add_s(fx_sub_s(FX_ONE, fx_divn_s(y2, 2)), fx_divn_s(y4, 24)),
            fx_divn_s(y6, 720),
        ),
        fx_divn_s(y8, 40320),
    )
}

/// The number of quarter turns an angle is reduced by: the nearest integer
/// to `x / (pi/2)`.
pub open spec fn red_k_s(x: i64) -> int {
    fx_round_s(fx_div_s(x, FX_HALF_PI))
}

/// The reduced angle left after removing `red_k_s(x)` quarter turns.
pub open spec fn red_y_s(x: i64) -> i64 {
    fx_sub_s(x, int_mul_s(red_k_s(x), FX_HALF_PI))
}

/// The euclidean remainder of the quarter-turn count by four.
pub open spec fn red_quadrant_s(x: i64) -> int {
    red_k_s(x) % 4
}

/// The sine of an angle in radians: quarter-turn range reduction followed by
/// the Taylor polynomial of the reduced angle.
pub open spec fn sin_s(x: i64) -> i64 {
    let q = red_quadrant_s(x);
    let y = red_y_s(x);
    if q == 0 {
        sin_poly_s(y)
    } else if q == 1 {
        cos_poly_s(y)
    } else if q == 2 {
        fx_neg_s(sin_poly_s(y))
    } else {
        fx_neg_s(cos_poly_s(y))
    }
}

/// The cosine of an angle in radians, by the same reduction as `sin_s`.
pub open spec fn cos_s(x: i64) -> i64 {
    let q = red_quadrant_s(x);
    let y = red_y_s(x);
    if q == 0 {
        cos_poly_s(y)
    } else if q == 1 {
        fx_neg_s(sin_poly_s(y))
    } else if q == 2 {
        fx_neg_s(cos_poly_s(y))
    } else {
        sin_poly_s(y)
    }
}

/// The tangent of an angle: its sine over its cosine.
pub open spec fn tan_s(x: i64) -> i64 {
    fx_div_s(sin_s(x), cos_s(x))
}

fn sin_poly(y: i64) -> (r: i64)
    ensures
        r == sin_poly_s(y),
{
    let y2 = fx_mul(y, y);
    let y3 = fx_mul(y2, y);
    let y5 = fx_mul(y3, y2);
    let y7 = fx_mul(y5, y2);
    let y9 = fx_mul(y7, y2);
    fx_add(
        fx_sub(fx_add(fx_sub(y, fx_divn(y3, 6)), fx_divn(y5, 120)), fx_divn(y7, 5040)),
        fx_divn(y9, 362880),
    )
}

fn cos_poly(y: i64) -> (r: i64)
    ensures
        r == cos_poly_s(y),
{
    let y2 = fx_mul(y, y);
    let y4 = fx_mul(y2, y2);
    let y6 = fx_mul(y4, y2);
    let y8 = fx_mul(y6, y2);
    fx_add(
        fx_sub(fx_add(fx_sub(FX_ONE, fx_divn(y2, 2)), fx_divn(y4, 24)), fx_divn(y6, 720)),
        fx_divn(y8, 40320),
    )
}

fn mod4(k: i64) -> (r: i64)
    ensures
        r == k as int % 4,
{
    if k >= 0 {
        let m = (k as u64) % 4;
        m as i64
    } else {
        let t = i64_abs_u(k);
        let qt = t / 4;
        let mt = t % 4;
        proof {
            if mt == 0 {
                lemma_fundamental_div_mod_converse(k as int, 4, -(qt as int), 0);
            } else {
                lemma_fundamental_div_mod_converse(
                    k as int,
                    4,
                    -(qt as int) - 1,
                    4 - mt as int,
                );
            }
        }
        if mt == 0 {
            0
        } else {
            (4 - mt) as i64
        }
    }
}

fn reduce_angle(x: i64) -> (r: (i64, i64))
    ensures
        r.0 == red_quadrant_s(x),
        r.1 == red_y_s(x),
{
    let k = fx_round(fx_div(x, FX_HALF_PI));
    let y = fx_sub(x, int_mul(k, FX_HALF_PI));
    let m = mod4(k);
    (m, y)
}

/// Sine of a fixed-point angle in radians.
pub fn fx_sin(x: i64) -> (r: i64)
    ensures
        r == sin_s(x),
{
    let (q, y) = reduce_angle(x);
    if q == 0 {
        sin_poly(y)
    } else if q == 1 {
        cos_poly(y)
    } else if q == 2 {
        fx_neg(sin_poly(y))
    } else {
        fx_neg(cos_poly(y))
    }
}

/// Cosine of a fixed-point angle in radians.
pub fn fx_cos(x: i64) -> (r: i64)
    ensures
        r == cos_s(x),
{
    let (q, y) = reduce_angle(x);
    if q == 0 {
        cos_poly(y)
    } else if q == 1 {
        fx_neg(sin_poly(y))
    } else if q == 2 {
        fx_neg(cos_poly(y))
    } else {
        sin_poly(y)
    }
}

/// Tangent of a fixed-point angle in radians.
pub fn fx_tan(x: i64) -> (r: i64)
    ensures
        r == tan_s(x),
{
    let s = fx_sin(x);
    let c = fx_cos(x);
    fx_div(s, c)
}

/// Multiplying by the representation of one is exact.
pub proof fn lemma_fx_mul_one(x: i64)
    ensures
        fx_mul_s(x, FX_ONE) == x,
        fx_mul_s(FX_ONE, x) == x,
{
    let one = FX_ONE as int;
    assert((x as int) * one == one * (x as int)) by (nonlinear_arith);
    assert((FX_ONE as int) * (x as int) == (x as int) * one) by (nonlinear_arith)
        requires
            one == FX_ONE as int;
    if x >= 0 {
        lemma_div_multiples_vanish(x as int, one);
        assert(tz_div((x as int) * one, one) == x);
    } else {
        lemma_div_multiples_vanish(-(x as int), one);
        assert(-((x as int) * one) == one * (-(x as int))) by (nonlinear_arith);
        assert(tz_div((x as int) * one, one) == x);
    }
}

/// Dividing by the representation of one is exact.
pub proof fn lemma_fx_div_one(a: i64)
    ensures
        fx_div_s(a, FX_ONE) == a,
{
    let one = FX_ONE as int;
    lemma_div_multiples_vanish(abs_i(a as int), one);
    assert(abs_i(a as int) * one == one * abs_i(a as int)) by (nonlinear_arith);
}

/// Multiplying by zero is exact.
pub proof fn lemma_fx_mul_zero(x: i64)
    ensures
        fx_mul_s(x, 0) == 0,
        fx_mul_s(0, x) == 0,
{
    assert((x as int) * 0 == 0) by (nonlinear_arith);
    assert(0 * (x as int) == 0) by (nonlinear_arith);
    assert(tz_div(0, FX_ONE as int) == 0);
}

/// Approximate equality within `EPSILON`.
pub fn approx_eq(a: i64, b: i64) -> (r: bool)
    ensures
        r == approx_eq_s(a, b),
{
    let d = fx_sub(a, b);
    if d == i64::MIN {
        false
    } else {
        fx_abs(d) < EPSILON
    }
}

} // verus!
