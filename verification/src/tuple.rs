//! Homogeneous four-component tuples: points (`w` = 1) and vectors (`w` = 0).
use crate::fx::{
    abs_i, approx_eq, approx_eq_s, fx_add, fx_add_s, fx_div, fx_div_s, fx_mul, fx_mul_s,
    fx_neg, fx_neg_s, fx_sqrt, fx_sqrt_s, fx_sub, fx_sub_s, isqrt_s, lemma_isqrt, FX_ONE,
    FX_TWO,
};
use vstd::arithmetic::div_mod::lemma_fundamental_div_mod;
use vstd::prelude::*;

verus! {

/// A homogeneous tuple of fixed-point scalars.
#[derive(Debug, Clone, Copy, PartialEq, Eq, Structural)]
pub struct Tuple {
    pub x: i64,
    pub y: i64,
    pub z: i64,
    pub w: i64,
}

/// Component-wise sum.
pub open spec fn tup_add_s(a: Tuple, b: Tuple) -> Tuple {
    Tuple {
        x: fx_add_s(a.x, b.x),
        y: fx_add_s(a.y, b.y),
        z: fx_add_s(a.z, b.z),
        w: fx_add_s(a.w, b.w),
    }
}

/// Component-wise difference.
pub open spec fn tup_sub_s(a: Tuple, b: Tuple) -> Tuple {
    Tuple {
        x: fx_sub_s(a.x, b.x),
        y: fx_sub_s(a.y, b.y),
        z: fx_sub_s(a.z, b.z),
        w: fx_sub_s(a.w, b.w),
    }
}

/// Component-wise negation.
pub open spec fn tup_neg_s(a: Tuple) -> Tuple {
    Tuple { x: fx_neg_s(a.x), y: fx_neg_s(a.y), z: fx_neg_s(a.z), w: fx_neg_s(a.w) }
}

/// Every component scaled by the scalar `s`.
pub open spec fn tup_scale_s(a: Tuple, s: i64) -> Tuple {
    Tuple {
        x: fx_mul_s(a.x, s),
        y: fx_mul_s(a.y, s),
        z: fx_mul_s(a.z, s),
        w: fx_mul_s(a.w, s),
    }
}

/// Every component divided by the scalar `s`.
pub open spec fn tup_div_s(a: Tuple, s: i64) -> Tuple {
    Tuple {
        x: fx_div_s(a.x, s),
        y: fx_div_s(a.y, s),
        z: fx_div_s(a.z, s),
        w: fx_div_s(a.w, s),
    }
}

/// The dot product over all four components.
pub open spec fn dot_s(a: Tuple, b: Tuple) -> i64 {
    fx_add_s(
        fx_add_s(fx_add_s(fx_mul_s(a.x, b.x), fx_mul_s(a.y, b.y)), fx_mul_s(a.z, b.z)),
        fx_mul_s(a.w, b.w),
    )
}

/// The cross product of two vectors; the result is a vector.
pub open spec fn cross_s(a: Tuple, b: Tuple) -> Tuple {
    Tuple {
        x: fx_sub_s(fx_mul_s(a.y, b.z), fx_mul_s(a.z, b.y)),
        y: fx_sub_s(fx_mul_s(a.z, b.x), fx_mul_s(a.x, b.z)),
        z: fx_sub_s(fx_mul_s(a.x, b.y), fx_mul_s(a.y, b.x)),
        w: 0,
    }
}

/// The euclidean norm over all four components.
pub open spec fn magnitude_s(a: Tuple) -> i64 {
    fx_sqrt_s(dot_s(a, a))
}

/// Every component divided by the magnitude (a zero tuple stays zero, since
/// division by zero yields zero).
pub open spec fn normalize_s(a: Tuple) -> Tuple {
    tup_div_s(a, magnitude_s(a))
}

/// The reflection of `v` about the normal `n`:
/// `v - n * (2 * dot(v, n))`.
pub open spec fn reflect_s(v: Tuple, n: Tuple) -> Tuple {
    tup_sub_s(v, tup_scale_s(n, fx_mul_s(FX_TWO, dot_s(v, n))))
}

/// Component-wise approximate equality within `EPSILON`.
pub open spec fn tup_approx_s(a: Tuple, b: Tuple) -> bool {
    approx_eq_s(a.x, b.x) && approx_eq_s(a.y, b.y) && approx_eq_s(a.z, b.z) && approx_eq_s(
        a.w,
        b.w,
    )
}

impl Tuple {
    /// A tuple from its four components.
    pub fn new(x: i64, y: i64, z: i64, w: i64) -> (r: Tuple)
        ensures
            r == (Tuple { x, y, z, w }),
    {
        Tuple { x, y, z, w }
    }

    /// A point: `w` is one.
    pub fn new_point(x: i64, y: i64, z: i64) -> (r: Tuple)
        ensures
            r == (Tuple { x, y, z, w: FX_ONE }),
    {
        Tuple { x, y, z, w: FX_ONE }
    }

    /// A vector: `w` is zero.
    pub fn new_vector(x: i64, y: i64, z: i64) -> (r: Tuple)
        ensures
            r == (Tuple { x, y, z, w: 0i64 }),
    {
        Tuple { x, y, z, w: 0 }
    }

    /// Whether `w` is approximately one.
    pub fn is_point(&self) -> (r: bool)
        ensures
            r == approx_eq_s(self.w, FX_ONE),
    {
        approx_eq(self.w, FX_ONE)
    }

    /// Whether `w` is approximately zero.
    pub fn is_vector(&self) -> (r: bool)
        ensures
            r == approx_eq_s(self.w, 0),
    {
        approx_eq(self.w, 0)
    }

    /// Component-wise sum.
    pub fn add(&self, rhs: &Tuple) -> (r: Tuple)
        ensures
            r == tup_add_s(*self, *rhs),
    {
        Tuple {
            x: fx_add(self.x, rhs.x),
            y: fx_add(self.y, rhs.y),
            z: fx_add(self.z, rhs.z),
            w: fx_add(self.w, rhs.w),
        }
    }

    /// Component-wise difference.
    pub fn sub(&self, rhs: &Tuple) -> (r: Tuple)
        ensures
            r == tup_sub_s(*self, *rhs),
    {
        Tuple {
            x: fx_sub(self.x, rhs.x),
            y: fx_sub(self.y, rhs.y),
            z: fx_sub(self.z, rhs.z),
            w: fx_sub(self.w, rhs.w),
        }
    }

    /// Component-wise negation.
    pub fn neg(&self) -> (r: Tuple)
        ensures
            r == tup_neg_s(*self),
    {
        Tuple { x: fx_neg(self.x), y: fx_neg(self.y), z: fx_neg(self.z), w: fx_neg(self.w) }
    }

    /// This tuple scaled by a scalar.
    pub fn scale(&self, s: i64) -> (r: Tuple)
        ensures
            r == tup_scale_s(*self, s),
    {
        Tuple {
            x: fx_mul(self.x, s),
            y: fx_mul(self.y, s),
            z: fx_mul(self.z, s),
            w: fx_mul(self.w, s),
        }
    }

    /// This tuple divided by a scalar.
    pub fn div_scalar(&self, s: i64) -> (r: Tuple)
        ensures
            r == tup_div_s(*self, s),
    {
        Tuple {
            x: fx_div(self.x, s),
            y: fx_div(self.y, s),
            z: fx_div(self.z, s),
            w: fx_div(self.w, s),
        }
    }

    /// The dot product with another tuple.
    pub fn dot(&self, rhs: &Tuple) -> (r: i64)
        ensures
            r == dot_s(*self, *rhs),
    {
        fx_add(
            fx_add(
                fx_add(fx_mul(self.x, rhs.x), fx_mul(self.y, rhs.y)),
                fx_mul(self.z, rhs.z),
            ),
            fx_mul(self.w, rhs.w),
        )
    }

    /// The cross product with another vector.
    pub fn cross(&self, rhs: &Tuple) -> (r: Tuple)
        ensures
            r == cross_s(*self, *rhs),
    {
        Tuple {
            x: fx_sub(fx_mul(self.y, rhs.z), fx_mul(self.z, rhs.y)),
            y: fx_sub(fx_mul(self.z, rhs.x), fx_mul(self.x, rhs.z)),
            z: fx_sub(fx_mul(self.x, rhs.y), fx_mul(self.y, rhs.x)),
            w: 0,
        }
    }

    /// The euclidean norm of this tuple.
    pub fn magnitude(&self) -> (r: i64)
        ensures
            r == magnitude_s(*self),
    {
        fx_sqrt(self.dot(self))
    }

    /// This tuple scaled to magnitude one (approximately); a zero tuple stays
    /// zero.
    pub fn normalize(&self) -> (r: Tuple)
        ensures
            r == normalize_s(*self),
    {
        let m = self.magnitude();
        self.div_scalar(m)
    }

    /// The reflection of this vector about the normal `n`.
    pub fn reflect(&self, n: &Tuple) -> (r: Tuple)
        ensures
            r == reflect_s(*self, *n),
    {
        let d = fx_mul(FX_TWO, self.dot(n));
        self.sub(&n.scale(d))
    }

    /// Component-wise approximate equality within `EPSILON`.
    pub fn approx_eq(&self, rhs: &Tuple) -> (r: bool)
        ensures
            r == tup_approx_s(*self, *rhs),
    {
        approx_eq(self.x, rhs.x) && approx_eq(self.y, rhs.y) && approx_eq(self.z, rhs.z)
            && approx_eq(self.w, rhs.w)
    }
}

proof fn lemma_div_nonneg(a: int, d: int)
    by (nonlinear_arith)
    requires
        a >= 0,
        d > 0,
    ensures
        a / d >= 0,
        d * (a / d) <= a,
{
}

proof fn lemma_sq_le(a: int, b: int)
    by (nonlinear_arith)
    requires
        0 <= a <= b,
    ensures
        a * a <= b * b,
{
}

proof fn lemma_sq_lt(a: int, b: int)
    by (nonlinear_arith)
    requires
        0 <= a < b,
    ensures
        a * a < b * b,
{
}

/// Scaling a component down by the magnitude: `q` is the scaled quotient,
/// with its square bounded on both sides by the square of the component.
proof fn lemma_component_quotient(b: int, m: int, e: int, q: int)
    requires
        b >= 0,
        m > 0,
        e > 0,
        q == (b * e) / m,
    ensures
        q >= 0,
        q * q * (m * m) <= (b * b) * (e * e),
        (b * b) * (e * e) < (q * q + 2 * q + 1) * (m * m),
{
    lemma_fundamental_div_mod(b * e, m);
    assert(b * e >= 0) by (nonlinear_arith)
        requires
            b >= 0,
            e > 0;
    lemma_div_nonneg(b * e, m);
    let w = (b * e) % m;
    assert(q * m <= b * e < (q + 1) * m) by (nonlinear_arith)
        requires
            b * e == m * q + w,
            0 <= w < m;
    lemma_sq_le(q * m, b * e);
    lemma_sq_lt(b * e, (q + 1) * m);
    assert((q * m) * (q * m) == q * q * (m * m)) by (nonlinear_arith);
    assert((b * e) * (b * e) == (b * b) * (e * e)) by (nonlinear_arith);
    assert(((q + 1) * m) * ((q + 1) * m) == (q * q + 2 * q + 1) * (m * m))
        by (nonlinear_arith);
}

proof fn lemma_quotient_small(q: int, a: int, s: int, m: int, e: int, d0: int)
    requires
        q >= 0,
        a <= s,
        q * q * (m * m) <= a * (e * e),
        s < e * d0 + 3 * e,
        e * d0 < (m + 1) * (m + 1),
        m >= 0x8000000,
        e == 0x100000000,
    ensures
        q <= e + 6400,
{
    let qb = e + 6400;
    if q > qb {
        assert(a * (e * e) <= s * (e * e)) by (nonlinear_arith)
            requires
                a <= s,
                e > 0;
        assert(s * (e * e) < ((m + 1) * (m + 1) + 3 * e) * (e * e)) by (nonlinear_arith)
            requires
                s < e * d0 + 3 * e,
                e > 0,
                e * d0 < (m + 1) * (m + 1);
        assert((qb + 1) * (qb + 1) * (m * m) >= ((m + 1) * (m + 1) + 3 * e) * (e * e))
            by (nonlinear_arith)
            requires
                m >= 0x8000000,
                e == 0x100000000,
                qb == e + 6400;
        assert(q * q * (m * m) >= (qb + 1) * (qb + 1) * (m * m)) by (nonlinear_arith)
            requires
                q >= qb + 1,
                qb > 0,
                m > 0;
        assert(false);
    }
}

/// Normalizing a vector yields a tuple of magnitude one, within `EPSILON`.
///
/// The law holds for vectors whose components are at most 2^13 in absolute
/// value and whose squared magnitude is at least 2^-10 (so the magnitude is
/// at least about 0.032): below that, the truncation error of the squares
/// dominates the magnitude itself and the normalized length drifts beyond
/// the tolerance.
pub proof fn lemma_normalize_unit_magnitude(v: Tuple)
    requires
        v.w == 0,
        -0x200000000000 <= v.x <= 0x200000000000,
        -0x200000000000 <= v.y <= 0x200000000000,
        -0x200000000000 <= v.z <= 0x200000000000,
        dot_s(v, v) >= 0x400000,
    ensures
        approx_eq_s(magnitude_s(normalize_s(v)), FX_ONE),
        FX_ONE - 9 <= magnitude_s(normalize_s(v)) <= FX_ONE + 3251,
        normalize_s(v).w == 0,
        -0x100001900 <= normalize_s(v).x <= 0x100001900,
        -0x100001900 <= normalize_s(v).y <= 0x100001900,
        -0x100001900 <= normalize_s(v).z <= 0x100001900,
{
    let x = v.x as int;
    let y = v.y as int;
    let z = v.z as int;
    let a1 = x * x;
    let a2 = y * y;
    let a3 = z * z;
    assert(0 <= a1 <= 0x40000000000000000000000) by (nonlinear_arith)
        requires
            a1 == x * x,
            -0x200000000000 <= x <= 0x200000000000;
    assert(0 <= a2 <= 0x40000000000000000000000) by (nonlinear_arith)
        requires
            a2 == y * y,
            -0x200000000000 <= y <= 0x200000000000;
    assert(0 <= a3 <= 0x40000000000000000000000) by (nonlinear_arith)
        requires
            a3 == z * z,
            -0x200000000000 <= z <= 0x200000000000;
    let t1 = a1 / 0x100000000;
    let t2 = a2 / 0x100000000;
    let t3 = a3 / 0x100000000;
    lemma_fundamental_div_mod(a1, 0x100000000);
    lemma_fundamental_div_mod(a2, 0x100000000);
    lemma_fundamental_div_mod(a3, 0x100000000);
    assert(0 <= t1 <= 0x400000000000000 && 0x100000000 * t1 <= a1 < 0x100000000 * t1
        + 0x100000000);
    assert(0 <= t2 <= 0x400000000000000 && 0x100000000 * t2 <= a2 < 0x100000000 * t2
        + 0x100000000);
    assert(0 <= t3 <= 0x400000000000000 && 0x100000000 * t3 <= a3 < 0x100000000 * t3
        + 0x100000000);
    assert(fx_mul_s(v.x, v.x) == t1);
    assert(fx_mul_s(v.y, v.y) == t2);
    assert(fx_mul_s(v.z, v.z) == t3);
    assert(fx_mul_s(v.w, v.w) == 0);
    let d0 = dot_s(v, v) as int;
    assert(d0 == t1 + t2 + t3);
    let s = a1 + a2 + a3;
    assert(0x100000000 * d0 <= s < 0x100000000 * d0 + 0x300000000);

    // The magnitude of v.
    let de = d0 * 0x100000000;
    assert(0x40000000000000 <= de <= 0xc00000000000000000000000) by (nonlinear_arith)
        requires
            de == d0 * 0x100000000,
            0x400000 <= d0 <= 0xc00000000000000;
    lemma_isqrt(de);
    let m = isqrt_s(de);
    assert(m >= 0 && m * m <= de && de < (m + 1) * (m + 1));
    assert(m >= 0x8000000) by (nonlinear_arith)
        requires
            m >= 0,
            de < (m + 1) * (m + 1),
            de >= 0x40000000000000;
    assert(m < 0x1000000000000) by (nonlinear_arith)
        requires
            m >= 0,
            m * m <= 0xc00000000000000000000000;
    assert(magnitude_s(v) == m);
    let mm: i64 = magnitude_s(v);

    // The quotients that normalization produces, one per component.
    let b1 = abs_i(x);
    let b2 = abs_i(y);
    let b3 = abs_i(z);
    let q1 = (b1 * 0x100000000) / m;
    let q2 = (b2 * 0x100000000) / m;
    let q3 = (b3 * 0x100000000) / m;
    lemma_component_quotient(b1, m, 0x100000000, q1);
    lemma_component_quotient(b2, m, 0x100000000, q2);
    lemma_component_quotient(b3, m, 0x100000000, q3);
    assert(b1 * b1 == a1) by (nonlinear_arith)
        requires
            b1 == x || b1 == -x,
            a1 == x * x;
    assert(b2 * b2 == a2) by (nonlinear_arith)
        requires
            b2 == y || b2 == -y,
            a2 == y * y;
    assert(b3 * b3 == a3) by (nonlinear_arith)
        requires
            b3 == z || b3 == -z,
            a3 == z * z;

    // Each quotient is at most one plus a small error.
    lemma_quotient_small(q1, a1, s, m, 0x100000000, d0);
    lemma_quotient_small(q2, a2, s, m, 0x100000000, d0);
    lemma_quotient_small(q3, a3, s, m, 0x100000000, d0);
    assert(q1 <= 0x100001900);
    assert(q2 <= 0x100001900);
    assert(q3 <= 0x100001900);

    // The sum of the squared quotients is one, up to a small error.
    let nsum = q1 * q1 + q2 * q2 + q3 * q3;
    assert(nsum * (m * m) <= s * (0x100000000 * 0x100000000)) by (nonlinear_arith)
        requires
            q1 * q1 * (m * m) <= (b1 * b1) * (0x100000000 * 0x100000000),
            q2 * q2 * (m * m) <= (b2 * b2) * (0x100000000 * 0x100000000),
            q3 * q3 * (m * m) <= (b3 * b3) * (0x100000000 * 0x100000000),
            b1 * b1 == a1,
            b2 * b2 == a2,
            b3 * b3 == a3,
            s == a1 + a2 + a3,
            nsum == q1 * q1 + q2 * q2 + q3 * q3;
    assert(s * (0x100000000 * 0x100000000) < (nsum + 2 * (q1 + q2 + q3) + 3) * (m * m))
        by (nonlinear_arith)
        requires
            (b1 * b1) * (0x100000000 * 0x100000000) < (q1 * q1 + 2 * q1 + 1) * (m * m),
            (b2 * b2) * (0x100000000 * 0x100000000) < (q2 * q2 + 2 * q2 + 1) * (m * m),
            (b3 * b3) * (0x100000000 * 0x100000000) < (q3 * q3 + 2 * q3 + 1) * (m * m),
            b1 * b1 == a1,
            b2 * b2 == a2,
            b3 * b3 == a3,
            s == a1 + a2 + a3,
            nsum == q1 * q1 + q2 * q2 + q3 * q3;
    assert(nsum <= 0x100000000 * 0x100000000 + 6500 * 0x100000000) by (nonlinear_arith)
        requires
            nsum * (m * m) <= s * (0x100000000 * 0x100000000),
            s < 0x100000000 * d0 + 0x300000000,
            0x100000000 * d0 < (m + 1) * (m + 1),
            m >= 0x8000000;
    assert(nsum > 0x100000000 * 0x100000000 - 2 * (q1 + q2 + q3) - 3) by (nonlinear_arith)
        requires
            s * (0x100000000 * 0x100000000) < (nsum + 2 * (q1 + q2 + q3) + 3) * (m * m),
            0x100000000 * d0 <= s,
            m * m <= d0 * 0x100000000,
            m > 0;
    assert(nsum > 0x100000000 * 0x100000000 - 7 * 0x100000000) by {
        assert(2 * (q1 + q2 + q3) + 3 <= 6 * 0x100001900 + 3);
    }

    // The normalized components and their squares.
    let n = normalize_s(v);
    assert(n.x == fx_div_s(v.x, mm));
    assert(n.y == fx_div_s(v.y, mm));
    assert(n.z == fx_div_s(v.z, mm));
    assert(n.w == fx_div_s(0i64, mm));
    assert(n.w == 0);
    assert(n.x as int == q1 || n.x as int == -q1);
    assert(n.y as int == q2 || n.y as int == -q2);
    assert(n.z as int == q3 || n.z as int == -q3);
    assert((n.x as int) * (n.x as int) == q1 * q1) by (nonlinear_arith)
        requires
            n.x as int == q1 || n.x as int == -q1;
    assert((n.y as int) * (n.y as int) == q2 * q2) by (nonlinear_arith)
        requires
            n.y as int == q2 || n.y as int == -q2;
    assert((n.z as int) * (n.z as int) == q3 * q3) by (nonlinear_arith)
        requires
            n.z as int == q3 || n.z as int == -q3;
    let u1 = (q1 * q1) / 0x100000000;
    let u2 = (q2 * q2) / 0x100000000;
    let u3 = (q3 * q3) / 0x100000000;
    lemma_fundamental_div_mod(q1 * q1, 0x100000000);
    lemma_fundamental_div_mod(q2 * q2, 0x100000000);
    lemma_fundamental_div_mod(q3 * q3, 0x100000000);
    assert(0 <= q1 * q1 <= 0x100001900 * 0x100001900) by (nonlinear_arith)
        requires
            0 <= q1 <= 0x100001900;
    assert(0 <= q2 * q2 <= 0x100001900 * 0x100001900) by (nonlinear_arith)
        requires
            0 <= q2 <= 0x100001900;
    assert(0 <= q3 * q3 <= 0x100001900 * 0x100001900) by (nonlinear_arith)
        requires
            0 <= q3 <= 0x100001900;
    assert(0 <= u1 <= 0x100004000 && 0x100000000 * u1 <= q1 * q1 < 0x100000000 * u1
        + 0x100000000);
    assert(0 <= u2 <= 0x100004000 && 0x100000000 * u2 <= q2 * q2 < 0x100000000 * u2
        + 0x100000000);
    assert(0 <= u3 <= 0x100004000 && 0x100000000 * u3 <= q3 * q3 < 0x100000000 * u3
        + 0x100000000);
    assert(fx_mul_s(n.x, n.x) == u1);
    assert(fx_mul_s(n.y, n.y) == u2);
    assert(fx_mul_s(n.z, n.z) == u3);
    assert(fx_mul_s(n.w, n.w) == 0);
    let dn = dot_s(n, n) as int;
    assert(dn == u1 + u2 + u3);
    assert(0x100000000 * dn <= nsum < 0x100000000 * dn + 0x300000000);
    assert(dn <= 0x100001964);
    assert(dn >= 0xfffffff7);

    // The magnitude of the normalized tuple.
    let dne = dn * 0x100000000;
    assert(0xfffffff7 * 0x100000000 <= dne <= 0x100001964 * 0x100000000)
        by (nonlinear_arith)
        requires
            dne == dn * 0x100000000,
            0xfffffff7 <= dn <= 0x100001964;
    lemma_isqrt(dne);
    let g = isqrt_s(dne);
    assert(g >= 0 && g * g <= dne && dne < (g + 1) * (g + 1));
    assert(g <= 0x100000cb3) by (nonlinear_arith)
        requires
            g >= 0,
            g * g <= dne,
            dne <= 0x100001964 * 0x100000000;
    assert(g >= 0xfffffff7) by (nonlinear_arith)
        requires
            dne < (g + 1) * (g + 1),
            dne >= 0xfffffff7 * 0x100000000,
            g >= 0;
    assert(magnitude_s(n) == g);
    assert(abs_i(magnitude_s(n) - FX_ONE) < crate::fx::EPSILON);
}

proof fn lemma_div_near_one(c: i64, g: i64)
    requires
        -0x100001900 <= c <= 0x100001900,
        0xfffffff7 <= g <= 0x100000cb3,
    ensures
        abs_i(fx_div_s(c, g) as int - c) <= 3300,
{
    let b = abs_i(c as int);
    let q = (b * 0x100000000) / (g as int);
    lemma_fundamental_div_mod(b * 0x100000000, g as int);
    assert(b * 0x100000000 >= 0) by (nonlinear_arith)
        requires
            b >= 0;
    lemma_div_nonneg(b * 0x100000000, g as int);
    let w = (b * 0x100000000) % (g as int);
    assert(q <= b + 10) by (nonlinear_arith)
        requires
            b * 0x100000000 == (g as int) * q + w,
            0 <= w,
            0 <= b <= 0x100001900,
            0xfffffff7 <= g as int,
            q >= 0;
    assert(q >= b - 3255) by (nonlinear_arith)
        requires
            b * 0x100000000 == (g as int) * q + w,
            w < g as int,
            0 <= b <= 0x100001900,
            0xfffffff7 <= g as int <= 0x100000cb3,
            q >= 0;
    if c < 0 {
        assert(fx_div_s(c, g) == crate::fx::clip(-q));
    } else {
        assert(fx_div_s(c, g) == crate::fx::clip(q));
    }
}

/// Normalizing is idempotent within `EPSILON`: normalizing an already
/// normalized vector moves every component by less than the tolerance.
///
/// The bounds on the input are those of `lemma_normalize_unit_magnitude`.
pub proof fn lemma_normalize_idempotent(v: Tuple)
    requires
        v.w == 0,
        -0x200000000000 <= v.x <= 0x200000000000,
        -0x200000000000 <= v.y <= 0x200000000000,
        -0x200000000000 <= v.z <= 0x200000000000,
        dot_s(v, v) >= 0x400000,
    ensures
        tup_approx_s(normalize_s(normalize_s(v)), normalize_s(v)),
{
    lemma_normalize_unit_magnitude(v);
    let n = normalize_s(v);
    let g = magnitude_s(n);
    assert(normalize_s(n) == tup_div_s(n, g));
    lemma_div_near_one(n.x, g);
    lemma_div_near_one(n.y, g);
    lemma_div_near_one(n.z, g);
    lemma_div_near_one(n.w, g);
}

} // verus!
