//! Square matrices of fixed-point scalars; 4x4 matrices double as the
//! affine transforms of the scene.
//!
//! Determinants, cofactors and inverses follow cofactor expansion through
//! the smaller sizes, and every operation is mirrored exactly by a spec
//! function over the same saturating fixed-point arithmetic.
use crate::fx::{
    approx_eq, approx_eq_s, cos_s, fx_add, fx_add_s, fx_cos, fx_div, fx_div_s, fx_mul,
    fx_mul_s, fx_neg, fx_neg_s, fx_sin, fx_sub, fx_sub_s, sin_s, FX_ONE,
};
use crate::tuple::{cross_s, normalize_s, tup_sub_s, Tuple};
use vstd::prelude::*;

verus! {

/// A 2x2 matrix of fixed-point scalars.
#[derive(Debug, Clone, Copy, PartialEq, Eq, Structural)]
pub struct Matrix2 {
    pub m00: i64,
    pub m01: i64,
    pub m10: i64,
    pub m11: i64,
}

/// A 3x3 matrix of fixed-point scalars.
#[derive(Debug, Clone, Copy, PartialEq, Eq, Structural)]
pub struct Matrix3 {
    pub m00: i64,
    pub m01: i64,
    pub m02: i64,
    pub m10: i64,
    pub m11: i64,
    pub m12: i64,
    pub m20: i64,
    pub m21: i64,
    pub m22: i64,
}

/// A 4x4 matrix of fixed-point scalars.
#[derive(Debug, Clone, Copy, PartialEq, Eq, Structural)]
pub struct Matrix4 {
    pub m00: i64,
    pub m01: i64,
    pub m02: i64,
    pub m03: i64,
    pub m10: i64,
    pub m11: i64,
    pub m12: i64,
    pub m13: i64,
    pub m20: i64,
    pub m21: i64,
    pub m22: i64,
    pub m23: i64,
    pub m30: i64,
    pub m31: i64,
    pub m32: i64,
    pub m33: i64,
}

/// The matrix holding the entries of `rows`, row-major.
pub open spec fn from_rows2_s(rows: [[i64; 2]; 2]) -> Matrix2 {
    Matrix2 {
        m00: rows[0][0],
        m01: rows[0][1],
        m10: rows[1][0],
        m11: rows[1][1],
    }
}

/// The matrix holding the entries of `rows`, row-major.
pub open spec fn from_rows3_s(rows: [[i64; 3]; 3]) -> Matrix3 {
    Matrix3 {
        m00: rows[0][0],
        m01: rows[0][1],
        m02: rows[0][2],
        m10: rows[1][0],
        m11: rows[1][1],
        m12: rows[1][2],
        m20: rows[2][0],
        m21: rows[2][1],
        m22: rows[2][2],
    }
}

/// The matrix holding the entries of `rows`, row-major.
pub open spec fn from_rows4_s(rows: [[i64; 4]; 4]) -> Matrix4 {
    Matrix4 {
        m00: rows[0][0],
        m01: rows[0][1],
        m02: rows[0][2],
        m03: rows[0][3],
        m10: rows[1][0],
        m11: rows[1][1],
        m12: rows[1][2],
        m13: rows[1][3],
        m20: rows[2][0],
        m21: rows[2][1],
        m22: rows[2][2],
        m23: rows[2][3],
        m30: rows[3][0],
        m31: rows[3][1],
        m32: rows[3][2],
        m33: rows[3][3],
    }
}

/// The determinant of a 2x2 matrix.
pub open spec fn det2_s(m: Matrix2) -> i64 {
    fx_sub_s(fx_mul_s(m.m00, m.m11), fx_mul_s(m.m01, m.m10))
}

/// The 2x2 matrix left after deleting row `r` and column `c`.
pub open spec fn sub3_s(m: Matrix3, r: int, c: int) -> Matrix2
    recommends
        0 <= r < 3,
        0 <= c < 3,
{
    if r == 0 && c == 0 {
        Matrix2 { m00: m.m11, m01: m.m12, m10: m.m21, m11: m.m22 }
    } else if r == 0 && c == 1 {
        Matrix2 { m00: m.m10, m01: m.m12, m10: m.m20, m11: m.m22 }
    } else if r == 0 && c == 2 {
        Matrix2 { m00: m.m10, m01: m.m11, m10: m.m20, m11: m.m21 }
    } else if r == 1 && c == 0 {
        Matrix2 { m00: m.m01, m01: m.m02, m10: m.m21, m11: m.m22 }
    } else if r == 1 && c == 1 {
        Matrix2 { m00: m.m00, m01: m.m02, m10: m.m20, m11: m.m22 }
    } else if r == 1 && c == 2 {
        Matrix2 { m00: m.m00, m01: m.m01, m10: m.m20, m11: m.m21 }
    } else if r == 2 && c == 0 {
        Matrix2 { m00: m.m01, m01: m.m02, m10: m.m11, m11: m.m12 }
    } else if r == 2 && c == 1 {
        Matrix2 { m00: m.m00, m01: m.m02, m10: m.m10, m11: m.m12 }
    } else {
        Matrix2 { m00: m.m00, m01: m.m01, m10: m.m10, m11: m.m11 }
    }
}

/// The 3x3 matrix left after deleting row `r` and column `c`.
pub open spec fn sub4_s(m: Matrix4, r: int, c: int) -> Matrix3
    recommends
        0 <= r < 4,
        0 <= c < 4,
{
    if r == 0 && c == 0 {
        Matrix3 { m00: m.m11, m01: m.m12, m02: m.m13, m10: m.m21, m11: m.m22, m12: m.m23, m20: m.m31, m21: m.m32, m22: m.m33 }
    } else if r == 0 && c == 1 {
        Matrix3 { m00: m.m10, m01: m.m12, m02: m.m13, m10: m.m20, m11: m.m22, m12: m.m23, m20: m.m30, m21: m.m32, m22: m.m33 }
    } else if r == 0 && c == 2 {
        Matrix3 { m00: m.m10, m01: m.m11, m02: m.m13, m10: m.m20, m11: m.m21, m12: m.m23, m20: m.m30, m21: m.m31, m22: m.m33 }
    } else if r == 0 && c == 3 {
        Matrix3 { m00: m.m10, m01: m.m11, m02: m.m12, m10: m.m20, m11: m.m21, m12: m.m22, m20: m.m30, m21: m.m31, m22: m.m32 }
    } else if r == 1 && c == 0 {
        Matrix3 { m00: m.m01, m01: m.m02, m02: m.m03, m10: m.m21, m11: m.m22, m12: m.m23, m20: m.m31, m21: m.m32, m22: m.m33 }
    } else if r == 1 && c == 1 {
        Matrix3 { m00: m.m00, m01: m.m02, m02: m.m03, m10: m.m20, m11: m.m22, m12: m.m23, m20: m.m30, m21: m.m32, m22: m.m33 }
    } else if r == 1 && c == 2 {
        Matrix3 { m00: m.m00, m01: m.m01, m02: m.m03, m10: m.m20, m11: m.m21, m12: m.m23, m20: m.m30, m21: m.m31, m22: m.m33 }
    } else if r == 1 && c == 3 {
        Matrix3 { m00: m.m00, m01: m.m01, m02: m.m02, m10: m.m20, m11: m.m21, m12: m.m22, m20: m.m30, m21: m.m31, m22: m.m32 }
    } else if r == 2 && c == 0 {
        Matrix3 { m00: m.m01, m01: m.m02, m02: m.m03, m10: m.m11, m11: m.m12, m12: m.m13, m20: m.m31, m21: m.m32, m22: m.m33 }
    } else if r == 2 && c == 1 {
        Matrix3 { m00: m.m00, m01: m.m02, m02: m.m03, m10: m.m10, m11: m.m12, m12: m.m13, m20: m.m30, m21: m.m32, m22: m.m33 }
    } else if r == 2 && c == 2 {
        Matrix3 { m00: m.m00, m01: m.m01, m02: m.m03, m10: m.m10, m11: m.m11, m12: m.m13, m20: m.m30, m21: m.m31, m22: m.m33 }
    } else if r == 2 && c == 3 {
        Matrix3 { m00: m.m00, m01: m.m01, m02: m.m02, m10: m.m10, m11: m.m11, m12: m.m12, m20: m.m30, m21: m.m31, m22: m.m32 }
    } else if r == 3 && c == 0 {
        Matrix3 { m00: m.m01, m01: m.m02, m02: m.m03, m10: m.m11, m11: m.m12, m12: m.m13, m20: m.m21, m21: m.m22, m22: m.m23 }
    } else if r == 3 && c == 1 {
        Matrix3 { m00: m.m00, m01: m.m02, m02: m.m03, m10: m.m10, m11: m.m12, m12: m.m13, m20: m.m20, m21: m.m22, m22: m.m23 }
    } else if r == 3 && c == 2 {
        Matrix3 { m00: m.m00, m01: m.m01, m02: m.m03, m10: m.m10, m11: m.m11, m12: m.m13, m20: m.m20, m21: m.m21, m22: m.m23 }
    } else {
        Matrix3 { m00: m.m00, m01: m.m01, m02: m.m02, m10: m.m10, m11: m.m11, m12: m.m12, m20: m.m20, m21: m.m21, m22: m.m22 }
    }
}

/// The minor of a 3x3 matrix: the determinant of the submatrix.
pub open spec fn minor3_s(m: Matrix3, r: int, c: int) -> i64 {
    det2_s(sub3_s(m, r, c))
}

/// The cofactor of a 3x3 matrix: the minor, negated on odd positions.
pub open spec fn cof3_s(m: Matrix3, r: int, c: int) -> i64 {
    if (r + c) % 2 == 0 {
        minor3_s(m, r, c)
    } else {
        fx_neg_s(minor3_s(m, r, c))
    }
}

/// The determinant of a 3x3 matrix by cofactor expansion along row zero.
pub open spec fn det3_s(m: Matrix3) -> i64 {
    fx_add_s(
        fx_add_s(fx_mul_s(m.m00, cof3_s(m, 0, 0)), fx_mul_s(m.m01, cof3_s(m, 0, 1))),
        fx_mul_s(m.m02, cof3_s(m, 0, 2)),
    )
}

/// The minor of a 4x4 matrix: the determinant of the submatrix.
pub open spec fn minor4_s(m: Matrix4, r: int, c: int) -> i64 {
    det3_s(sub4_s(m, r, c))
}

/// The cofactor of a 4x4 matrix: the minor, negated on odd positions.
pub open spec fn cof4_s(m: Matrix4, r: int, c: int) -> i64 {
    if (r + c) % 2 == 0 {
        minor4_s(m, r, c)
    } else {
        fx_neg_s(minor4_s(m, r, c))
    }
}

/// The determinant of a 4x4 matrix by cofactor expansion along row zero.
pub open spec fn det4_s(m: Matrix4) -> i64 {
    fx_add_s(
        fx_add_s(
            fx_add_s(fx_mul_s(m.m00, cof4_s(m, 0, 0)), fx_mul_s(m.m01, cof4_s(m, 0, 1))),
            fx_mul_s(m.m02, cof4_s(m, 0, 2)),
        ),
        fx_mul_s(m.m03, cof4_s(m, 0, 3)),
    )
}

/// The transpose of a 4x4 matrix.
pub open spec fn transpose4_s(m: Matrix4) -> Matrix4 {
    Matrix4 { m00: m.m00, m01: m.m10, m02: m.m20, m03: m.m30, m10: m.m01, m11: m.m11, m12: m.m21, m13: m.m31, m20: m.m02, m21: m.m12, m22: m.m22, m23: m.m32, m30: m.m03, m31: m.m13, m32: m.m23, m33: m.m33 }
}

/// The matrix product of two 4x4 matrices, row by column.
pub open spec fn mat4_mul_s(a: Matrix4, b: Matrix4) -> Matrix4 {
    Matrix4 {
        m00: fx_add_s(fx_add_s(fx_add_s(fx_mul_s(a.m00, b.m00), fx_mul_s(a.m01, b.m10)), fx_mul_s(a.m02, b.m20)), fx_mul_s(a.m03, b.m30)),
        m01: fx_add_s(fx_add_s(fx_add_s(fx_mul_s(a.m00, b.m01), fx_mul_s(a.m01, b.m11)), fx_mul_s(a.m02, b.m21)), fx_mul_s(a.m03, b.m31)),
        m02: fx_add_s(fx_add_s(fx_add_s(fx_mul_s(a.m00, b.m02), fx_mul_s(a.m01, b.m12)), fx_mul_s(a.m02, b.m22)), fx_mul_s(a.m03, b.m32)),
        m03: fx_add_s(fx_add_s(fx_add_s(fx_mul_s(a.m00, b.m03), fx_mul_s(a.m01, b.m13)), fx_mul_s(a.m02, b.m23)), fx_mul_s(a.m03, b.m33)),
        m10: fx_add_s(fx_add_s(fx_add_s(fx_mul_s(a.m10, b.m00), fx_mul_s(a.m11, b.m10)), fx_mul_s(a.m12, b.m20)), fx_mul_s(a.m13, b.m30)),
        m11: fx_add_s(fx_add_s(fx_add_s(fx_mul_s(a.m10, b.m01), fx_mul_s(a.m11, b.m11)), fx_mul_s(a.m12, b.m21)), fx_mul_s(a.m13, b.m31)),
        m12: fx_add_s(fx_add_s(fx_add_s(fx_mul_s(a.m10, b.m02), fx_mul_s(a.m11, b.m12)), fx_mul_s(a.m12, b.m22)), fx_mul_s(a.m13, b.m32)),
        m13: fx_add_s(fx_add_s(fx_add_s(fx_mul_s(a.m10, b.m03), fx_mul_s(a.m11, b.m13)), fx_mul_s(a.m12, b.m23)), fx_mul_s(a.m13, b.m33)),
        m20: fx_add_s(fx_add_s(fx_add_s(fx_mul_s(a.m20, b.m00), fx_mul_s(a.m21, b.m10)), fx_mul_s(a.m22, b.m20)), fx_mul_s(a.m23, b.m30)),
        m21: fx_add_s(fx_add_s(fx_add_s(fx_mul_s(a.m20, b.m01), fx_mul_s(a.m21, b.m11)), fx_mul_s(a.m22, b.m21)), fx_mul_s(a.m23, b.m31)),
        m22: fx_add_s(fx_add_s(fx_add_s(fx_mul_s(a.m20, b.m02), fx_mul_s(a.m21, b.m12)), fx_mul_s(a.m22, b.m22)), fx_mul_s(a.m23, b.m32)),
        m23: fx_add_s(fx_add_s(fx_add_s(fx_mul_s(a.m20, b.m03), fx_mul_s(a.m21, b.m13)), fx_mul_s(a.m22, b.m23)), fx_mul_s(a.m23, b.m33)),
        m30: fx_add_s(fx_add_s(fx_add_s(fx_mul_s(a.m30, b.m00), fx_mul_s(a.m31, b.m10)), fx_mul_s(a.m32, b.m20)), fx_mul_s(a.m33, b.m30)),
        m31: fx_add_s(fx_add_s(fx_add_s(fx_mul_s(a.m30, b.m01), fx_mul_s(a.m31, b.m11)), fx_mul_s(a.m32, b.m21)), fx_mul_s(a.m33, b.m31)),
        m32: fx_add_s(fx_add_s(fx_add_s(fx_mul_s(a.m30, b.m02), fx_mul_s(a.m31, b.m12)), fx_mul_s(a.m32, b.m22)), fx_mul_s(a.m33, b.m32)),
        m33: fx_add_s(fx_add_s(fx_add_s(fx_mul_s(a.m30, b.m03), fx_mul_s(a.m31, b.m13)), fx_mul_s(a.m32, b.m23)), fx_mul_s(a.m33, b.m33)),
    }
}

/// A 4x4 matrix applied to a tuple.
pub open spec fn mat4_mul_tup_s(m: Matrix4, t: Tuple) -> Tuple {
    Tuple {
        x: fx_add_s(fx_add_s(fx_add_s(fx_mul_s(m.m00, t.x), fx_mul_s(m.m01, t.y)), fx_mul_s(m.m02, t.z)), fx_mul_s(m.m03, t.w)),
        y: fx_add_s(fx_add_s(fx_add_s(fx_mul_s(m.m10, t.x), fx_mul_s(m.m11, t.y)), fx_mul_s(m.m12, t.z)), fx_mul_s(m.m13, t.w)),
        z: fx_add_s(fx_add_s(fx_add_s(fx_mul_s(m.m20, t.x), fx_mul_s(m.m21, t.y)), fx_mul_s(m.m22, t.z)), fx_mul_s(m.m23, t.w)),
        w: fx_add_s(fx_add_s(fx_add_s(fx_mul_s(m.m30, t.x), fx_mul_s(m.m31, t.y)), fx_mul_s(m.m32, t.z)), fx_mul_s(m.m33, t.w)),
    }
}

/// The inverse of a 4x4 matrix: each entry is the opposite-position
/// cofactor divided by the determinant.
pub open spec fn inverse4_s(m: Matrix4) -> Matrix4
    recommends
        det4_s(m) != 0,
{
    Matrix4 {
        m00: fx_div_s(cof4_s(m, 0, 0), det4_s(m)),
        m01: fx_div_s(cof4_s(m, 1, 0), det4_s(m)),
        m02: fx_div_s(cof4_s(m, 2, 0), det4_s(m)),
        m03: fx_div_s(cof4_s(m, 3, 0), det4_s(m)),
        m10: fx_div_s(cof4_s(m, 0, 1), det4_s(m)),
        m11: fx_div_s(cof4_s(m, 1, 1), det4_s(m)),
        m12: fx_div_s(cof4_s(m, 2, 1), det4_s(m)),
        m13: fx_div_s(cof4_s(m, 3, 1), det4_s(m)),
        m20: fx_div_s(cof4_s(m, 0, 2), det4_s(m)),
        m21: fx_div_s(cof4_s(m, 1, 2), det4_s(m)),
        m22: fx_div_s(cof4_s(m, 2, 2), det4_s(m)),
        m23: fx_div_s(cof4_s(m, 3, 2), det4_s(m)),
        m30: fx_div_s(cof4_s(m, 0, 3), det4_s(m)),
        m31: fx_div_s(cof4_s(m, 1, 3), det4_s(m)),
        m32: fx_div_s(cof4_s(m, 2, 3), det4_s(m)),
        m33: fx_div_s(cof4_s(m, 3, 3), det4_s(m)),
    }
}

/// The identity transform.
pub open spec fn identity_s() -> Matrix4 {
    Matrix4 { m00: FX_ONE, m01: 0, m02: 0, m03: 0, m10: 0, m11: FX_ONE, m12: 0, m13: 0, m20: 0, m21: 0, m22: FX_ONE, m23: 0, m30: 0, m31: 0, m32: 0, m33: FX_ONE }
}

/// The translation by `(x, y, z)`.
pub open spec fn translation_s(x: i64, y: i64, z: i64) -> Matrix4 {
    Matrix4 { m00: FX_ONE, m01: 0, m02: 0, m03: x, m10: 0, m11: FX_ONE, m12: 0, m13: y, m20: 0, m21: 0, m22: FX_ONE, m23: z, m30: 0, m31: 0, m32: 0, m33: FX_ONE }
}

/// The scaling by `(x, y, z)`.
pub open spec fn scaling_s(x: i64, y: i64, z: i64) -> Matrix4 {
    Matrix4 { m00: x, m01: 0, m02: 0, m03: 0, m10: 0, m11: y, m12: 0, m13: 0, m20: 0, m21: 0, m22: z, m23: 0, m30: 0, m31: 0, m32: 0, m33: FX_ONE }
}

/// The right-handed rotation about the x axis by `r` radians.
pub open spec fn rotation_x_s(r: i64) -> Matrix4 {
    Matrix4 { m00: FX_ONE, m01: 0, m02: 0, m03: 0, m10: 0, m11: cos_s(r), m12: fx_neg_s(sin_s(r)), m13: 0, m20: 0, m21: sin_s(r), m22: cos_s(r), m23: 0, m30: 0, m31: 0, m32: 0, m33: FX_ONE }
}

/// The right-handed rotation about the y axis by `r` radians.
pub open spec fn rotation_y_s(r: i64) -> Matrix4 {
    Matrix4 { m00: cos_s(r), m01: 0, m02: sin_s(r), m03: 0, m10: 0, m11: FX_ONE, m12: 0, m13: 0, m20: fx_neg_s(sin_s(r)), m21: 0, m22: cos_s(r), m23: 0, m30: 0, m31: 0, m32: 0, m33: FX_ONE }
}

/// The right-handed rotation about the z axis by `r` radians.
pub open spec fn rotation_z_s(r: i64) -> Matrix4 {
    Matrix4 { m00: cos_s(r), m01: fx_neg_s(sin_s(r)), m02: 0, m03: 0, m10: sin_s(r), m11: cos_s(r), m12: 0, m13: 0, m20: 0, m21: 0, m22: FX_ONE, m23: 0, m30: 0, m31: 0, m32: 0, m33: FX_ONE }
}

/// The shear with the six coefficients of each axis in terms of the others.
pub open spec fn shearing_s(xy: i64, xz: i64, yx: i64, yz: i64, zx: i64, zy: i64) -> Matrix4 {
    Matrix4 { m00: FX_ONE, m01: xy, m02: xz, m03: 0, m10: yx, m11: FX_ONE, m12: yz, m13: 0, m20: zx, m21: zy, m22: FX_ONE, m23: 0, m30: 0, m31: 0, m32: 0, m33: FX_ONE }
}

/// The camera-to-world view transform built from an eye point, a target
/// point and an up hint.
pub open spec fn view_transform_s(from: Tuple, to: Tuple, up: Tuple) -> Matrix4 {
    let forward = normalize_s(tup_sub_s(to, from));
    let upn = normalize_s(up);
    let left = cross_s(forward, upn);
    let true_up = cross_s(left, forward);
    let orientation = Matrix4 {
        m00: left.x, m01: left.y, m02: left.z, m03: 0,
        m10: true_up.x, m11: true_up.y, m12: true_up.z, m13: 0,
        m20: fx_neg_s(forward.x), m21: fx_neg_s(forward.y), m22: fx_neg_s(forward.z), m23: 0,
        m30: 0, m31: 0, m32: 0, m33: FX_ONE,
    };
    mat4_mul_s(orientation, translation_s(fx_neg_s(from.x), fx_neg_s(from.y), fx_neg_s(from.z)))
}

/// Entry-wise approximate equality within `EPSILON`.
pub open spec fn mat2_approx_s(a: Matrix2, b: Matrix2) -> bool {
    approx_eq_s(a.m00, b.m00) && approx_eq_s(a.m01, b.m01) && approx_eq_s(a.m10, b.m10) && approx_eq_s(a.m11, b.m11)
}

/// Entry-wise approximate equality within `EPSILON`.
pub open spec fn mat3_approx_s(a: Matrix3, b: Matrix3) -> bool {
    approx_eq_s(a.m00, b.m00) && approx_eq_s(a.m01, b.m01) && approx_eq_s(a.m02, b.m02) && approx_eq_s(a.m10, b.m10) && approx_eq_s(a.m11, b.m11) && approx_eq_s(a.m12, b.m12) && approx_eq_s(a.m20, b.m20) && approx_eq_s(a.m21, b.m21) && approx_eq_s(a.m22, b.m22)
}

/// Entry-wise approximate equality within `EPSILON`.
pub open spec fn mat4_approx_s(a: Matrix4, b: Matrix4) -> bool {
    approx_eq_s(a.m00, b.m00) && approx_eq_s(a.m01, b.m01) && approx_eq_s(a.m02, b.m02) && approx_eq_s(a.m03, b.m03) && approx_eq_s(a.m10, b.m10) && approx_eq_s(a.m11, b.m11) && approx_eq_s(a.m12, b.m12) && approx_eq_s(a.m13, b.m13) && approx_eq_s(a.m20, b.m20) && approx_eq_s(a.m21, b.m21) && approx_eq_s(a.m22, b.m22) && approx_eq_s(a.m23, b.m23) && approx_eq_s(a.m30, b.m30) && approx_eq_s(a.m31, b.m31) && approx_eq_s(a.m32, b.m32) && approx_eq_s(a.m33, b.m33)
}

impl Matrix2 {
    /// A matrix from row-major entries.
    pub fn new(rows: [[i64; 2]; 2]) -> (r: Matrix2)
        ensures
            r == from_rows2_s(rows),
    {
        Matrix2 {
            m00: rows[0][0],
            m01: rows[0][1],
            m10: rows[1][0],
            m11: rows[1][1],
        }
    }

    /// The determinant.
    pub fn determinant(&self) -> (r: i64)
        ensures
            r == det2_s(*self),
    {
        fx_sub(fx_mul(self.m00, self.m11), fx_mul(self.m01, self.m10))
    }

    /// Entry-wise approximate equality within `EPSILON`.
    pub fn approx_eq(&self, rhs: &Matrix2) -> (r: bool)
        ensures
            r == mat2_approx_s(*self, *rhs),
    {
        approx_eq(self.m00, rhs.m00) && approx_eq(self.m01, rhs.m01) && approx_eq(self.m10, rhs.m10) && approx_eq(self.m11, rhs.m11)
    }
}

impl Matrix3 {
    /// A matrix from row-major entries.
    pub fn new(rows: [[i64; 3]; 3]) -> (r: Matrix3)
        ensures
            r == from_rows3_s(rows),
    {
        Matrix3 {
            m00: rows[0][0],
            m01: rows[0][1],
            m02: rows[0][2],
            m10: rows[1][0],
            m11: rows[1][1],
            m12: rows[1][2],
            m20: rows[2][0],
            m21: rows[2][1],
            m22: rows[2][2],
        }
    }

    /// The 2x2 matrix left after deleting `row` and `column`.
    pub fn submatrix(&self, row: usize, column: usize) -> (r: Matrix2)
        requires
            row < 3,
            column < 3,
        ensures
            r == sub3_s(*self, row as int, column as int),
    {
        if row == 0 && column == 0 {
            Matrix2 { m00: self.m11, m01: self.m12, m10: self.m21, m11: self.m22 }
        } else if row == 0 && column == 1 {
            Matrix2 { m00: self.m10, m01: self.m12, m10: self.m20, m11: self.m22 }
        } else if row == 0 && column == 2 {
            Matrix2 { m00: self.m10, m01: self.m11, m10: self.m20, m11: self.m21 }
        } else if row == 1 && column == 0 {
            Matrix2 { m00: self.m01, m01: self.m02, m10: self.m21, m11: self.m22 }
        } else if row == 1 && column == 1 {
            Matrix2 { m00: self.m00, m01: self.m02, m10: self.m20, m11: self.m22 }
        } else if row == 1 && column == 2 {
            Matrix2 { m00: self.m00, m01: self.m01, m10: self.m20, m11: self.m21 }
        } else if row == 2 && column == 0 {
            Matrix2 { m00: self.m01, m01: self.m02, m10: self.m11, m11: self.m12 }
        } else if row == 2 && column == 1 {
            Matrix2 { m00: self.m00, m01: self.m02, m10: self.m10, m11: self.m12 }
        } else {
            Matrix2 { m00: self.m00, m01: self.m01, m10: self.m10, m11: self.m11 }
        }
    }

    /// The minor at `(row, column)`.
    pub fn minor(&self, row: usize, column: usize) -> (r: i64)
        requires
            row < 3,
            column < 3,
        ensures
            r == minor3_s(*self, row as int, column as int),
    {
        self.submatrix(row, column).determinant()
    }

    /// The cofactor at `(row, column)`.
    pub fn cofactor(&self, row: usize, column: usize) -> (r: i64)
        requires
            row < 3,
            column < 3,
        ensures
            r == cof3_s(*self, row as int, column as int),
    {
        let minor = self.minor(row, column);
        if (row + column) % 2 == 0 {
            minor
        } else {
            fx_neg(minor)
        }
    }

    /// The determinant by cofactor expansion along row zero.
    pub fn determinant(&self) -> (r: i64)
        ensures
            r == det3_s(*self),
    {
        let mut det: i64 = fx_mul(self.m00, self.cofactor(0, 0));
        det = fx_add(det, fx_mul(self.m01, self.cofactor(0, 1)));
        det = fx_add(det, fx_mul(self.m02, self.cofactor(0, 2)));
        det
    }

    /// Entry-wise approximate equality within `EPSILON`.
    pub fn approx_eq(&self, rhs: &Matrix3) -> (r: bool)
        ensures
            r == mat3_approx_s(*self, *rhs),
    {
        approx_eq(self.m00, rhs.m00) && approx_eq(self.m01, rhs.m01) && approx_eq(self.m02, rhs.m02) && approx_eq(self.m10, rhs.m10) && approx_eq(self.m11, rhs.m11)
            && approx_eq(self.m12, rhs.m12) && approx_eq(self.m20, rhs.m20) && approx_eq(self.m21, rhs.m21) && approx_eq(self.m22, rhs.m22)
    }
}

impl Matrix4 {
    /// A matrix from row-major entries.
    pub fn new(rows: [[i64; 4]; 4]) -> (r: Matrix4)
        ensures
            r == from_rows4_s(rows),
    {
        Matrix4 {
            m00: rows[0][0],
            m01: rows[0][1],
            m02: rows[0][2],
            m03: rows[0][3],
            m10: rows[1][0],
            m11: rows[1][1],
            m12: rows[1][2],
            m13: rows[1][3],
            m20: rows[2][0],
            m21: rows[2][1],
            m22: rows[2][2],
            m23: rows[2][3],
            m30: rows[3][0],
            m31: rows[3][1],
            m32: rows[3][2],
            m33: rows[3][3],
        }
    }

    /// The identity transform.
    pub fn identity() -> (r: Matrix4)
        ensures
            r == identity_s(),
    {
        Matrix4 { m00: FX_ONE, m01: 0, m02: 0, m03: 0, m10: 0, m11: FX_ONE, m12: 0, m13: 0, m20: 0, m21: 0, m22: FX_ONE, m23: 0, m30: 0, m31: 0, m32: 0, m33: FX_ONE }
    }

    /// The translation by `(x, y, z)`.
    pub fn translation(x: i64, y: i64, z: i64) -> (r: Matrix4)
        ensures
            r == translation_s(x, y, z),
    {
        Matrix4 { m00: FX_ONE, m01: 0, m02: 0, m03: x, m10: 0, m11: FX_ONE, m12: 0, m13: y, m20: 0, m21: 0, m22: FX_ONE, m23: z, m30: 0, m31: 0, m32: 0, m33: FX_ONE }
    }

    /// The scaling by `(x, y, z)`.
    pub fn scaling(x: i64, y: i64, z: i64) -> (r: Matrix4)
        ensures
            r == scaling_s(x, y, z),
    {
        Matrix4 { m00: x, m01: 0, m02: 0, m03: 0, m10: 0, m11: y, m12: 0, m13: 0, m20: 0, m21: 0, m22: z, m23: 0, m30: 0, m31: 0, m32: 0, m33: FX_ONE }
    }

    /// The right-handed rotation about the x axis by `r` radians.
    pub fn rotation_x(r: i64) -> (m: Matrix4)
        ensures
            m == rotation_x_s(r),
    {
        let c = fx_cos(r);
        let s = fx_sin(r);
        Matrix4 { m00: FX_ONE, m01: 0, m02: 0, m03: 0, m10: 0, m11: c, m12: fx_neg(s), m13: 0, m20: 0, m21: s, m22: c, m23: 0, m30: 0, m31: 0, m32: 0, m33: FX_ONE }
    }

    /// The right-handed rotation about the y axis by `r` radians.
    pub fn rotation_y(r: i64) -> (m: Matrix4)
        ensures
            m == rotation_y_s(r),
    {
        let c = fx_cos(r);
        let s = fx_sin(r);
        Matrix4 { m00: c, m01: 0, m02: s, m03: 0, m10: 0, m11: FX_ONE, m12: 0, m13: 0, m20: fx_neg(s), m21: 0, m22: c, m23: 0, m30: 0, m31: 0, m32: 0, m33: FX_ONE }
    }

    /// The right-handed rotation about the z axis by `r` radians.
    pub fn rotation_z(r: i64) -> (m: Matrix4)
        ensures
            m == rotation_z_s(r),
    {
        let c = fx_cos(r);
        let s = fx_sin(r);
        Matrix4 { m00: c, m01: fx_neg(s), m02: 0, m03: 0, m10: s, m11: c, m12: 0, m13: 0, m20: 0, m21: 0, m22: FX_ONE, m23: 0, m30: 0, m31: 0, m32: 0, m33: FX_ONE }
    }

    /// The shear with the six coefficients of each axis in terms of the
    /// others.
    pub fn shearing(xy: i64, xz: i64, yx: i64, yz: i64, zx: i64, zy: i64) -> (r: Matrix4)
        ensures
            r == shearing_s(xy, xz, yx, yz, zx, zy),
    {
        Matrix4 { m00: FX_ONE, m01: xy, m02: xz, m03: 0, m10: yx, m11: FX_ONE, m12: yz, m13: 0, m20: zx, m21: zy, m22: FX_ONE, m23: 0, m30: 0, m31: 0, m32: 0, m33: FX_ONE }
    }

    /// The camera-to-world view transform from an eye point, a target and
    /// an up hint.
    pub fn view_transform(from: Tuple, to: Tuple, up: Tuple) -> (r: Matrix4)
        ensures
            r == view_transform_s(from, to, up),
    {
        let forward = to.sub(&from).normalize();
        let upn = up.normalize();
        let left = forward.cross(&upn);
        let true_up = left.cross(&forward);
        let orientation = Matrix4 {
            m00: left.x, m01: left.y, m02: left.z, m03: 0,
            m10: true_up.x, m11: true_up.y, m12: true_up.z, m13: 0,
            m20: fx_neg(forward.x), m21: fx_neg(forward.y), m22: fx_neg(forward.z), m23: 0,
            m30: 0, m31: 0, m32: 0, m33: FX_ONE,
        };
        orientation.mul(&Matrix4::translation(fx_neg(from.x), fx_neg(from.y), fx_neg(from.z)))
    }

    /// This transform followed by a translation: the translation is
    /// pre-multiplied, so chained calls read in application order.
    pub fn translate(&self, x: i64, y: i64, z: i64) -> (r: Matrix4)
        ensures
            r == mat4_mul_s(translation_s(x, y, z), *self),
    {
        Matrix4::translation(x, y, z).mul(self)
    }

    /// This transform followed by a scaling, pre-multiplied.
    pub fn scale(&self, x: i64, y: i64, z: i64) -> (r: Matrix4)
        ensures
            r == mat4_mul_s(scaling_s(x, y, z), *self),
    {
        Matrix4::scaling(x, y, z).mul(self)
    }

    /// This transform followed by a rotation about the x axis,
    /// pre-multiplied.
    pub fn rotate_x(&self, r: i64) -> (m: Matrix4)
        ensures
            m == mat4_mul_s(rotation_x_s(r), *self),
    {
        Matrix4::rotation_x(r).mul(self)
    }

    /// This transform followed by a rotation about the y axis,
    /// pre-multiplied.
    pub fn rotate_y(&self, r: i64) -> (m: Matrix4)
        ensures
            m == mat4_mul_s(rotation_y_s(r), *self),
    {
        Matrix4::rotation_y(r).mul(self)
    }

    /// This transform followed by a rotation about the z axis,
    /// pre-multiplied.
    pub fn rotate_z(&self, r: i64) -> (m: Matrix4)
        ensures
            m == mat4_mul_s(rotation_z_s(r), *self),
    {
        Matrix4::rotation_z(r).mul(self)
    }

    /// This transform followed by a shear, pre-multiplied.
    pub fn shear(&self, xy: i64, xz: i64, yx: i64, yz: i64, zx: i64, zy: i64) -> (r: Matrix4)
        ensures
            r == mat4_mul_s(shearing_s(xy, xz, yx, yz, zx, zy), *self),
    {
        Matrix4::shearing(xy, xz, yx, yz, zx, zy).mul(self)
    }

    /// The transpose.
    pub fn transpose(&self) -> (r: Matrix4)
        ensures
            r == transpose4_s(*self),
    {
        Matrix4 { m00: self.m00, m01: self.m10, m02: self.m20, m03: self.m30, m10: self.m01, m11: self.m11, m12: self.m21, m13: self.m31, m20: self.m02, m21: self.m12, m22: self.m22, m23: self.m32, m30: self.m03, m31: self.m13, m32: self.m23, m33: self.m33 }
    }

    /// The 3x3 matrix left after deleting `row` and `column`.
    pub fn submatrix(&self, row: usize, column: usize) -> (r: Matrix3)
        requires
            row < 4,
            column < 4,
        ensures
            r == sub4_s(*self, row as int, column as int),
    {
        if row == 0 && column == 0 {
            Matrix3 { m00: self.m11, m01: self.m12, m02: self.m13, m10: self.m21, m11: self.m22, m12: self.m23, m20: self.m31, m21: self.m32, m22: self.m33 }
        } else if row == 0 && column == 1 {
            Matrix3 { m00: self.m10, m01: self.m12, m02: self.m13, m10: self.m20, m11: self.m22, m12: self.m23, m20: self.m30, m21: self.m32, m22: self.m33 }
        } else if row == 0 && column == 2 {
            Matrix3 { m00: self.m10, m01: self.m11, m02: self.m13, m10: self.m20, m11: self.m21, m12: self.m23, m20: self.m30, m21: self.m31, m22: self.m33 }
        } else if row == 0 && column == 3 {
            Matrix3 { m00: self.m10, m01: self.m11, m02: self.m12, m10: self.m20, m11: self.m21, m12: self.m22, m20: self.m30, m21: self.m31, m22: self.m32 }
        } else if row == 1 && column == 0 {
            Matrix3 { m00: self.m01, m01: self.m02, m02: self.m03, m10: self.m21, m11: self.m22, m12: self.m23, m20: self.m31, m21: self.m32, m22: self.m33 }
        } else if row == 1 && column == 1 {
            Matrix3 { m00: self.m00, m01: self.m02, m02: self.m03, m10: self.m20, m11: self.m22, m12: self.m23, m20: self.m30, m21: self.m32, m22: self.m33 }
        } else if row == 1 && column == 2 {
            Matrix3 { m00: self.m00, m01: self.m01, m02: self.m03, m10: self.m20, m11: self.m21, m12: self.m23, m20: self.m30, m21: self.m31, m22: self.m33 }
        } else if row == 1 && column == 3 {
            Matrix3 { m00: self.m00, m01: self.m01, m02: self.m02, m10: self.m20, m11: self.m21, m12: self.m22, m20: self.m30, m21: self.m31, m22: self.m32 }
        } else if row == 2 && column == 0 {
            Matrix3 { m00: self.m01, m01: self.m02, m02: self.m03, m10: self.m11, m11: self.m12, m12: self.m13, m20: self.m31, m21: self.m32, m22: self.m33 }
        } else if row == 2 && column == 1 {
            Matrix3 { m00: self.m00, m01: self.m02, m02: self.m03, m10: self.m10, m11: self.m12, m12: self.m13, m20: self.m30, m21: self.m32, m22: self.m33 }
        } else if row == 2 && column == 2 {
            Matrix3 { m00: self.m00, m01: self.m01, m02: self.m03, m10: self.m10, m11: self.m11, m12: self.m13, m20: self.m30, m21: self.m31, m22: self.m33 }
        } else if row == 2 && column == 3 {
            Matrix3 { m00: self.m00, m01: self.m01, m02: self.m02, m10: self.m10, m11: self.m11, m12: self.m12, m20: self.m30, m21: self.m31, m22: self.m32 }
        } else if row == 3 && column == 0 {
            Matrix3 { m00: self.m01, m01: self.m02, m02: self.m03, m10: self.m11, m11: self.m12, m12: self.m13, m20: self.m21, m21: self.m22, m22: self.m23 }
        } else if row == 3 && column == 1 {
            Matrix3 { m00: self.m00, m01: self.m02, m02: self.m03, m10: self.m10, m11: self.m12, m12: self.m13, m20: self.m20, m21: self.m22, m22: self.m23 }
        } else if row == 3 && column == 2 {
            Matrix3 { m00: self.m00, m01: self.m01, m02: self.m03, m10: self.m10, m11: self.m11, m12: self.m13, m20: self.m20, m21: self.m21, m22: self.m23 }
        } else {
            Matrix3 { m00: self.m00, m01: self.m01, m02: self.m02, m10: self.m10, m11: self.m11, m12: self.m12, m20: self.m20, m21: self.m21, m22: self.m22 }
        }
    }

    /// The minor at `(row, column)`.
    pub fn minor(&self, row: usize, column: usize) -> (r: i64)
        requires
            row < 4,
            column < 4,
        ensures
            r == minor4_s(*self, row as int, column as int),
    {
        self.submatrix(row, column).determinant()
    }

    /// The cofactor at `(row, column)`.
    pub fn cofactor(&self, row: usize, column: usize) -> (r: i64)
        requires
            row < 4,
            column < 4,
        ensures
            r == cof4_s(*self, row as int, column as int),
    {
        let minor = self.minor(row, column);
        if (row + column) % 2 == 0 {
            minor
        } else {
            fx_neg(minor)
        }
    }

    /// The determinant by cofactor expansion along row zero.
    pub fn determinant(&self) -> (r: i64)
        ensures
            r == det4_s(*self),
    {
        let mut det: i64 = fx_mul(self.m00, self.cofactor(0, 0));
        det = fx_add(det, fx_mul(self.m01, self.cofactor(0, 1)));
        det = fx_add(det, fx_mul(self.m02, self.cofactor(0, 2)));
        det = fx_add(det, fx_mul(self.m03, self.cofactor(0, 3)));
        det
    }

    /// Whether the determinant is non-zero.
    pub fn invertible(&self) -> (r: bool)
        ensures
            r == (det4_s(*self) != 0),
    {
        self.determinant() != 0
    }

    /// The inverse transform; the determinant must not be zero.
    pub fn inverse(&self) -> (r: Matrix4)
        requires
            det4_s(*self) != 0,
        ensures
            r == inverse4_s(*self),
    {
        let det = self.determinant();
        Matrix4 {
            m00: fx_div(self.cofactor(0, 0), det),
            m01: fx_div(self.cofactor(1, 0), det),
            m02: fx_div(self.cofactor(2, 0), det),
            m03: fx_div(self.cofactor(3, 0), det),
            m10: fx_div(self.cofactor(0, 1), det),
            m11: fx_div(self.cofactor(1, 1), det),
            m12: fx_div(self.cofactor(2, 1), det),
            m13: fx_div(self.cofactor(3, 1), det),
            m20: fx_div(self.cofactor(0, 2), det),
            m21: fx_div(self.cofactor(1, 2), det),
            m22: fx_div(self.cofactor(2, 2), det),
            m23: fx_div(self.cofactor(3, 2), det),
            m30: fx_div(self.cofactor(0, 3), det),
            m31: fx_div(self.cofactor(1, 3), det),
            m32: fx_div(self.cofactor(2, 3), det),
            m33: fx_div(self.cofactor(3, 3), det),
        }
    }

    /// The matrix product with another 4x4 matrix.
    pub fn mul(&self, rhs: &Matrix4) -> (r: Matrix4)
        ensures
            r == mat4_mul_s(*self, *rhs),
    {
        Matrix4 {
            m00: fx_add(
                fx_add(fx_add(fx_mul(self.m00, rhs.m00), fx_mul(self.m01, rhs.m10)), fx_mul(self.m02, rhs.m20)),
                fx_mul(self.m03, rhs.m30),
            ),
            m01: fx_add(
                fx_add(fx_add(fx_mul(self.m00, rhs.m01), fx_mul(self.m01, rhs.m11)), fx_mul(self.m02, rhs.m21)),
                fx_mul(self.m03, rhs.m31),
            ),
            m02: fx_add(
                fx_add(fx_add(fx_mul(self.m00, rhs.m02), fx_mul(self.m01, rhs.m12)), fx_mul(self.m02, rhs.m22)),
                fx_mul(self.m03, rhs.m32),
            ),
            m03: fx_add(
                fx_add(fx_add(fx_mul(self.m00, rhs.m03), fx_mul(self.m01, rhs.m13)), fx_mul(self.m02, rhs.m23)),
                fx_mul(self.m03, rhs.m33),
            ),
            m10: fx_add(
                fx_add(fx_add(fx_mul(self.m10, rhs.m00), fx_mul(self.m11, rhs.m10)), fx_mul(self.m12, rhs.m20)),
                fx_mul(self.m13, rhs.m30),
            ),
            m11: fx_add(
                fx_add(fx_add(fx_mul(self.m10, rhs.m01), fx_mul(self.m11, rhs.m11)), fx_mul(self.m12, rhs.m21)),
                fx_mul(self.m13, rhs.m31),
            ),
            m12: fx_add(
                fx_add(fx_add(fx_mul(self.m10, rhs.m02), fx_mul(self.m11, rhs.m12)), fx_mul(self.m12, rhs.m22)),
                fx_mul(self.m13, rhs.m32),
            ),
            m13: fx_add(
                fx_add(fx_add(fx_mul(self.m10, rhs.m03), fx_mul(self.m11, rhs.m13)), fx_mul(self.m12, rhs.m23)),
                fx_mul(self.m13, rhs.m33),
            ),
            m20: fx_add(
                fx_add(fx_add(fx_mul(self.m20, rhs.m00), fx_mul(self.m21, rhs.m10)), fx_mul(self.m22, rhs.m20)),
                fx_mul(self.m23, rhs.m30),
            ),
            m21: fx_add(
                fx_add(fx_add(fx_mul(self.m20, rhs.m01), fx_mul(self.m21, rhs.m11)), fx_mul(self.m22, rhs.m21)),
                fx_mul(self.m23, rhs.m31),
            ),
            m22: fx_add(
                fx_add(fx_add(fx_mul(self.m20, rhs.m02), fx_mul(self.m21, rhs.m12)), fx_mul(self.m22, rhs.m22)),
                fx_mul(self.m23, rhs.m32),
            ),
            m23: fx_add(
                fx_add(fx_add(fx_mul(self.m20, rhs.m03), fx_mul(self.m21, rhs.m13)), fx_mul(self.m22, rhs.m23)),
                fx_mul(self.m23, rhs.m33),
            ),
            m30: fx_add(
                fx_add(fx_add(fx_mul(self.m30, rhs.m00), fx_mul(self.m31, rhs.m10)), fx_mul(self.m32, rhs.m20)),
                fx_mul(self.m33, rhs.m30),
            ),
            m31: fx_add(
                fx_add(fx_add(fx_mul(self.m30, rhs.m01), fx_mul(self.m31, rhs.m11)), fx_mul(self.m32, rhs.m21)),
                fx_mul(self.m33, rhs.m31),
            ),
            m32: fx_add(
                fx_add(fx_add(fx_mul(self.m30, rhs.m02), fx_mul(self.m31, rhs.m12)), fx_mul(self.m32, rhs.m22)),
                fx_mul(self.m33, rhs.m32),
            ),
            m33: fx_add(
                fx_add(fx_add(fx_mul(self.m30, rhs.m03), fx_mul(self.m31, rhs.m13)), fx_mul(self.m32, rhs.m23)),
                fx_mul(self.m33, rhs.m33),
            ),
        }
    }

    /// This matrix applied to a tuple.
    pub fn mul_tuple(&self, t: &Tuple) -> (r: Tuple)
        ensures
            r == mat4_mul_tup_s(*self, *t),
    {
        Tuple {
            x: fx_add(
                fx_add(fx_add(fx_mul(self.m00, t.x), fx_mul(self.m01, t.y)), fx_mul(self.m02, t.z)),
                fx_mul(self.m03, t.w),
            ),
            y: fx_add(
                fx_add(fx_add(fx_mul(self.m10, t.x), fx_mul(self.m11, t.y)), fx_mul(self.m12, t.z)),
                fx_mul(self.m13, t.w),
            ),
            z: fx_add(
                fx_add(fx_add(fx_mul(self.m20, t.x), fx_mul(self.m21, t.y)), fx_mul(self.m22, t.z)),
                fx_mul(self.m23, t.w),
            ),
            w: fx_add(
                fx_add(fx_add(fx_mul(self.m30, t.x), fx_mul(self.m31, t.y)), fx_mul(self.m32, t.z)),
                fx_mul(self.m33, t.w),
            ),
        }
    }

    /// Entry-wise approximate equality within `EPSILON`.
    pub fn approx_eq(&self, rhs: &Matrix4) -> (r: bool)
        ensures
            r == mat4_approx_s(*self, *rhs),
    {
        approx_eq(self.m00, rhs.m00) && approx_eq(self.m01, rhs.m01) && approx_eq(self.m02, rhs.m02) && approx_eq(self.m03, rhs.m03)
            && approx_eq(self.m10, rhs.m10) && approx_eq(self.m11, rhs.m11) && approx_eq(self.m12, rhs.m12) && approx_eq(self.m13, rhs.m13)
            && approx_eq(self.m20, rhs.m20) && approx_eq(self.m21, rhs.m21) && approx_eq(self.m22, rhs.m22) && approx_eq(self.m23, rhs.m23)
            && approx_eq(self.m30, rhs.m30) && approx_eq(self.m31, rhs.m31) && approx_eq(self.m32, rhs.m32) && approx_eq(self.m33, rhs.m33)
    }
}

/// A translation never affects a vector: applied to any tuple with `w`
/// zero it returns the tuple unchanged, exactly.
pub proof fn lemma_translation_fixes_vectors(x: i64, y: i64, z: i64, v: Tuple)
    requires
        v.w == 0,
    ensures
        mat4_mul_tup_s(translation_s(x, y, z), v) == v,
{
    crate::fx::lemma_fx_mul_one(v.x);
    crate::fx::lemma_fx_mul_one(v.y);
    crate::fx::lemma_fx_mul_one(v.z);
    crate::fx::lemma_fx_mul_one(v.w);
    crate::fx::lemma_fx_mul_zero(v.x);
    crate::fx::lemma_fx_mul_zero(v.y);
    crate::fx::lemma_fx_mul_zero(v.z);
    crate::fx::lemma_fx_mul_zero(v.w);
    crate::fx::lemma_fx_mul_zero(x);
    crate::fx::lemma_fx_mul_zero(y);
    crate::fx::lemma_fx_mul_zero(z);
}

/// Multiplying by the identity transform, on either side, changes nothing,
/// exactly.
pub proof fn lemma_mul_identity(m: Matrix4)
    ensures
        mat4_mul_s(m, identity_s()) == m,
        mat4_mul_s(identity_s(), m) == m,
{
    crate::fx::lemma_fx_mul_one(m.m00);
    crate::fx::lemma_fx_mul_one(m.m01);
    crate::fx::lemma_fx_mul_one(m.m02);
    crate::fx::lemma_fx_mul_one(m.m03);
    crate::fx::lemma_fx_mul_one(m.m10);
    crate::fx::lemma_fx_mul_one(m.m11);
    crate::fx::lemma_fx_mul_one(m.m12);
    crate::fx::lemma_fx_mul_one(m.m13);
    crate::fx::lemma_fx_mul_one(m.m20);
    crate::fx::lemma_fx_mul_one(m.m21);
    crate::fx::lemma_fx_mul_one(m.m22);
    crate::fx::lemma_fx_mul_one(m.m23);
    crate::fx::lemma_fx_mul_one(m.m30);
    crate::fx::lemma_fx_mul_one(m.m31);
    crate::fx::lemma_fx_mul_one(m.m32);
    crate::fx::lemma_fx_mul_one(m.m33);
    crate::fx::lemma_fx_mul_zero(m.m00);
    crate::fx::lemma_fx_mul_zero(m.m01);
    crate::fx::lemma_fx_mul_zero(m.m02);
    crate::fx::lemma_fx_mul_zero(m.m03);
    crate::fx::lemma_fx_mul_zero(m.m10);
    crate::fx::lemma_fx_mul_zero(m.m11);
    crate::fx::lemma_fx_mul_zero(m.m12);
    crate::fx::lemma_fx_mul_zero(m.m13);
    crate::fx::lemma_fx_mul_zero(m.m20);
    crate::fx::lemma_fx_mul_zero(m.m21);
    crate::fx::lemma_fx_mul_zero(m.m22);
    crate::fx::lemma_fx_mul_zero(m.m23);
    crate::fx::lemma_fx_mul_zero(m.m30);
    crate::fx::lemma_fx_mul_zero(m.m31);
    crate::fx::lemma_fx_mul_zero(m.m32);
    crate::fx::lemma_fx_mul_zero(m.m33);
    crate::fx::lemma_fx_mul_zero(FX_ONE);
}

/// A translation is invertible, with determinant one, and its inverse is the
/// translation by the negated offsets, exactly.
pub proof fn lemma_translation_inverse(x: i64, y: i64, z: i64)
    ensures
        det4_s(translation_s(x, y, z)) == FX_ONE,
        inverse4_s(translation_s(x, y, z)) == translation_s(
            fx_neg_s(x),
            fx_neg_s(y),
            fx_neg_s(z),
        ),
{
    crate::fx::lemma_fx_mul_one(x);
    crate::fx::lemma_fx_mul_one(y);
    crate::fx::lemma_fx_mul_one(z);
    crate::fx::lemma_fx_mul_one(FX_ONE);
    crate::fx::lemma_fx_mul_one(0);
    crate::fx::lemma_fx_mul_zero(x);
    crate::fx::lemma_fx_mul_zero(y);
    crate::fx::lemma_fx_mul_zero(z);
    crate::fx::lemma_fx_mul_zero(FX_ONE);
    crate::fx::lemma_fx_div_one(0);
    crate::fx::lemma_fx_div_one(FX_ONE);
    crate::fx::lemma_fx_div_one(fx_neg_s(x));
    crate::fx::lemma_fx_div_one(fx_neg_s(y));
    crate::fx::lemma_fx_div_one(fx_neg_s(z));
    crate::fx::lemma_fx_mul_one(fx_neg_s(x));
    crate::fx::lemma_fx_mul_one(fx_neg_s(y));
    crate::fx::lemma_fx_mul_one(fx_neg_s(z));
    crate::fx::lemma_fx_mul_zero(fx_neg_s(x));
    crate::fx::lemma_fx_mul_zero(fx_neg_s(y));
    crate::fx::lemma_fx_mul_zero(fx_neg_s(z));
}

/// A translation times its inverse is the identity, and inverting the
/// inverse gives the translation back, exactly.  The offsets must not be the
/// smallest scalar, whose negation saturates.
pub proof fn lemma_translation_mul_inverse(x: i64, y: i64, z: i64)
    requires
        x != i64::MIN,
        y != i64::MIN,
        z != i64::MIN,
    ensures
        mat4_mul_s(
            translation_s(x, y, z),
            inverse4_s(translation_s(x, y, z)),
        ) == identity_s(),
        mat4_mul_s(
            inverse4_s(translation_s(x, y, z)),
            translation_s(x, y, z),
        ) == identity_s(),
        inverse4_s(inverse4_s(translation_s(x, y, z))) == translation_s(x, y, z),
{
    lemma_translation_inverse(x, y, z);
    lemma_translation_inverse(fx_neg_s(x), fx_neg_s(y), fx_neg_s(z));
    crate::fx::lemma_fx_mul_one(x);
    crate::fx::lemma_fx_mul_one(y);
    crate::fx::lemma_fx_mul_one(z);
    crate::fx::lemma_fx_mul_one(FX_ONE);
    crate::fx::lemma_fx_mul_zero(x);
    crate::fx::lemma_fx_mul_zero(y);
    crate::fx::lemma_fx_mul_zero(z);
    crate::fx::lemma_fx_mul_zero(FX_ONE);
    crate::fx::lemma_fx_mul_one(fx_neg_s(x));
    crate::fx::lemma_fx_mul_one(fx_neg_s(y));
    crate::fx::lemma_fx_mul_one(fx_neg_s(z));
    crate::fx::lemma_fx_mul_zero(fx_neg_s(x));
    crate::fx::lemma_fx_mul_zero(fx_neg_s(y));
    crate::fx::lemma_fx_mul_zero(fx_neg_s(z));
}

} // verus!
