//! Fixed-point vectors and matrices for the transform pipeline.
//!
//! Vectors hold fixed-point components (`FX_ONE` is one); matrices are 4x4 or
//! 3x3 with row-major fields, multiplying column vectors.  Every operation is
//! total and pinned to a specification function.

use vstd::prelude::*;
use crate::fixed::{
    clamp_s, fx_add, fx_add_s, fx_div, fx_div_s, fx_mul, fx_mul_s, fx_sub, fx_sub_s,
    lemma_mul_i64_range, sat_s, tdiv_i128, tdiv_s, FX_ONE,
};

verus! {

#[derive(Clone, Copy, PartialEq, Eq, Structural, Debug)]
pub struct Fx3 {
    pub x: i64,
    pub y: i64,
    pub z: i64,
}

#[derive(Clone, Copy, PartialEq, Eq, Structural, Debug)]
pub struct Fx2 {
    pub x: i64,
    pub y: i64,
}

#[derive(Clone, Copy, PartialEq, Eq, Structural, Debug)]
pub struct Fx4 {
    pub x: i64,
    pub y: i64,
    pub z: i64,
    pub w: i64,
}

impl Fx3 {
    pub fn new(x: i64, y: i64, z: i64) -> (v: Fx3)
        ensures
            v == (Fx3 { x, y, z }),
    {
        Fx3 { x, y, z }
    }
}

impl Fx2 {
    pub fn new(x: i64, y: i64) -> (v: Fx2)
        ensures
            v == (Fx2 { x, y }),
    {
        Fx2 { x, y }
    }
}

/// Fixed-point dot product of three-component vectors.
pub open spec fn dot3_s(a: Fx3, b: Fx3) -> int {
    fx_add_s(
        fx_add_s(fx_mul_s(a.x as int, b.x as int), fx_mul_s(a.y as int, b.y as int)),
        fx_mul_s(a.z as int, b.z as int),
    )
}

pub fn dot3(a: &Fx3, b: &Fx3) -> (r: i64)
    ensures
        r == dot3_s(*a, *b),
{
    fx_add(fx_add(fx_mul(a.x, b.x), fx_mul(a.y, b.y)), fx_mul(a.z, b.z))
}

pub open spec fn cross_s(a: Fx3, b: Fx3) -> Fx3 {
    Fx3 {
        x: fx_sub_s(fx_mul_s(a.y as int, b.z as int), fx_mul_s(a.z as int, b.y as int)) as i64,
        y: fx_sub_s(fx_mul_s(a.z as int, b.x as int), fx_mul_s(a.x as int, b.z as int)) as i64,
        z: fx_sub_s(fx_mul_s(a.x as int, b.y as int), fx_mul_s(a.y as int, b.x as int)) as i64,
    }
}

pub fn cross(a: &Fx3, b: &Fx3) -> (r: Fx3)
    ensures
        r == cross_s(*a, *b),
{
    Fx3 {
        x: fx_sub(fx_mul(a.y, b.z), fx_mul(a.z, b.y)),
        y: fx_sub(fx_mul(a.z, b.x), fx_mul(a.x, b.z)),
        z: fx_sub(fx_mul(a.x, b.y), fx_mul(a.y, b.x)),
    }
}

pub open spec fn sub3_s(a: Fx3, b: Fx3) -> Fx3 {
    Fx3 {
        x: fx_sub_s(a.x as int, b.x as int) as i64,
        y: fx_sub_s(a.y as int, b.y as int) as i64,
        z: fx_sub_s(a.z as int, b.z as int) as i64,
    }
}

pub fn sub3(a: &Fx3, b: &Fx3) -> (r: Fx3)
    ensures
        r == sub3_s(*a, *b),
{
    Fx3 { x: fx_sub(a.x, b.x), y: fx_sub(a.y, b.y), z: fx_sub(a.z, b.z) }
}

/// The floor of the square root of a non-negative integer, as the unique
/// value between the two squares around x.
pub open spec fn isqrt_s(x: int) -> int {
    choose|r: int| r >= 0 && #[trigger] (r * r) <= x && (r + 1) * (r + 1) > x
}

pub proof fn lemma_isqrt_unique(x: int, r: int)
    requires
        x >= 0,
        r >= 0,
        r * r <= x,
        (r + 1) * (r + 1) > x,
    ensures
        r == isqrt_s(x),
{
    assert(exists|q: int| q >= 0 && #[trigger] (q * q) <= x && (q + 1) * (q + 1) > x) by {
        assert(r >= 0 && r * r <= x && (r + 1) * (r + 1) > x);
    }
    let q = isqrt_s(x);
    assert(q >= 0 && q * q <= x && (q + 1) * (q + 1) > x);
    assert(r == q) by (nonlinear_arith)
        requires
            r >= 0,
            q >= 0,
            r * r <= x,
            (r + 1) * (r + 1) > x,
            q * q <= x,
            (q + 1) * (q + 1) > x,
    ;
}

/// Binary-search integer square root.
pub fn isqrt_i128(x: i128) -> (r: i128)
    requires
        x >= 0,
    ensures
        r >= 0,
        r * r <= x,
        (r + 1) * (r + 1) > x,
        r == isqrt_s(x as int),
{
    let mut lo: i128 = 0;
    let mut hi: i128 = 0xFFFFFFFFFFFFFFFF;
    proof {
        assert((0xFFFFFFFFFFFFFFFFi128 + 1) * (0xFFFFFFFFFFFFFFFFi128 + 1) > i128::MAX as int)
            by (nonlinear_arith);
    }
    while lo < hi
        invariant
            0 <= lo <= hi <= 0xFFFFFFFFFFFFFFFF,
            lo * lo <= x,
            (hi + 1) * (hi + 1) > x,
        decreases hi - lo,
    {
        let d: i128 = hi - lo;
        let half: i128 = (d + 1) / 2;
        proof {
            assert(1 <= (d + 1) as int / 2 <= d) by (nonlinear_arith)
                requires
                    1 <= d,
            ;
        }
        let mid: i128 = lo + half;
        let mu: u128 = mid as u128;
        proof {
            assert(mu as int * mu as int <= u128::MAX as int) by (nonlinear_arith)
                requires
                    0 <= mu <= 0xFFFFFFFFFFFFFFFFu128,
            ;
        }
        let sq: u128 = mu * mu;
        if sq <= x as u128 {
            lo = mid;
        } else {
            hi = mid - 1;
        }
    }
    proof {
        lemma_isqrt_unique(x as int, lo as int);
    }
    lo
}

/// Componentwise bound inside which squares and cofactors stay representable.
pub const FX_NORM_LIMIT: i64 = 0x4000000000000000;

pub open spec fn clamp_norm_s(v: Fx3) -> Fx3 {
    Fx3 {
        x: clamp_s(v.x as int, -FX_NORM_LIMIT as int, FX_NORM_LIMIT as int) as i64,
        y: clamp_s(v.y as int, -FX_NORM_LIMIT as int, FX_NORM_LIMIT as int) as i64,
        z: clamp_s(v.z as int, -FX_NORM_LIMIT as int, FX_NORM_LIMIT as int) as i64,
    }
}

/// The fixed-point length of a vector (after the representable clamp).
pub open spec fn len3_s(v: Fx3) -> int {
    let c = clamp_norm_s(v);
    isqrt_s((c.x as int) * (c.x as int) + (c.y as int) * (c.y as int) + (c.z as int) * (c.z as int))
}

/// Normalization: each component divided by the length; the zero vector
/// stays zero.
pub open spec fn normalize_s(v: Fx3) -> Fx3 {
    let c = clamp_norm_s(v);
    let len = len3_s(v);
    if len == 0 {
        Fx3 { x: 0, y: 0, z: 0 }
    } else {
        Fx3 {
            x: fx_div_s(c.x as int, len) as i64,
            y: fx_div_s(c.y as int, len) as i64,
            z: fx_div_s(c.z as int, len) as i64,
        }
    }
}

pub fn normalize(v: &Fx3) -> (r: Fx3)
    ensures
        r == normalize_s(*v),
{
    let cx: i64 = crate::fixed::fx_clamp(v.x, -FX_NORM_LIMIT, FX_NORM_LIMIT);
    let cy: i64 = crate::fixed::fx_clamp(v.y, -FX_NORM_LIMIT, FX_NORM_LIMIT);
    let cz: i64 = crate::fixed::fx_clamp(v.z, -FX_NORM_LIMIT, FX_NORM_LIMIT);
    proof {
        lemma_mul_i64_range(cx as int, cx as int);
        lemma_mul_i64_range(cy as int, cy as int);
        lemma_mul_i64_range(cz as int, cz as int);
        assert(cx as int * cx as int >= 0 && cy as int * cy as int >= 0 && cz as int * cz as int
            >= 0) by (nonlinear_arith);
        assert(cx as int * cx as int <= 0x4000000000000000 * 0x4000000000000000)
            by (nonlinear_arith)
            requires
                -0x4000000000000000 <= cx <= 0x4000000000000000,
        ;
        assert(cy as int * cy as int <= 0x4000000000000000 * 0x4000000000000000)
            by (nonlinear_arith)
            requires
                -0x4000000000000000 <= cy <= 0x4000000000000000,
        ;
        assert(cz as int * cz as int <= 0x4000000000000000 * 0x4000000000000000)
            by (nonlinear_arith)
            requires
                -0x4000000000000000 <= cz <= 0x4000000000000000,
        ;
    }
    let s: i128 = (cx as i128) * (cx as i128) + (cy as i128) * (cy as i128) + (cz as i128)
        * (cz as i128);
    let len128: i128 = isqrt_i128(s);
    if len128 == 0 {
        Fx3 { x: 0, y: 0, z: 0 }
    } else {
        proof {
            assert(len128 as int * len128 as int <= s as int);
            assert(len128 <= i64::MAX as int) by (nonlinear_arith)
                requires
                    len128 > 0,
                    len128 as int * len128 as int <= s as int,
                    s <= 3 * 0x4000000000000000 * 0x4000000000000000,
            ;
        }
        let len: i64 = len128 as i64;
        Fx3 { x: fx_div(cx, len), y: fx_div(cy, len), z: fx_div(cz, len) }
    }
}

#[derive(Clone, Copy, PartialEq, Eq, Structural, Debug)]
pub struct Mat4 {
    pub m00: i64, pub m01: i64, pub m02: i64, pub m03: i64,
    pub m10: i64, pub m11: i64, pub m12: i64, pub m13: i64,
    pub m20: i64, pub m21: i64, pub m22: i64, pub m23: i64,
    pub m30: i64, pub m31: i64, pub m32: i64, pub m33: i64,
}

#[derive(Clone, Copy, PartialEq, Eq, Structural, Debug)]
pub struct Mat3 {
    pub m00: i64, pub m01: i64, pub m02: i64,
    pub m10: i64, pub m11: i64, pub m12: i64,
    pub m20: i64, pub m21: i64, pub m22: i64,
}

pub open spec fn identity4_s() -> Mat4 {
    Mat4 {
        m00: FX_ONE, m01: 0, m02: 0, m03: 0,
        m10: 0, m11: FX_ONE, m12: 0, m13: 0,
        m20: 0, m21: 0, m22: FX_ONE, m23: 0,
        m30: 0, m31: 0, m32: 0, m33: FX_ONE,
    }
}

pub open spec fn identity3_s() -> Mat3 {
    Mat3 {
        m00: FX_ONE, m01: 0, m02: 0,
        m10: 0, m11: FX_ONE, m12: 0,
        m20: 0, m21: 0, m22: FX_ONE,
    }
}

/// Fixed-point dot product of a matrix row against a column.
pub open spec fn dot4_s(a0: int, a1: int, a2: int, a3: int, b0: int, b1: int, b2: int, b3: int) -> int {
    fx_add_s(
        fx_add_s(fx_add_s(fx_mul_s(a0, b0), fx_mul_s(a1, b1)), fx_mul_s(a2, b2)),
        fx_mul_s(a3, b3),
    )
}

fn dot4(a0: i64, a1: i64, a2: i64, a3: i64, b0: i64, b1: i64, b2: i64, b3: i64) -> (r: i64)
    ensures
        r == dot4_s(a0 as int, a1 as int, a2 as int, a3 as int, b0 as int, b1 as int, b2 as int, b3 as int),
{
    fx_add(fx_add(fx_add(fx_mul(a0, b0), fx_mul(a1, b1)), fx_mul(a2, b2)), fx_mul(a3, b3))
}

pub open spec fn mat_mul_s(a: Mat4, b: Mat4) -> Mat4 {
    Mat4 {
        m00: dot4_s(a.m00 as int, a.m01 as int, a.m02 as int, a.m03 as int, b.m00 as int, b.m10 as int, b.m20 as int, b.m30 as int) as i64,
        m01: dot4_s(a.m00 as int, a.m01 as int, a.m02 as int, a.m03 as int, b.m01 as int, b.m11 as int, b.m21 as int, b.m31 as int) as i64,
        m02: dot4_s(a.m00 as int, a.m01 as int, a.m02 as int, a.m03 as int, b.m02 as int, b.m12 as int, b.m22 as int, b.m32 as int) as i64,
        m03: dot4_s(a.m00 as int, a.m01 as int, a.m02 as int, a.m03 as int, b.m03 as int, b.m13 as int, b.m23 as int, b.m33 as int) as i64,
        m10: dot4_s(a.m10 as int, a.m11 as int, a.m12 as int, a.m13 as int, b.m00 as int, b.m10 as int, b.m20 as int, b.m30 as int) as i64,
        m11: dot4_s(a.m10 as int, a.m11 as int, a.m12 as int, a.m13 as int, b.m01 as int, b.m11 as int, b.m21 as int, b.m31 as int) as i64,
        m12: dot4_s(a.m10 as int, a.m11 as int, a.m12 as int, a.m13 as int, b.m02 as int, b.m12 as int, b.m22 as int, b.m32 as int) as i64,
        m13: dot4_s(a.m10 as int, a.m11 as int, a.m12 as int, a.m13 as int, b.m03 as int, b.m13 as int, b.m23 as int, b.m33 as int) as i64,
        m20: dot4_s(a.m20 as int, a.m21 as int, a.m22 as int, a.m23 as int, b.m00 as int, b.m10 as int, b.m20 as int, b.m30 as int) as i64,
        m21: dot4_s(a.m20 as int, a.m21 as int, a.m22 as int, a.m23 as int, b.m01 as int, b.m11 as int, b.m21 as int, b.m31 as int) as i64,
        m22: dot4_s(a.m20 as int, a.m21 as int, a.m22 as int, a.m23 as int, b.m02 as int, b.m12 as int, b.m22 as int, b.m32 as int) as i64,
        m23: dot4_s(a.m20 as int, a.m21 as int, a.m22 as int, a.m23 as int, b.m03 as int, b.m13 as int, b.m23 as int, b.m33 as int) as i64,
        m30: dot4_s(a.m30 as int, a.m31 as int, a.m32 as int, a.m33 as int, b.m00 as int, b.m10 as int, b.m20 as int, b.m30 as int) as i64,
        m31: dot4_s(a.m30 as int, a.m31 as int, a.m32 as int, a.m33 as int, b.m01 as int, b.m11 as int, b.m21 as int, b.m31 as int) as i64,
        m32: dot4_s(a.m30 as int, a.m31 as int, a.m32 as int, a.m33 as int, b.m02 as int, b.m12 as int, b.m22 as int, b.m32 as int) as i64,
        m33: dot4_s(a.m30 as int, a.m31 as int, a.m32 as int, a.m33 as int, b.m03 as int, b.m13 as int, b.m23 as int, b.m33 as int) as i64,
    }
}

/// The image of a column vector under a matrix.
pub open spec fn mat_vec4_s(m: Mat4, v: Fx4) -> Fx4 {
    Fx4 {
        x: dot4_s(m.m00 as int, m.m01 as int, m.m02 as int, m.m03 as int, v.x as int, v.y as int, v.z as int, v.w as int) as i64,
        y: dot4_s(m.m10 as int, m.m11 as int, m.m12 as int, m.m13 as int, v.x as int, v.y as int, v.z as int, v.w as int) as i64,
        z: dot4_s(m.m20 as int, m.m21 as int, m.m22 as int, m.m23 as int, v.x as int, v.y as int, v.z as int, v.w as int) as i64,
        w: dot4_s(m.m30 as int, m.m31 as int, m.m32 as int, m.m33 as int, v.x as int, v.y as int, v.z as int, v.w as int) as i64,
    }
}

impl Mat4 {
    pub fn new(
        m00: i64, m01: i64, m02: i64, m03: i64,
        m10: i64, m11: i64, m12: i64, m13: i64,
        m20: i64, m21: i64, m22: i64, m23: i64,
        m30: i64, m31: i64, m32: i64, m33: i64,
    ) -> (r: Mat4)
        ensures
            r == (Mat4 { m00, m01, m02, m03, m10, m11, m12, m13, m20, m21, m22, m23, m30, m31, m32, m33 }),
    {
        Mat4 { m00, m01, m02, m03, m10, m11, m12, m13, m20, m21, m22, m23, m30, m31, m32, m33 }
    }

    pub fn identity() -> (r: Mat4)
        ensures
            r == identity4_s(),
    {
        Mat4 {
            m00: FX_ONE, m01: 0, m02: 0, m03: 0,
            m10: 0, m11: FX_ONE, m12: 0, m13: 0,
            m20: 0, m21: 0, m22: FX_ONE, m23: 0,
            m30: 0, m31: 0, m32: 0, m33: FX_ONE,
        }
    }
}

pub fn mat_mul(a: &Mat4, b: &Mat4) -> (r: Mat4)
    ensures
        r == mat_mul_s(*a, *b),
{
    Mat4 {
        m00: dot4(a.m00, a.m01, a.m02, a.m03, b.m00, b.m10, b.m20, b.m30),
        m01: dot4(a.m00, a.m01, a.m02, a.m03, b.m01, b.m11, b.m21, b.m31),
        m02: dot4(a.m00, a.m01, a.m02, a.m03, b.m02, b.m12, b.m22, b.m32),
        m03: dot4(a.m00, a.m01, a.m02, a.m03, b.m03, b.m13, b.m23, b.m33),
        m10: dot4(a.m10, a.m11, a.m12, a.m13, b.m00, b.m10, b.m20, b.m30),
        m11: dot4(a.m10, a.m11, a.m12, a.m13, b.m01, b.m11, b.m21, b.m31),
        m12: dot4(a.m10, a.m11, a.m12, a.m13, b.m02, b.m12, b.m22, b.m32),
        m13: dot4(a.m10, a.m11, a.m12, a.m13, b.m03, b.m13, b.m23, b.m33),
        m20: dot4(a.m20, a.m21, a.m22, a.m23, b.m00, b.m10, b.m20, b.m30),
        m21: dot4(a.m20, a.m21, a.m22, a.m23, b.m01, b.m11, b.m21, b.m31),
        m22: dot4(a.m20, a.m21, a.m22, a.m23, b.m02, b.m12, b.m22, b.m32),
        m23: dot4(a.m20, a.m21, a.m22, a.m23, b.m03, b.m13, b.m23, b.m33),
        m30: dot4(a.m30, a.m31, a.m32, a.m33, b.m00, b.m10, b.m20, b.m30),
        m31: dot4(a.m30, a.m31, a.m32, a.m33, b.m01, b.m11, b.m21, b.m31),
        m32: dot4(a.m30, a.m31, a.m32, a.m33, b.m02, b.m12, b.m22, b.m32),
        m33: dot4(a.m30, a.m31, a.m32, a.m33, b.m03, b.m13, b.m23, b.m33),
    }
}

pub fn mat_vec4(m: &Mat4, v: &Fx4) -> (r: Fx4)
    ensures
        r == mat_vec4_s(*m, *v),
{
    Fx4 {
        x: dot4(m.m00, m.m01, m.m02, m.m03, v.x, v.y, v.z, v.w),
        y: dot4(m.m10, m.m11, m.m12, m.m13, v.x, v.y, v.z, v.w),
        z: dot4(m.m20, m.m21, m.m22, m.m23, v.x, v.y, v.z, v.w),
        w: dot4(m.m30, m.m31, m.m32, m.m33, v.x, v.y, v.z, v.w),
    }
}

/// The upper-left 3x3 block of a 4x4 matrix.
pub open spec fn mat4_to_mat3_s(m: Mat4) -> Mat3 {
    Mat3 {
        m00: m.m00, m01: m.m01, m02: m.m02,
        m10: m.m10, m11: m.m11, m12: m.m12,
        m20: m.m20, m21: m.m21, m22: m.m22,
    }
}

pub fn mat4_to_mat3(m: &Mat4) -> (r: Mat3)
    ensures
        r == mat4_to_mat3_s(*m),
{
    Mat3 {
        m00: m.m00, m01: m.m01, m02: m.m02,
        m10: m.m10, m11: m.m11, m12: m.m12,
        m20: m.m20, m21: m.m21, m22: m.m22,
    }
}

pub open spec fn mat3_vec_s(m: Mat3, v: Fx3) -> Fx3 {
    Fx3 {
        x: fx_add_s(fx_add_s(fx_mul_s(m.m00 as int, v.x as int), fx_mul_s(m.m01 as int, v.y as int)), fx_mul_s(m.m02 as int, v.z as int)) as i64,
        y: fx_add_s(fx_add_s(fx_mul_s(m.m10 as int, v.x as int), fx_mul_s(m.m11 as int, v.y as int)), fx_mul_s(m.m12 as int, v.z as int)) as i64,
        z: fx_add_s(fx_add_s(fx_mul_s(m.m20 as int, v.x as int), fx_mul_s(m.m21 as int, v.y as int)), fx_mul_s(m.m22 as int, v.z as int)) as i64,
    }
}

pub fn mat3_vec(m: &Mat3, v: &Fx3) -> (r: Fx3)
    ensures
        r == mat3_vec_s(*m, *v),
{
    Fx3 {
        x: fx_add(fx_add(fx_mul(m.m00, v.x), fx_mul(m.m01, v.y)), fx_mul(m.m02, v.z)),
        y: fx_add(fx_add(fx_mul(m.m10, v.x), fx_mul(m.m11, v.y)), fx_mul(m.m12, v.z)),
        z: fx_add(fx_add(fx_mul(m.m20, v.x), fx_mul(m.m21, v.y)), fx_mul(m.m22, v.z)),
    }
}

/// Componentwise bound inside which 3x3 cofactors and determinants stay
/// representable for the inverse computation.
pub const FX_MAT_LIMIT: i64 = 0x10000000000;

pub open spec fn clamp_mat_s(x: int) -> int {
    clamp_s(x, -FX_MAT_LIMIT as int, FX_MAT_LIMIT as int)
}

pub open spec fn clamp_mat3_s(m: Mat3) -> Mat3 {
    Mat3 {
        m00: clamp_mat_s(m.m00 as int) as i64, m01: clamp_mat_s(m.m01 as int) as i64, m02: clamp_mat_s(m.m02 as int) as i64,
        m10: clamp_mat_s(m.m10 as int) as i64, m11: clamp_mat_s(m.m11 as int) as i64, m12: clamp_mat_s(m.m12 as int) as i64,
        m20: clamp_mat_s(m.m20 as int) as i64, m21: clamp_mat_s(m.m21 as int) as i64, m22: clamp_mat_s(m.m22 as int) as i64,
    }
}

/// The signed cofactors and determinant of a (clamped) 3x3 matrix.
pub open spec fn cof3_s(a: int, b: int, c: int, d: int) -> int {
    a * b - c * d
}

pub open spec fn det3_s(m: Mat3) -> int {
    let c = clamp_mat3_s(m);
    c.m00 * cof3_s(c.m11 as int, c.m22 as int, c.m12 as int, c.m21 as int)
        + c.m01 * cof3_s(c.m12 as int, c.m20 as int, c.m10 as int, c.m22 as int)
        + c.m02 * cof3_s(c.m10 as int, c.m21 as int, c.m11 as int, c.m20 as int)
}

/// The inverse transpose of the upper 3x3 of the model matrix: the cofactor
/// matrix scaled by the determinant; the identity where the matrix is
/// singular.  Entries clamp into the representable matrix range first.
pub open spec fn inv_transpose3_s(m: Mat3) -> Mat3 {
    let c = clamp_mat3_s(m);
    let det = det3_s(m);
    if det == 0 {
        identity3_s()
    } else {
        Mat3 {
            m00: sat_s(tdiv_s(cof3_s(c.m11 as int, c.m22 as int, c.m12 as int, c.m21 as int) * 0x100000000, det)) as i64,
            m01: sat_s(tdiv_s(cof3_s(c.m12 as int, c.m20 as int, c.m10 as int, c.m22 as int) * 0x100000000, det)) as i64,
            m02: sat_s(tdiv_s(cof3_s(c.m10 as int, c.m21 as int, c.m11 as int, c.m20 as int) * 0x100000000, det)) as i64,
            m10: sat_s(tdiv_s(cof3_s(c.m02 as int, c.m21 as int, c.m01 as int, c.m22 as int) * 0x100000000, det)) as i64,
            m11: sat_s(tdiv_s(cof3_s(c.m00 as int, c.m22 as int, c.m02 as int, c.m20 as int) * 0x100000000, det)) as i64,
            m12: sat_s(tdiv_s(cof3_s(c.m01 as int, c.m20 as int, c.m00 as int, c.m21 as int) * 0x100000000, det)) as i64,
            m20: sat_s(tdiv_s(cof3_s(c.m01 as int, c.m12 as int, c.m02 as int, c.m11 as int) * 0x100000000, det)) as i64,
            m21: sat_s(tdiv_s(cof3_s(c.m02 as int, c.m10 as int, c.m00 as int, c.m12 as int) * 0x100000000, det)) as i64,
            m22: sat_s(tdiv_s(cof3_s(c.m00 as int, c.m11 as int, c.m01 as int, c.m10 as int) * 0x100000000, det)) as i64,
        }
    }
}

fn cof3(a: i64, b: i64, c: i64, d: i64) -> (r: i128)
    requires
        -FX_MAT_LIMIT <= a <= FX_MAT_LIMIT,
        -FX_MAT_LIMIT <= b <= FX_MAT_LIMIT,
        -FX_MAT_LIMIT <= c <= FX_MAT_LIMIT,
        -FX_MAT_LIMIT <= d <= FX_MAT_LIMIT,
    ensures
        r == cof3_s(a as int, b as int, c as int, d as int),
        -0x200000000000000000000 <= r <= 0x200000000000000000000,
{
    proof {
        assert(-0x100000000000000000000 <= a as int * b as int <= 0x100000000000000000000
            && -0x100000000000000000000 <= c as int * d as int <= 0x100000000000000000000)
            by (nonlinear_arith)
            requires
                -0x10000000000 <= a <= 0x10000000000,
                -0x10000000000 <= b <= 0x10000000000,
                -0x10000000000 <= c <= 0x10000000000,
                -0x10000000000 <= d <= 0x10000000000,
        ;
    }
    (a as i128) * (b as i128) - (c as i128) * (d as i128)
}

fn clamp_mat(x: i64) -> (r: i64)
    ensures
        r == clamp_mat_s(x as int),
        -FX_MAT_LIMIT <= r <= FX_MAT_LIMIT,
{
    crate::fixed::fx_clamp(x, -FX_MAT_LIMIT, FX_MAT_LIMIT)
}

fn det_term(m: i64, c: i128) -> (r: i128)
    requires
        -FX_MAT_LIMIT <= m <= FX_MAT_LIMIT,
        -0x200000000000000000000 <= c <= 0x200000000000000000000,
    ensures
        r == m as int * c as int,
        -0x20000000000000000000000000000000 <= r <= 0x20000000000000000000000000000000,
{
    proof {
        assert(-0x20000000000000000000000000000000 <= m as int * c as int
            <= 0x20000000000000000000000000000000) by (nonlinear_arith)
            requires
                -0x10000000000 <= m <= 0x10000000000,
                -0x200000000000000000000 <= c <= 0x200000000000000000000,
        ;
    }
    (m as i128) * c
}

fn inv_entry(c: i128, det: i128) -> (r: i64)
    requires
        det != 0,
        -0x60000000000000000000000000000000 <= det <= 0x60000000000000000000000000000000,
        -0x200000000000000000000 <= c <= 0x200000000000000000000,
    ensures
        r == sat_s(tdiv_s(c as int * 0x100000000, det as int)) as i64,
{
    proof {
        assert(-0x200000000000000000000000000000 <= c as int * 0x100000000
            <= 0x200000000000000000000000000000) by (nonlinear_arith)
            requires
                -0x200000000000000000000 <= c <= 0x200000000000000000000,
        ;
    }
    let scaled: i128 = c * 0x100000000;
    let d: i128 = tdiv_i128(scaled, det);
    crate::fixed::sat_from_i128(d)
}

/// The inverse transpose used for normal transformation, with an identity
/// fallback for singular matrices.
pub fn inv_transpose3(m: &Mat3) -> (r: Mat3)
    ensures
        r == inv_transpose3_s(*m),
{
    let c00: i64 = clamp_mat(m.m00);
    let c01: i64 = clamp_mat(m.m01);
    let c02: i64 = clamp_mat(m.m02);
    let c10: i64 = clamp_mat(m.m10);
    let c11: i64 = clamp_mat(m.m11);
    let c12: i64 = clamp_mat(m.m12);
    let c20: i64 = clamp_mat(m.m20);
    let c21: i64 = clamp_mat(m.m21);
    let c22: i64 = clamp_mat(m.m22);
    let k00: i128 = cof3(c11, c22, c12, c21);
    let k01: i128 = cof3(c12, c20, c10, c22);
    let k02: i128 = cof3(c10, c21, c11, c20);
    let k10: i128 = cof3(c02, c21, c01, c22);
    let k11: i128 = cof3(c00, c22, c02, c20);
    let k12: i128 = cof3(c01, c20, c00, c21);
    let k20: i128 = cof3(c01, c12, c02, c11);
    let k21: i128 = cof3(c02, c10, c00, c12);
    let k22: i128 = cof3(c00, c11, c01, c10);
    let det: i128 = det_term(c00, k00) + det_term(c01, k01) + det_term(c02, k02);
    if det == 0 {
        Mat3 {
            m00: FX_ONE, m01: 0, m02: 0,
            m10: 0, m11: FX_ONE, m12: 0,
            m20: 0, m21: 0, m22: FX_ONE,
        }
    } else {
        Mat3 {
            m00: inv_entry(k00, det), m01: inv_entry(k01, det), m02: inv_entry(k02, det),
            m10: inv_entry(k10, det), m11: inv_entry(k11, det), m12: inv_entry(k12, det),
            m20: inv_entry(k20, det), m21: inv_entry(k21, det), m22: inv_entry(k22, det),
        }
    }
}

} // verus!
