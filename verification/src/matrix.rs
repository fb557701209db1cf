//! 4x4 matrices of fixed-point scalars: transforms, their inverses (by the
//! adjugate of 2x2 minors), and the named transform constructors.

use vstd::prelude::*;
use crate::fixed::{
    fadd, fsub, fneg, fmul, fdiv, fsin, fcos, SCALE, add_f, sub_f, neg_f, mul_f, div_f, sin_f,
    cos_f,
};
use crate::raytuple::{RayTuple, tsub, tnormalize, tcross, tneg};

verus! {

/// A 4x4 matrix; `mRC` is the entry at row `R`, column `C`.
#[derive(Clone, Copy, Debug, PartialEq, Eq, Structural)]
pub struct Matrix {
    pub m00: i64, pub m01: i64, pub m02: i64, pub m03: i64,
    pub m10: i64, pub m11: i64, pub m12: i64, pub m13: i64,
    pub m20: i64, pub m21: i64, pub m22: i64, pub m23: i64,
    pub m30: i64, pub m31: i64, pub m32: i64, pub m33: i64,
}

/// Fixed-point dot product of two 4-component rows.
pub open spec fn dot4(
    a0: int, a1: int, a2: int, a3: int, b0: int, b1: int, b2: int, b3: int,
) -> int {
    fadd(fadd(fadd(fmul(a0, b0), fmul(a1, b1)), fmul(a2, b2)), fmul(a3, b3))
}

fn dot4_f(a0: i64, a1: i64, a2: i64, a3: i64, b0: i64, b1: i64, b2: i64, b3: i64) -> (r: i64)
    ensures
        r as int == dot4(a0 as int, a1 as int, a2 as int, a3 as int, b0 as int, b1 as int,
            b2 as int, b3 as int),
{
    add_f(add_f(add_f(mul_f(a0, b0), mul_f(a1, b1)), mul_f(a2, b2)), mul_f(a3, b3))
}

/// The identity matrix.
pub open spec fn midentity() -> Matrix {
    Matrix {
        m00: SCALE, m01: 0i64, m02: 0i64, m03: 0i64,
        m10: 0i64, m11: SCALE, m12: 0i64, m13: 0i64,
        m20: 0i64, m21: 0i64, m22: SCALE, m23: 0i64,
        m30: 0i64, m31: 0i64, m32: 0i64, m33: SCALE,
    }
}

/// Matrix product.
#[verifier::opaque]
pub open spec fn mmul(a: Matrix, b: Matrix) -> Matrix {
    Matrix {
        m00: dot4(a.m00 as int, a.m01 as int, a.m02 as int, a.m03 as int, b.m00 as int, b.m10 as int, b.m20 as int, b.m30 as int) as i64,
        m01: dot4(a.m00 as int, a.m01 as int, a.m02 as int, a.m03 as int, b.m01 as int, b.m11 as int, b.m21 as int, b.m31 as int) as i64,
        m02: dot4(a.m00 as int, a.m01 as int, a.m02 as int, a.m03 as int, b.m02 as int, b.m12 as int, b.m22 as int, b.m32 as int) as i64,
        m03: dot4(a.m00 as int, a.m01 as int, a.m02 as int, a.m03 as int, b.m03 as int, b.m13 as int, b.m23 as int, b.m33 as int) as i64,
        m10: dot4(a.m10 as int, a.m11 as int, a.m12 as int, a.m13 as int, b.m00 as int, b.m10 as int, b.m20 as int, b.m30 as int) as i64,
        m11: dot4(a.m10 as int, a.m11 as int, a.m12 as int, a.m13 as int, b.m01 as int, b.m11 as int, b.m21 as int, b.m31 as int) as i64,
        m12: dot4(a.m10 as int, a.m11 as int, a.m12 as int, a.m13 as int, b.m02 as int, b.m12 as int, b.m22 as int, b.m32 as int) as i64,
        m13: dot4(a.m10 as int, a.m11 as int, a.m12 as int, a.m13 as int, b.m03 as int, b.m13 as int, b.m23 as int, b.m33 as int) as i64,
        m20: dot4(a.m20 as int, a.m21 as int, a.m22 as int, a.m23 as int, b.m00 as int, b.m10 as int, b.m20 as int, b.m30 as int) as i64,
        m21: dot4(a.m20 as int, a.m21 as int, a.m22 as int, a.m23 as int, b.m01 as int, b.m11 as int, b.m21 as int, b.m31 as int) as i64,
        m22: dot4(a.m20 as int, a.m21 as int, a.m22 as int, a.m23 as int, b.m02 as int, b.m12 as int, b.m22 as int, b.m32 as int) as i64,
        m23: dot4(a.m20 as int, a.m21 as int, a.m22 as int, a.m23 as int, b.m03 as int, b.m13 as int, b.m23 as int, b.m33 as int) as i64,
        m30: dot4(a.m30 as int, a.m31 as int, a.m32 as int, a.m33 as int, b.m00 as int, b.m10 as int, b.m20 as int, b.m30 as int) as i64,
        m31: dot4(a.m30 as int, a.m31 as int, a.m32 as int, a.m33 as int, b.m01 as int, b.m11 as int, b.m21 as int, b.m31 as int) as i64,
        m32: dot4(a.m30 as int, a.m31 as int, a.m32 as int, a.m33 as int, b.m02 as int, b.m12 as int, b.m22 as int, b.m32 as int) as i64,
        m33: dot4(a.m30 as int, a.m31 as int, a.m32 as int, a.m33 as int, b.m03 as int, b.m13 as int, b.m23 as int, b.m33 as int) as i64,
    }
}

/// Matrix applied to a tuple.
#[verifier::opaque]
pub open spec fn mmul_t(a: Matrix, t: RayTuple) -> RayTuple {
    RayTuple {
        x: dot4(a.m00 as int, a.m01 as int, a.m02 as int, a.m03 as int, t.x as int, t.y as int, t.z as int, t.w as int) as i64,
        y: dot4(a.m10 as int, a.m11 as int, a.m12 as int, a.m13 as int, t.x as int, t.y as int, t.z as int, t.w as int) as i64,
        z: dot4(a.m20 as int, a.m21 as int, a.m22 as int, a.m23 as int, t.x as int, t.y as int, t.z as int, t.w as int) as i64,
        w: dot4(a.m30 as int, a.m31 as int, a.m32 as int, a.m33 as int, t.x as int, t.y as int, t.z as int, t.w as int) as i64,
    }
}

/// Transpose.
pub open spec fn mtranspose(a: Matrix) -> Matrix {
    Matrix {
        m00: a.m00,
        m01: a.m10,
        m02: a.m20,
        m03: a.m30,
        m10: a.m01,
        m11: a.m11,
        m12: a.m21,
        m13: a.m31,
        m20: a.m02,
        m21: a.m12,
        m22: a.m22,
        m23: a.m32,
        m30: a.m03,
        m31: a.m13,
        m32: a.m23,
        m33: a.m33,
    }
}

/// Determinant, computed from the 2x2 minors of the first and last two rows.
#[verifier::opaque]
pub open spec fn mdet(a: Matrix) -> int {
    let s0 = fsub(fmul(a.m00 as int, a.m11 as int), fmul(a.m10 as int, a.m01 as int));
    let s1 = fsub(fmul(a.m00 as int, a.m12 as int), fmul(a.m10 as int, a.m02 as int));
    let s2 = fsub(fmul(a.m00 as int, a.m13 as int), fmul(a.m10 as int, a.m03 as int));
    let s3 = fsub(fmul(a.m01 as int, a.m12 as int), fmul(a.m11 as int, a.m02 as int));
    let s4 = fsub(fmul(a.m01 as int, a.m13 as int), fmul(a.m11 as int, a.m03 as int));
    let s5 = fsub(fmul(a.m02 as int, a.m13 as int), fmul(a.m12 as int, a.m03 as int));
    let c5 = fsub(fmul(a.m22 as int, a.m33 as int), fmul(a.m32 as int, a.m23 as int));
    let c4 = fsub(fmul(a.m21 as int, a.m33 as int), fmul(a.m31 as int, a.m23 as int));
    let c3 = fsub(fmul(a.m21 as int, a.m32 as int), fmul(a.m31 as int, a.m22 as int));
    let c2 = fsub(fmul(a.m20 as int, a.m33 as int), fmul(a.m30 as int, a.m23 as int));
    let c1 = fsub(fmul(a.m20 as int, a.m32 as int), fmul(a.m30 as int, a.m22 as int));
    let c0 = fsub(fmul(a.m20 as int, a.m31 as int), fmul(a.m30 as int, a.m21 as int));
    fadd(fsub(fadd(fadd(fsub(fmul(s0, c5), fmul(s1, c4)), fmul(s2, c3)), fmul(s3, c2)), fmul(s4, c1)), fmul(s5, c0))
}

/// Inverse; meaningful only when `mdet(a) != 0`.
#[verifier::opaque]
pub open spec fn minverse(a: Matrix) -> Matrix {
    let det = mdet(a);
    let s0 = fsub(fmul(a.m00 as int, a.m11 as int), fmul(a.m10 as int, a.m01 as int));
    let s1 = fsub(fmul(a.m00 as int, a.m12 as int), fmul(a.m10 as int, a.m02 as int));
    let s2 = fsub(fmul(a.m00 as int, a.m13 as int), fmul(a.m10 as int, a.m03 as int));
    let s3 = fsub(fmul(a.m01 as int, a.m12 as int), fmul(a.m11 as int, a.m02 as int));
    let s4 = fsub(fmul(a.m01 as int, a.m13 as int), fmul(a.m11 as int, a.m03 as int));
    let s5 = fsub(fmul(a.m02 as int, a.m13 as int), fmul(a.m12 as int, a.m03 as int));
    let c5 = fsub(fmul(a.m22 as int, a.m33 as int), fmul(a.m32 as int, a.m23 as int));
    let c4 = fsub(fmul(a.m21 as int, a.m33 as int), fmul(a.m31 as int, a.m23 as int));
    let c3 = fsub(fmul(a.m21 as int, a.m32 as int), fmul(a.m31 as int, a.m22 as int));
    let c2 = fsub(fmul(a.m20 as int, a.m33 as int), fmul(a.m30 as int, a.m23 as int));
    let c1 = fsub(fmul(a.m20 as int, a.m32 as int), fmul(a.m30 as int, a.m22 as int));
    let c0 = fsub(fmul(a.m20 as int, a.m31 as int), fmul(a.m30 as int, a.m21 as int));
    let b00 = fadd(fsub(fmul(a.m11 as int, c5), fmul(a.m12 as int, c4)), fmul(a.m13 as int, c3));
    let b01 = fneg(fadd(fsub(fmul(a.m01 as int, c5), fmul(a.m02 as int, c4)), fmul(a.m03 as int, c3)));
    let b02 = fadd(fsub(fmul(a.m31 as int, s5), fmul(a.m32 as int, s4)), fmul(a.m33 as int, s3));
    let b03 = fneg(fadd(fsub(fmul(a.m21 as int, s5), fmul(a.m22 as int, s4)), fmul(a.m23 as int, s3)));
    let b10 = fneg(fadd(fsub(fmul(a.m10 as int, c5), fmul(a.m12 as int, c2)), fmul(a.m13 as int, c1)));
    let b11 = fadd(fsub(fmul(a.m00 as int, c5), fmul(a.m02 as int, c2)), fmul(a.m03 as int, c1));
    let b12 = fneg(fadd(fsub(fmul(a.m30 as int, s5), fmul(a.m32 as int, s2)), fmul(a.m33 as int, s1)));
    let b13 = fadd(fsub(fmul(a.m20 as int, s5), fmul(a.m22 as int, s2)), fmul(a.m23 as int, s1));
    let b20 = fadd(fsub(fmul(a.m10 as int, c4), fmul(a.m11 as int, c2)), fmul(a.m13 as int, c0));
    let b21 = fneg(fadd(fsub(fmul(a.m00 as int, c4), fmul(a.m01 as int, c2)), fmul(a.m03 as int, c0)));
    let b22 = fadd(fsub(fmul(a.m30 as int, s4), fmul(a.m31 as int, s2)), fmul(a.m33 as int, s0));
    let b23 = fneg(fadd(fsub(fmul(a.m20 as int, s4), fmul(a.m21 as int, s2)), fmul(a.m23 as int, s0)));
    let b30 = fneg(fadd(fsub(fmul(a.m10 as int, c3), fmul(a.m11 as int, c1)), fmul(a.m12 as int, c0)));
    let b31 = fadd(fsub(fmul(a.m00 as int, c3), fmul(a.m01 as int, c1)), fmul(a.m02 as int, c0));
    let b32 = fneg(fadd(fsub(fmul(a.m30 as int, s3), fmul(a.m31 as int, s1)), fmul(a.m32 as int, s0)));
    let b33 = fadd(fsub(fmul(a.m20 as int, s3), fmul(a.m21 as int, s1)), fmul(a.m22 as int, s0));
    Matrix {
        m00: fdiv(b00, det) as i64,
        m01: fdiv(b01, det) as i64,
        m02: fdiv(b02, det) as i64,
        m03: fdiv(b03, det) as i64,
        m10: fdiv(b10, det) as i64,
        m11: fdiv(b11, det) as i64,
        m12: fdiv(b12, det) as i64,
        m13: fdiv(b13, det) as i64,
        m20: fdiv(b20, det) as i64,
        m21: fdiv(b21, det) as i64,
        m22: fdiv(b22, det) as i64,
        m23: fdiv(b23, det) as i64,
        m30: fdiv(b30, det) as i64,
        m31: fdiv(b31, det) as i64,
        m32: fdiv(b32, det) as i64,
        m33: fdiv(b33, det) as i64,
    }
}

/// Translation by `(x, y, z)`.
pub open spec fn mtranslation(x: i64, y: i64, z: i64) -> Matrix {
    Matrix {
        m00: SCALE, m01: 0i64, m02: 0i64, m03: x,
        m10: 0i64, m11: SCALE, m12: 0i64, m13: y,
        m20: 0i64, m21: 0i64, m22: SCALE, m23: z,
        m30: 0i64, m31: 0i64, m32: 0i64, m33: SCALE,
    }
}

/// Scaling by `(x, y, z)`.
pub open spec fn mscaling(x: i64, y: i64, z: i64) -> Matrix {
    Matrix {
        m00: x, m01: 0i64, m02: 0i64, m03: 0i64,
        m10: 0i64, m11: y, m12: 0i64, m13: 0i64,
        m20: 0i64, m21: 0i64, m22: z, m23: 0i64,
        m30: 0i64, m31: 0i64, m32: 0i64, m33: SCALE,
    }
}

/// Rotation about the x axis by `r` radians.
pub open spec fn mrotation_x(r: int) -> Matrix {
    Matrix {
        m00: SCALE, m01: 0i64, m02: 0i64, m03: 0i64,
        m10: 0i64, m11: fcos(r) as i64, m12: fneg(fsin(r)) as i64, m13: 0i64,
        m20: 0i64, m21: fsin(r) as i64, m22: fcos(r) as i64, m23: 0i64,
        m30: 0i64, m31: 0i64, m32: 0i64, m33: SCALE,
    }
}

/// Rotation about the y axis by `r` radians.
pub open spec fn mrotation_y(r: int) -> Matrix {
    Matrix {
        m00: fcos(r) as i64, m01: 0i64, m02: fsin(r) as i64, m03: 0i64,
        m10: 0i64, m11: SCALE, m12: 0i64, m13: 0i64,
        m20: fneg(fsin(r)) as i64, m21: 0i64, m22: fcos(r) as i64, m23: 0i64,
        m30: 0i64, m31: 0i64, m32: 0i64, m33: SCALE,
    }
}

/// Rotation about the z axis by `r` radians.
pub open spec fn mrotation_z(r: int) -> Matrix {
    Matrix {
        m00: fcos(r) as i64, m01: fneg(fsin(r)) as i64, m02: 0i64, m03: 0i64,
        m10: fsin(r) as i64, m11: fcos(r) as i64, m12: 0i64, m13: 0i64,
        m20: 0i64, m21: 0i64, m22: SCALE, m23: 0i64,
        m30: 0i64, m31: 0i64, m32: 0i64, m33: SCALE,
    }
}

/// Shearing: each parameter moves one coordinate in proportion to another.
pub open spec fn mshearing(xy: i64, xz: i64, yx: i64, yz: i64, zx: i64, zy: i64) -> Matrix {
    Matrix {
        m00: SCALE, m01: xy, m02: xz, m03: 0i64,
        m10: yx, m11: SCALE, m12: yz, m13: 0i64,
        m20: zx, m21: zy, m22: SCALE, m23: 0i64,
        m30: 0i64, m31: 0i64, m32: 0i64, m33: SCALE,
    }
}

/// The world-to-camera transform that looks from `from` towards `to` with the
/// given up direction.
pub open spec fn mview_transform(from: RayTuple, to: RayTuple, up: RayTuple) -> Matrix {
    let forward = tnormalize(tsub(to, from));
    let upn = tnormalize(up);
    let left = tcross(forward, upn);
    let true_up = tcross(left, forward);
    let nf = tneg(forward);
    let orientation = Matrix {
        m00: left.x, m01: left.y, m02: left.z, m03: 0i64,
        m10: true_up.x, m11: true_up.y, m12: true_up.z, m13: 0i64,
        m20: nf.x, m21: nf.y, m22: nf.z, m23: 0i64,
        m30: 0i64, m31: 0i64, m32: 0i64, m33: SCALE,
    };
    mmul(orientation, mtranslation(fneg(from.x as int) as i64, fneg(from.y as int) as i64,
        fneg(from.z as int) as i64))
}

/// Multiplying any matrix by the identity returns it unchanged.
pub proof fn lemma_mul_identity(a: Matrix)
    ensures
        mmul(a, midentity()) == a,
        mmul(midentity(), a) == a,
{
    reveal(mmul);
    crate::fixed::lemma_fmul_identity(a.m00 as int);
    crate::fixed::lemma_fmul_identity(a.m01 as int);
    crate::fixed::lemma_fmul_identity(a.m02 as int);
    crate::fixed::lemma_fmul_identity(a.m03 as int);
    crate::fixed::lemma_fmul_identity(a.m10 as int);
    crate::fixed::lemma_fmul_identity(a.m11 as int);
    crate::fixed::lemma_fmul_identity(a.m12 as int);
    crate::fixed::lemma_fmul_identity(a.m13 as int);
    crate::fixed::lemma_fmul_identity(a.m20 as int);
    crate::fixed::lemma_fmul_identity(a.m21 as int);
    crate::fixed::lemma_fmul_identity(a.m22 as int);
    crate::fixed::lemma_fmul_identity(a.m23 as int);
    crate::fixed::lemma_fmul_identity(a.m30 as int);
    crate::fixed::lemma_fmul_identity(a.m31 as int);
    crate::fixed::lemma_fmul_identity(a.m32 as int);
    crate::fixed::lemma_fmul_identity(a.m33 as int);
    crate::fixed::lemma_fmul_zero(a.m00 as int);
    crate::fixed::lemma_fmul_zero(a.m01 as int);
    crate::fixed::lemma_fmul_zero(a.m02 as int);
    crate::fixed::lemma_fmul_zero(a.m03 as int);
    crate::fixed::lemma_fmul_zero(a.m10 as int);
    crate::fixed::lemma_fmul_zero(a.m11 as int);
    crate::fixed::lemma_fmul_zero(a.m12 as int);
    crate::fixed::lemma_fmul_zero(a.m13 as int);
    crate::fixed::lemma_fmul_zero(a.m20 as int);
    crate::fixed::lemma_fmul_zero(a.m21 as int);
    crate::fixed::lemma_fmul_zero(a.m22 as int);
    crate::fixed::lemma_fmul_zero(a.m23 as int);
    crate::fixed::lemma_fmul_zero(a.m30 as int);
    crate::fixed::lemma_fmul_zero(a.m31 as int);
    crate::fixed::lemma_fmul_zero(a.m32 as int);
    crate::fixed::lemma_fmul_zero(a.m33 as int);
}

/// Transposing twice returns the matrix unchanged.
pub proof fn lemma_transpose_involution(a: Matrix)
    ensures
        mtranspose(mtranspose(a)) == a,
{
}

impl Matrix {
    /// Builds a matrix from its sixteen entries, row by row.
    pub fn new_matrix4(m: [[i64; 4]; 4]) -> (r: Self)
        ensures
            r.m00 == m[0][0] && r.m01 == m[0][1] && r.m02 == m[0][2] && r.m03 == m[0][3],
            r.m10 == m[1][0] && r.m11 == m[1][1] && r.m12 == m[1][2] && r.m13 == m[1][3],
            r.m20 == m[2][0] && r.m21 == m[2][1] && r.m22 == m[2][2] && r.m23 == m[2][3],
            r.m30 == m[3][0] && r.m31 == m[3][1] && r.m32 == m[3][2] && r.m33 == m[3][3],
    {
        Self {
            m00: m[0][0], m01: m[0][1], m02: m[0][2], m03: m[0][3],
            m10: m[1][0], m11: m[1][1], m12: m[1][2], m13: m[1][3],
            m20: m[2][0], m21: m[2][1], m22: m[2][2], m23: m[2][3],
            m30: m[3][0], m31: m[3][1], m32: m[3][2], m33: m[3][3],
        }
    }

    /// The identity matrix.
    pub fn identity() -> (r: Self)
        ensures
            r == midentity(),
    {
        Self {
            m00: SCALE, m01: 0, m02: 0, m03: 0,
            m10: 0, m11: SCALE, m12: 0, m13: 0,
            m20: 0, m21: 0, m22: SCALE, m23: 0,
            m30: 0, m31: 0, m32: 0, m33: SCALE,
        }
    }

    /// The entry at row `r`, column `c`.
    pub fn at(&self, r: usize, c: usize) -> (v: i64)
        requires
            r < 4,
            c < 4,
    {
        if r == 0 {
            if c == 0 { self.m00 } else if c == 1 { self.m01 } else if c == 2 { self.m02 } else { self.m03 }
        } else if r == 1 {
            if c == 0 { self.m10 } else if c == 1 { self.m11 } else if c == 2 { self.m12 } else { self.m13 }
        } else if r == 2 {
            if c == 0 { self.m20 } else if c == 1 { self.m21 } else if c == 2 { self.m22 } else { self.m23 }
        } else {
            if c == 0 { self.m30 } else if c == 1 { self.m31 } else if c == 2 { self.m32 } else { self.m33 }
        }
    }

    /// Matrix product.
    pub fn multiply(&self, other: &Matrix) -> (r: Matrix)
        ensures
            r == mmul(*self, *other),
    {
        proof {
            reveal(mmul);
        }
        Matrix {
            m00: dot4_f(self.m00, self.m01, self.m02, self.m03, other.m00, other.m10, other.m20, other.m30),
            m01: dot4_f(self.m00, self.m01, self.m02, self.m03, other.m01, other.m11, other.m21, other.m31),
            m02: dot4_f(self.m00, self.m01, self.m02, self.m03, other.m02, other.m12, other.m22, other.m32),
            m03: dot4_f(self.m00, self.m01, self.m02, self.m03, other.m03, other.m13, other.m23, other.m33),
            m10: dot4_f(self.m10, self.m11, self.m12, self.m13, other.m00, other.m10, other.m20, other.m30),
            m11: dot4_f(self.m10, self.m11, self.m12, self.m13, other.m01, other.m11, other.m21, other.m31),
            m12: dot4_f(self.m10, self.m11, self.m12, self.m13, other.m02, other.m12, other.m22, other.m32),
            m13: dot4_f(self.m10, self.m11, self.m12, self.m13, other.m03, other.m13, other.m23, other.m33),
            m20: dot4_f(self.m20, self.m21, self.m22, self.m23, other.m00, other.m10, other.m20, other.m30),
            m21: dot4_f(self.m20, self.m21, self.m22, self.m23, other.m01, other.m11, other.m21, other.m31),
            m22: dot4_f(self.m20, self.m21, self.m22, self.m23, other.m02, other.m12, other.m22, other.m32),
            m23: dot4_f(self.m20, self.m21, self.m22, self.m23, other.m03, other.m13, other.m23, other.m33),
            m30: dot4_f(self.m30, self.m31, self.m32, self.m33, other.m00, other.m10, other.m20, other.m30),
            m31: dot4_f(self.m30, self.m31, self.m32, self.m33, other.m01, other.m11, other.m21, other.m31),
            m32: dot4_f(self.m30, self.m31, self.m32, self.m33, other.m02, other.m12, other.m22, other.m32),
            m33: dot4_f(self.m30, self.m31, self.m32, self.m33, other.m03, other.m13, other.m23, other.m33),
        }
    }

    /// This matrix applied to a tuple.
    pub fn mul_tuple(&self, t: RayTuple) -> (r: RayTuple)
        ensures
            r == mmul_t(*self, t),
    {
        proof {
            reveal(mmul_t);
        }
        RayTuple {
            x: dot4_f(self.m00, self.m01, self.m02, self.m03, t.x, t.y, t.z, t.w),
            y: dot4_f(self.m10, self.m11, self.m12, self.m13, t.x, t.y, t.z, t.w),
            z: dot4_f(self.m20, self.m21, self.m22, self.m23, t.x, t.y, t.z, t.w),
            w: dot4_f(self.m30, self.m31, self.m32, self.m33, t.x, t.y, t.z, t.w),
        }
    }

    /// Transpose.
    pub fn transpose(&self) -> (r: Matrix)
        ensures
            r == mtranspose(*self),
    {
        Matrix {
            m00: self.m00,
            m01: self.m10,
            m02: self.m20,
            m03: self.m30,
            m10: self.m01,
            m11: self.m11,
            m12: self.m21,
            m13: self.m31,
            m20: self.m02,
            m21: self.m12,
            m22: self.m22,
            m23: self.m32,
            m30: self.m03,
            m31: self.m13,
            m32: self.m23,
            m33: self.m33,
        }
    }

    /// Determinant.
    pub fn determinant(&self) -> (r: i64)
        ensures
            r as int == mdet(*self),
    {
        proof {
            reveal(mdet);
        }
        let s0: i64 = sub_f(mul_f(self.m00, self.m11), mul_f(self.m10, self.m01));
        let s1: i64 = sub_f(mul_f(self.m00, self.m12), mul_f(self.m10, self.m02));
        let s2: i64 = sub_f(mul_f(self.m00, self.m13), mul_f(self.m10, self.m03));
        let s3: i64 = sub_f(mul_f(self.m01, self.m12), mul_f(self.m11, self.m02));
        let s4: i64 = sub_f(mul_f(self.m01, self.m13), mul_f(self.m11, self.m03));
        let s5: i64 = sub_f(mul_f(self.m02, self.m13), mul_f(self.m12, self.m03));
        let c5: i64 = sub_f(mul_f(self.m22, self.m33), mul_f(self.m32, self.m23));
        let c4: i64 = sub_f(mul_f(self.m21, self.m33), mul_f(self.m31, self.m23));
        let c3: i64 = sub_f(mul_f(self.m21, self.m32), mul_f(self.m31, self.m22));
        let c2: i64 = sub_f(mul_f(self.m20, self.m33), mul_f(self.m30, self.m23));
        let c1: i64 = sub_f(mul_f(self.m20, self.m32), mul_f(self.m30, self.m22));
        let c0: i64 = sub_f(mul_f(self.m20, self.m31), mul_f(self.m30, self.m21));
        add_f(sub_f(add_f(add_f(sub_f(mul_f(s0, c5), mul_f(s1, c4)), mul_f(s2, c3)), mul_f(s3, c2)), mul_f(s4, c1)), mul_f(s5, c0))
    }

    /// Whether the matrix has an inverse.
    pub fn invertible(&self) -> (r: bool)
        ensures
            r == (mdet(*self) != 0),
    {
        self.determinant() != 0
    }

    /// The inverse, or `None` when the determinant is zero.
    pub fn inverse(&self) -> (r: Option<Matrix>)
        ensures
            mdet(*self) == 0 <==> r is None,
            mdet(*self) != 0 ==> r == Some(minverse(*self)),
    {
        proof {
            reveal(minverse);
        }
        let det: i64 = self.determinant();
        if det == 0 {
            return None;
        }
        let s0: i64 = sub_f(mul_f(self.m00, self.m11), mul_f(self.m10, self.m01));
        let s1: i64 = sub_f(mul_f(self.m00, self.m12), mul_f(self.m10, self.m02));
        let s2: i64 = sub_f(mul_f(self.m00, self.m13), mul_f(self.m10, self.m03));
        let s3: i64 = sub_f(mul_f(self.m01, self.m12), mul_f(self.m11, self.m02));
        let s4: i64 = sub_f(mul_f(self.m01, self.m13), mul_f(self.m11, self.m03));
        let s5: i64 = sub_f(mul_f(self.m02, self.m13), mul_f(self.m12, self.m03));
        let c5: i64 = sub_f(mul_f(self.m22, self.m33), mul_f(self.m32, self.m23));
        let c4: i64 = sub_f(mul_f(self.m21, self.m33), mul_f(self.m31, self.m23));
        let c3: i64 = sub_f(mul_f(self.m21, self.m32), mul_f(self.m31, self.m22));
        let c2: i64 = sub_f(mul_f(self.m20, self.m33), mul_f(self.m30, self.m23));
        let c1: i64 = sub_f(mul_f(self.m20, self.m32), mul_f(self.m30, self.m22));
        let c0: i64 = sub_f(mul_f(self.m20, self.m31), mul_f(self.m30, self.m21));
        let b00: i64 = add_f(sub_f(mul_f(self.m11, c5), mul_f(self.m12, c4)), mul_f(self.m13, c3));
        let b01: i64 = neg_f(add_f(sub_f(mul_f(self.m01, c5), mul_f(self.m02, c4)), mul_f(self.m03, c3)));
        let b02: i64 = add_f(sub_f(mul_f(self.m31, s5), mul_f(self.m32, s4)), mul_f(self.m33, s3));
        let b03: i64 = neg_f(add_f(sub_f(mul_f(self.m21, s5), mul_f(self.m22, s4)), mul_f(self.m23, s3)));
        let b10: i64 = neg_f(add_f(sub_f(mul_f(self.m10, c5), mul_f(self.m12, c2)), mul_f(self.m13, c1)));
        let b11: i64 = add_f(sub_f(mul_f(self.m00, c5), mul_f(self.m02, c2)), mul_f(self.m03, c1));
        let b12: i64 = neg_f(add_f(sub_f(mul_f(self.m30, s5), mul_f(self.m32, s2)), mul_f(self.m33, s1)));
        let b13: i64 = add_f(sub_f(mul_f(self.m20, s5), mul_f(self.m22, s2)), mul_f(self.m23, s1));
        let b20: i64 = add_f(sub_f(mul_f(self.m10, c4), mul_f(self.m11, c2)), mul_f(self.m13, c0));
        let b21: i64 = neg_f(add_f(sub_f(mul_f(self.m00, c4), mul_f(self.m01, c2)), mul_f(self.m03, c0)));
        let b22: i64 = add_f(sub_f(mul_f(self.m30, s4), mul_f(self.m31, s2)), mul_f(self.m33, s0));
        let b23: i64 = neg_f(add_f(sub_f(mul_f(self.m20, s4), mul_f(self.m21, s2)), mul_f(self.m23, s0)));
        let b30: i64 = neg_f(add_f(sub_f(mul_f(self.m10, c3), mul_f(self.m11, c1)), mul_f(self.m12, c0)));
        let b31: i64 = add_f(sub_f(mul_f(self.m00, c3), mul_f(self.m01, c1)), mul_f(self.m02, c0));
        let b32: i64 = neg_f(add_f(sub_f(mul_f(self.m30, s3), mul_f(self.m31, s1)), mul_f(self.m32, s0)));
        let b33: i64 = add_f(sub_f(mul_f(self.m20, s3), mul_f(self.m21, s1)), mul_f(self.m22, s0));
        Some(Matrix {
            m00: div_f(b00, det),
            m01: div_f(b01, det),
            m02: div_f(b02, det),
            m03: div_f(b03, det),
            m10: div_f(b10, det),
            m11: div_f(b11, det),
            m12: div_f(b12, det),
            m13: div_f(b13, det),
            m20: div_f(b20, det),
            m21: div_f(b21, det),
            m22: div_f(b22, det),
            m23: div_f(b23, det),
            m30: div_f(b30, det),
            m31: div_f(b31, det),
            m32: div_f(b32, det),
            m33: div_f(b33, det),
        })
    }

    /// Translation by `(x, y, z)`.
    pub fn translation(x: i64, y: i64, z: i64) -> (r: Matrix)
        ensures
            r == mtranslation(x, y, z),
    {
        Matrix {
            m00: SCALE, m01: 0, m02: 0, m03: x,
            m10: 0, m11: SCALE, m12: 0, m13: y,
            m20: 0, m21: 0, m22: SCALE, m23: z,
            m30: 0, m31: 0, m32: 0, m33: SCALE,
        }
    }

    /// Scaling by `(x, y, z)`.
    pub fn scaling(x: i64, y: i64, z: i64) -> (r: Matrix)
        ensures
            r == mscaling(x, y, z),
    {
        Matrix {
            m00: x, m01: 0, m02: 0, m03: 0,
            m10: 0, m11: y, m12: 0, m13: 0,
            m20: 0, m21: 0, m22: z, m23: 0,
            m30: 0, m31: 0, m32: 0, m33: SCALE,
        }
    }

    /// Rotation about the x axis by `r` radians.
    pub fn rotation_x(r: i64) -> (m: Matrix)
        ensures
            m == mrotation_x(r as int),
    {
        let c = cos_f(r);
        let s = sin_f(r);
        Matrix {
            m00: SCALE, m01: 0, m02: 0, m03: 0,
            m10: 0, m11: c, m12: neg_f(s), m13: 0,
            m20: 0, m21: s, m22: c, m23: 0,
            m30: 0, m31: 0, m32: 0, m33: SCALE,
        }
    }

    /// Rotation about the y axis by `r` radians.
    pub fn rotation_y(r: i64) -> (m: Matrix)
        ensures
            m == mrotation_y(r as int),
    {
        let c = cos_f(r);
        let s = sin_f(r);
        Matrix {
            m00: c, m01: 0, m02: s, m03: 0,
            m10: 0, m11: SCALE, m12: 0, m13: 0,
            m20: neg_f(s), m21: 0, m22: c, m23: 0,
            m30: 0, m31: 0, m32: 0, m33: SCALE,
        }
    }

    /// Rotation about the z axis by `r` radians.
    pub fn rotation_z(r: i64) -> (m: Matrix)
        ensures
            m == mrotation_z(r as int),
    {
        let c = cos_f(r);
        let s = sin_f(r);
        Matrix {
            m00: c, m01: neg_f(s), m02: 0, m03: 0,
            m10: s, m11: c, m12: 0, m13: 0,
            m20: 0, m21: 0, m22: SCALE, m23: 0,
            m30: 0, m31: 0, m32: 0, m33: SCALE,
        }
    }

    /// Shearing: each parameter moves one coordinate in proportion to
    /// another.
    pub fn shearing(xy: i64, xz: i64, yx: i64, yz: i64, zx: i64, zy: i64) -> (r: Matrix)
        ensures
            r == mshearing(xy, xz, yx, yz, zx, zy),
    {
        Matrix {
            m00: SCALE, m01: xy, m02: xz, m03: 0,
            m10: yx, m11: SCALE, m12: yz, m13: 0,
            m20: zx, m21: zy, m22: SCALE, m23: 0,
            m30: 0, m31: 0, m32: 0, m33: SCALE,
        }
    }

    /// The world-to-camera transform that looks from `from` towards `to` with
    /// the given up direction.
    pub fn view_transform(from: RayTuple, to: RayTuple, up: RayTuple) -> (r: Matrix)
        ensures
            r == mview_transform(from, to, up),
    {
        let forward = to.sub(from).normalize();
        let upn = up.normalize();
        let left = forward.cross(upn);
        let true_up = left.cross(forward);
        let nf = forward.neg();
        let orientation = Matrix {
            m00: left.x, m01: left.y, m02: left.z, m03: 0,
            m10: true_up.x, m11: true_up.y, m12: true_up.z, m13: 0,
            m20: nf.x, m21: nf.y, m22: nf.z, m23: 0,
            m30: 0, m31: 0, m32: 0, m33: SCALE,
        };
        orientation.multiply(&Matrix::translation(neg_f(from.x), neg_f(from.y), neg_f(from.z)))
    }
}

} // verus!
