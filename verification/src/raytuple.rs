//! Four-component tuples: points (`w == 1.0`) and vectors (`w == 0.0`).

use vstd::prelude::*;
use crate::fixed::{
    fadd, fsub, fneg, fmul, fdiv, fsqrt, SCALE, add_f, sub_f, neg_f, mul_f, div_f, sqrt_f,
};

verus! {

/// A 4-component tuple of fixed-point scalars.
#[derive(Clone, Copy, Debug, PartialEq, Eq, Structural)]
pub struct RayTuple {
    pub x: i64,
    pub y: i64,
    pub z: i64,
    pub w: i64,
}

/// Componentwise sum.
pub open spec fn tadd(a: RayTuple, b: RayTuple) -> RayTuple {
    RayTuple {
        x: fadd(a.x as int, b.x as int) as i64,
        y: fadd(a.y as int, b.y as int) as i64,
        z: fadd(a.z as int, b.z as int) as i64,
        w: fadd(a.w as int, b.w as int) as i64,
    }
}

/// Componentwise difference.
pub open spec fn tsub(a: RayTuple, b: RayTuple) -> RayTuple {
    RayTuple {
        x: fsub(a.x as int, b.x as int) as i64,
        y: fsub(a.y as int, b.y as int) as i64,
        z: fsub(a.z as int, b.z as int) as i64,
        w: fsub(a.w as int, b.w as int) as i64,
    }
}

/// Componentwise negation.
pub open spec fn tneg(a: RayTuple) -> RayTuple {
    RayTuple {
        x: fneg(a.x as int) as i64,
        y: fneg(a.y as int) as i64,
        z: fneg(a.z as int) as i64,
        w: fneg(a.w as int) as i64,
    }
}

/// Componentwise scaling by a fixed-point scalar.
pub open spec fn tscale(a: RayTuple, s: int) -> RayTuple {
    RayTuple {
        x: fmul(a.x as int, s) as i64,
        y: fmul(a.y as int, s) as i64,
        z: fmul(a.z as int, s) as i64,
        w: fmul(a.w as int, s) as i64,
    }
}

/// Componentwise division by a non-zero fixed-point scalar.
pub open spec fn tdivide(a: RayTuple, s: int) -> RayTuple {
    RayTuple {
        x: fdiv(a.x as int, s) as i64,
        y: fdiv(a.y as int, s) as i64,
        z: fdiv(a.z as int, s) as i64,
        w: fdiv(a.w as int, s) as i64,
    }
}

/// Dot product of two tuples.
pub open spec fn tdot(a: RayTuple, b: RayTuple) -> int {
    fadd(
        fadd(
            fadd(fmul(a.x as int, b.x as int), fmul(a.y as int, b.y as int)),
            fmul(a.z as int, b.z as int),
        ),
        fmul(a.w as int, b.w as int),
    )
}

/// Length of a tuple.
pub open spec fn tmagnitude(a: RayTuple) -> int {
    fsqrt(tdot(a, a))
}

/// A tuple scaled to unit length; a tuple whose magnitude rounds to zero is
/// returned unchanged.
pub open spec fn tnormalize(a: RayTuple) -> RayTuple {
    if tmagnitude(a) == 0 {
        a
    } else {
        tdivide(a, tmagnitude(a))
    }
}

/// Cross product of two tuples, taken on the spatial components.
pub open spec fn tcross(a: RayTuple, b: RayTuple) -> RayTuple {
    RayTuple {
        x: fsub(fmul(a.y as int, b.z as int), fmul(a.z as int, b.y as int)) as i64,
        y: fsub(fmul(a.z as int, b.x as int), fmul(a.x as int, b.z as int)) as i64,
        z: fsub(fmul(a.x as int, b.y as int), fmul(a.y as int, b.x as int)) as i64,
        w: 0,
    }
}

/// Reflection of an incoming vector about a surface normal:
/// `a - n * 2 * dot(a, n)`.
pub open spec fn treflect(a: RayTuple, n: RayTuple) -> RayTuple {
    tsub(a, tscale(n, fmul(2 * SCALE as int, tdot(a, n))))
}

/// The dot product of a tuple with itself is non-negative.
pub proof fn lemma_tdot_self_nonneg(a: RayTuple)
    ensures
        tdot(a, a) >= 0,
{
    crate::fixed::lemma_fmul_self_nonneg(a.x as int);
    crate::fixed::lemma_fmul_self_nonneg(a.y as int);
    crate::fixed::lemma_fmul_self_nonneg(a.z as int);
    crate::fixed::lemma_fmul_self_nonneg(a.w as int);
}

impl RayTuple {
    /// Builds a tuple from its four components.
    pub fn new(x: i64, y: i64, z: i64, w: i64) -> (r: Self)
        ensures
            r == (RayTuple { x, y, z, w }),
    {
        Self { x, y, z, w }
    }

    /// The all-zero tuple.
    pub fn zero() -> (r: Self)
        ensures
            r == (RayTuple { x: 0i64, y: 0i64, z: 0i64, w: 0i64 }),
    {
        Self { x: 0, y: 0, z: 0, w: 0 }
    }

    /// A point: `w` is 1.0.
    pub fn point(x: i64, y: i64, z: i64) -> (r: Self)
        ensures
            r == (RayTuple { x, y, z, w: SCALE }),
    {
        Self { x, y, z, w: SCALE }
    }

    /// A vector: `w` is 0.
    pub fn vector(x: i64, y: i64, z: i64) -> (r: Self)
        ensures
            r == (RayTuple { x, y, z, w: 0i64 }),
    {
        Self { x, y, z, w: 0 }
    }

    /// Whether the tuple is a point.
    pub fn is_a_point(&self) -> (r: bool)
        ensures
            r == (self.w == SCALE),
    {
        self.w == SCALE
    }

    /// Whether the tuple is a vector.
    pub fn is_a_vector(&self) -> (r: bool)
        ensures
            r == (self.w == 0),
    {
        self.w == 0
    }

    /// Componentwise sum.
    pub fn add(self, other: Self) -> (r: Self)
        ensures
            r == tadd(self, other),
    {
        Self {
            x: add_f(self.x, other.x),
            y: add_f(self.y, other.y),
            z: add_f(self.z, other.z),
            w: add_f(self.w, other.w),
        }
    }

    /// Componentwise difference.
    pub fn sub(self, other: Self) -> (r: Self)
        ensures
            r == tsub(self, other),
    {
        Self {
            x: sub_f(self.x, other.x),
            y: sub_f(self.y, other.y),
            z: sub_f(self.z, other.z),
            w: sub_f(self.w, other.w),
        }
    }

    /// Componentwise negation.
    pub fn neg(self) -> (r: Self)
        ensures
            r == tneg(self),
    {
        Self { x: neg_f(self.x), y: neg_f(self.y), z: neg_f(self.z), w: neg_f(self.w) }
    }

    /// Componentwise scaling by a fixed-point scalar.
    pub fn scale(self, s: i64) -> (r: Self)
        ensures
            r == tscale(self, s as int),
    {
        Self {
            x: mul_f(self.x, s),
            y: mul_f(self.y, s),
            z: mul_f(self.z, s),
            w: mul_f(self.w, s),
        }
    }

    /// Componentwise division by a non-zero fixed-point scalar.
    pub fn divide(self, s: i64) -> (r: Self)
        requires
            s != 0,
        ensures
            r == tdivide(self, s as int),
    {
        Self {
            x: div_f(self.x, s),
            y: div_f(self.y, s),
            z: div_f(self.z, s),
            w: div_f(self.w, s),
        }
    }

    /// Dot product.
    pub fn dot(&self, other: Self) -> (r: i64)
        ensures
            r as int == tdot(*self, other),
    {
        add_f(
            add_f(
                add_f(mul_f(self.x, other.x), mul_f(self.y, other.y)),
                mul_f(self.z, other.z),
            ),
            mul_f(self.w, other.w),
        )
    }

    /// Length of the tuple.
    pub fn magnitude(&self) -> (r: i64)
        ensures
            r as int == tmagnitude(*self),
            r >= 0,
    {
        let d = self.dot(*self);
        proof {
            lemma_tdot_self_nonneg(*self);
        }
        sqrt_f(d)
    }

    /// The tuple scaled to unit length; a tuple whose magnitude rounds to
    /// zero is returned unchanged.
    pub fn normalize(&self) -> (r: Self)
        ensures
            r == tnormalize(*self),
    {
        let m = self.magnitude();
        if m == 0 {
            *self
        } else {
            self.divide(m)
        }
    }

    /// Cross product on the spatial components.
    pub fn cross(&self, other: Self) -> (r: Self)
        ensures
            r == tcross(*self, other),
    {
        Self {
            x: sub_f(mul_f(self.y, other.z), mul_f(self.z, other.y)),
            y: sub_f(mul_f(self.z, other.x), mul_f(self.x, other.z)),
            z: sub_f(mul_f(self.x, other.y), mul_f(self.y, other.x)),
            w: 0,
        }
    }

    /// Reflection of this vector about the given surface normal.
    pub fn reflect(&self, normal: Self) -> (r: Self)
        ensures
            r == treflect(*self, normal),
    {
        let d = self.dot(normal);
        let two = mul_f(2 * SCALE, d);
        self.sub(normal.scale(two))
    }
}

} // verus!
