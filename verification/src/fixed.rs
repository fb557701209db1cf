//! Fixed-point scalar arithmetic.
//!
//! Every scalar in the renderer is an `i64` holding a real number scaled by
//! `SCALE` (so `SCALE` itself represents 1.0). All operations round to the
//! nearest representable value, halves away from zero, and saturate at the
//! ends of the `i64` range instead of overflowing.

use vstd::prelude::*;

verus! {

/// Number of fixed-point units in 1.0.
pub const SCALE: i64 = 100_000_000;

/// Comparison tolerance of the renderer (1e-5), in fixed-point units.
pub const EPSILON: i64 = 1_000;

/// Clamps an unbounded integer into the range of `i64`.
pub open spec fn sat64(x: int) -> int {
    if x > i64::MAX as int {
        i64::MAX as int
    } else if x < i64::MIN as int {
        i64::MIN as int
    } else {
        x
    }
}

/// Quotient of `n` by `d` (for `d > 0`), rounded to the nearest integer with
/// halves away from zero.
pub open spec fn rdiv(n: int, d: int) -> int {
    if n >= 0 {
        (n + d / 2) / d
    } else {
        -((-n + d / 2) / d)
    }
}

/// Saturating fixed-point addition.
pub open spec fn fadd(a: int, b: int) -> int {
    sat64(a + b)
}

/// Saturating fixed-point subtraction.
pub open spec fn fsub(a: int, b: int) -> int {
    sat64(a - b)
}

/// Saturating fixed-point negation.
pub open spec fn fneg(a: int) -> int {
    sat64(-a)
}

/// Fixed-point absolute value.
pub open spec fn fabs(a: int) -> int {
    if a < 0 {
        sat64(-a)
    } else {
        a
    }
}

/// Fixed-point multiplication: the product is rescaled by `SCALE`, rounded to
/// nearest, and saturated.
pub open spec fn fmul(a: int, b: int) -> int {
    sat64(rdiv(a * b, SCALE as int))
}

/// Fixed-point division (`b != 0`): rounded to nearest and saturated.
pub open spec fn fdiv(a: int, b: int) -> int {
    if b >= 0 {
        sat64(rdiv(a * (SCALE as int), b))
    } else {
        sat64(rdiv(-(a * (SCALE as int)), -b))
    }
}

/// Division of a fixed-point value by a plain integer (`n != 0`), rounded to
/// nearest and saturated.
pub open spec fn fdiv_int(a: int, n: int) -> int {
    if n >= 0 {
        sat64(rdiv(a, n))
    } else {
        sat64(rdiv(-a, -n))
    }
}

/// `r` is the floor of the square root of `x`.
pub open spec fn is_sqrt(x: int, r: int) -> bool {
    0 <= r && r * r <= x && x < (r + 1) * (r + 1)
}

/// Floor of the square root of a non-negative integer.
pub open spec fn sqrt_floor(x: int) -> int {
    choose|r: int| #[trigger] is_sqrt(x, r)
}

/// Fixed-point square root: the square root of `a` interpreted as a scaled
/// real is `sqrt(a * SCALE)` in fixed-point units.
pub open spec fn fsqrt(a: int) -> int {
    sqrt_floor(a * (SCALE as int))
}

/// Fixed-point power with a plain integer exponent.
pub open spec fn fpow(b: int, e: nat) -> int
    decreases e,
{
    if e == 0 {
        SCALE as int
    } else {
        fmul(b, fpow(b, (e - 1) as nat))
    }
}

/// Floor of a fixed-point value, as a plain integer (Euclidean division by
/// `SCALE`).
pub open spec fn ffloor(a: int) -> int {
    a / (SCALE as int)
}

proof fn lemma_mul_i64_fits(a: int, b: int)
    requires
        i64::MIN <= a <= i64::MAX,
        i64::MIN <= b <= i64::MAX,
    ensures
        -85070591730234615865843651857942052864int <= a * b
            <= 85070591730234615865843651857942052864int,
{
    assert(-85070591730234615865843651857942052864int <= a * b
        <= 85070591730234615865843651857942052864int) by (nonlinear_arith)
        requires
            i64::MIN <= a <= i64::MAX,
            i64::MIN <= b <= i64::MAX,
    ;
}

/// The floor square root of a number is unique.
proof fn lemma_sqrt_unique(x: int, r1: int, r2: int)
    requires
        is_sqrt(x, r1),
        is_sqrt(x, r2),
    ensures
        r1 == r2,
{
    assert(r1 == r2) by (nonlinear_arith)
        requires
            0 <= r1 && r1 * r1 <= x && x < (r1 + 1) * (r1 + 1),
            0 <= r2 && r2 * r2 <= x && x < (r2 + 1) * (r2 + 1),
    ;
}

fn sat_i128(x: i128) -> (r: i64)
    ensures
        r as int == sat64(x as int),
{
    if x > i64::MAX as i128 {
        i64::MAX
    } else if x < i64::MIN as i128 {
        i64::MIN
    } else {
        x as i64
    }
}

/// Saturating fixed-point addition.
pub fn add_f(a: i64, b: i64) -> (r: i64)
    ensures
        r as int == fadd(a as int, b as int),
{
    let s: i128 = a as i128 + b as i128;
    sat_i128(s)
}

/// Saturating fixed-point subtraction.
pub fn sub_f(a: i64, b: i64) -> (r: i64)
    ensures
        r as int == fsub(a as int, b as int),
{
    let s: i128 = a as i128 - b as i128;
    sat_i128(s)
}

/// Saturating fixed-point negation.
pub fn neg_f(a: i64) -> (r: i64)
    ensures
        r as int == fneg(a as int),
{
    sat_i128(-(a as i128))
}

/// Fixed-point absolute value.
pub fn abs_f(a: i64) -> (r: i64)
    ensures
        r as int == fabs(a as int),
{
    if a < 0 {
        sat_i128(-(a as i128))
    } else {
        a
    }
}

/// Divides a non-negative numerator by a positive denominator, rounding to
/// the nearest integer with halves rounded up.
fn rdiv_u128(n: u128, d: u128) -> (q: u128)
    requires
        0 < d,
        n + d <= u128::MAX,
    ensures
        q as int == (n as int + (d as int) / 2) / (d as int),
        q as int <= n as int + (d as int) / 2,
{
    let q = (n + d / 2) / d;
    proof {
        vstd::arithmetic::div_mod::lemma_div_nonincreasing(n as int + (d as int) / 2, d as int);
    }
    q
}

/// Fixed-point multiplication.
pub fn mul_f(a: i64, b: i64) -> (r: i64)
    ensures
        r as int == fmul(a as int, b as int),
{
    proof {
        lemma_mul_i64_fits(a as int, b as int);
    }
    let p: i128 = (a as i128) * (b as i128);
    let neg: bool = p < 0;
    let mag: u128 = if neg {
        (-p) as u128
    } else {
        p as u128
    };
    let q: u128 = rdiv_u128(mag, SCALE as u128);
    let signed: i128 = if neg {
        -(q as i128)
    } else {
        q as i128
    };
    proof {
        assert(signed as int == rdiv(p as int, SCALE as int));
    }
    sat_i128(signed)
}

/// Fixed-point division; the divisor must be non-zero.
pub fn div_f(a: i64, b: i64) -> (r: i64)
    requires
        b != 0,
    ensures
        r as int == fdiv(a as int, b as int),
{
    proof {
        lemma_mul_i64_fits(a as int, SCALE as int);
    }
    let n: i128 = (a as i128) * (SCALE as i128);
    let nneg: bool = n < 0;
    let nmag: u128 = if nneg {
        (-n) as u128
    } else {
        n as u128
    };
    let dneg: bool = b < 0;
    let dmag: u128 = if dneg {
        (-(b as i128)) as u128
    } else {
        b as u128
    };
    let q: u128 = rdiv_u128(nmag, dmag);
    let negate: bool = if dneg {
        n > 0
    } else {
        n < 0
    };
    let signed: i128 = if negate {
        -(q as i128)
    } else {
        q as i128
    };
    proof {
        let ni = n as int;
        let di = -(b as int);
        if dneg {
            assert(dmag as int == di);
            if n > 0 {
                assert(nmag as int == ni);
                assert(q as int == (ni + di / 2) / di);
                assert(rdiv(-ni, di) == -((ni + di / 2) / di));
                assert(signed as int == rdiv(-(n as int), -(b as int)));
            } else {
                assert(nmag as int == -ni);
                assert(q as int == (-ni + di / 2) / di);
                assert(rdiv(-ni, di) == (-ni + di / 2) / di);
                assert(signed as int == rdiv(-(n as int), -(b as int)));
            }
        } else {
            assert(signed as int == rdiv(n as int, b as int));
        }
    }
    sat_i128(signed)
}

/// Divides a fixed-point value by a plain non-zero integer.
pub fn div_int_f(a: i64, n: i64) -> (r: i64)
    requires
        n != 0,
    ensures
        r as int == fdiv_int(a as int, n as int),
{
    let aneg: bool = a < 0;
    let amag: u128 = if aneg {
        (-(a as i128)) as u128
    } else {
        a as u128
    };
    let nneg: bool = n < 0;
    let nmag: u128 = if nneg {
        (-(n as i128)) as u128
    } else {
        n as u128
    };
    let q: u128 = rdiv_u128(amag, nmag);
    let negate: bool = if nneg {
        a > 0
    } else {
        a < 0
    };
    let signed: i128 = if negate {
        -(q as i128)
    } else {
        q as i128
    };
    proof {
        if nneg {
            assert(signed as int == rdiv(-(a as int), -(n as int)));
        } else {
            assert(signed as int == rdiv(a as int, n as int));
        }
    }
    sat_i128(signed)
}

/// Fixed-point square root of a non-negative value.
pub fn sqrt_f(a: i64) -> (r: i64)
    requires
        a >= 0,
    ensures
        r as int == fsqrt(a as int),
        is_sqrt(a as int * (SCALE as int), r as int),
        r >= 0,
{
    proof {
        assert((a as int) * (SCALE as int) <= u128::MAX as int) by (nonlinear_arith)
            requires
                0 <= a as int <= i64::MAX as int,
                SCALE as int == 100_000_000int,
        ;
    }
    let v: u128 = (a as u128) * (SCALE as u128);
    let mut lo: u128 = 0;
    let mut hi: u128 = 30_400_000_000_000;
    proof {
        assert((v as int) < (hi as int + 1) * (hi as int + 1)) by (nonlinear_arith)
            requires
                v as int == (a as int) * (SCALE as int),
                0 <= a as int <= i64::MAX as int,
                SCALE as int == 100_000_000int,
                hi as int == 30_400_000_000_000int,
        ;
    }
    while lo < hi
        invariant
            lo <= hi,
            hi <= 30_400_000_000_000,
            (lo as int) * (lo as int) <= v as int,
            (v as int) < (hi as int + 1) * (hi as int + 1),
        decreases hi - lo,
    {
        let mid: u128 = lo + (hi - lo + 1) / 2;
        proof {
            assert(lo < mid <= hi);
            assert((mid as int) * (mid as int) <= u128::MAX as int) by (nonlinear_arith)
                requires
                    0 <= mid as int <= 30_400_000_000_000int,
            ;
        }
        let sq: u128 = mid * mid;
        if sq <= v {
            lo = mid;
        } else {
            hi = mid - 1;
        }
    }
    let r: u128 = lo;
    proof {
        assert(is_sqrt(v as int, r as int));
        assert(is_sqrt(a as int * (SCALE as int), sqrt_floor(a as int * (SCALE as int)))) by {
            assert(exists|q: int| #[trigger] is_sqrt(a as int * (SCALE as int), q)) by {
                assert(is_sqrt(a as int * (SCALE as int), r as int));
            }
        }
        lemma_sqrt_unique(v as int, r as int, fsqrt(a as int));
        assert((r as int) * (r as int) <= v as int);
        assert(r <= 30_400_000_000_000) by (nonlinear_arith)
            requires
                (r as int) * (r as int) <= v as int,
                (v as int) < (30_400_000_000_000int + 1) * (30_400_000_000_000int + 1),
                r >= 0,
        ;
    }
    r as i64
}

/// Fixed-point power with a plain integer exponent.
pub fn pow_f(b: i64, e: u32) -> (r: i64)
    ensures
        r as int == fpow(b as int, e as nat),
{
    let mut acc: i64 = SCALE;
    let mut i: u32 = 0;
    while i < e
        invariant
            i <= e,
            acc as int == fpow(b as int, i as nat),
        decreases e - i,
    {
        acc = mul_f(b, acc);
        i = i + 1;
    }
    acc
}

/// Floor of a fixed-point value, as a plain integer.
pub fn floor_f(a: i64) -> (r: i64)
    ensures
        r as int == ffloor(a as int),
{
    if a >= 0 {
        let q: u64 = (a as u64) / (SCALE as u64);
        q as i64
    } else {
        let m: u128 = (-(a as i128)) as u128;
        let q: u128 = (m + (SCALE as u128) - 1) / (SCALE as u128);
        proof {
            let s = SCALE as int;
            let qq = q as int;
            assert(qq == (m as int + s - 1) / s);
            vstd::arithmetic::div_mod::lemma_fundamental_div_mod(m as int + s - 1, s);
            assert(-qq * s <= a as int && (a as int) < (-qq + 1) * s) by (nonlinear_arith)
                requires
                    qq == (m as int + s - 1) / s,
                    (m as int + s - 1) == s * qq + ((m as int + s - 1) % s),
                    0 <= (m as int + s - 1) % s < s,
                    m as int == -(a as int),
                    s == SCALE as int,
            ;
            vstd::arithmetic::div_mod::lemma_fundamental_div_mod(a as int, s);
            assert(-qq == a as int / s) by (nonlinear_arith)
                requires
                    -qq * s <= a as int && (a as int) < (-qq + 1) * s,
                    a as int == s * (a as int / s) + (a as int % s),
                    0 <= (a as int % s) < s,
                    s > 0,
            ;
        }
        (-(q as i128)) as i64
    }
}

/// Whether a plain integer is even; matches evenness of the Euclidean
/// remainder by 2.
pub fn even_i(q: i64) -> (r: bool)
    ensures
        r == (q as int % 2int == 0),
{
    let m: u64 = if q < 0 {
        (-(q as i128)) as u64
    } else {
        q as u64
    };
    let r = m % 2 == 0;
    proof {
        if q < 0 {
            assert(r == (q as int % 2int == 0)) by (nonlinear_arith)
                requires
                    m as int == -(q as int),
                    r == (m as int % 2int == 0),
            ;
        }
    }
    r
}

/// The fixed-point square of a value is non-negative.
pub proof fn lemma_fmul_self_nonneg(a: int)
    ensures
        fmul(a, a) >= 0,
{
    assert(a * a >= 0) by (nonlinear_arith);
    if a * a >= 0 {
        vstd::arithmetic::div_mod::lemma_div_pos_is_pos(a * a + (SCALE as int) / 2, SCALE as int);
    }
}

/// Multiplying by one (in fixed point) returns the value unchanged.
pub proof fn lemma_fmul_identity(x: int)
    requires
        i64::MIN <= x <= i64::MAX,
    ensures
        fmul(SCALE as int, x) == x,
        fmul(x, SCALE as int) == x,
{
    let s = SCALE as int;
    assert(x * s == s * x) by (nonlinear_arith);
    if x >= 0 {
        assert((s * x + s / 2) / s == x) by (nonlinear_arith)
            requires
                s == 100_000_000,
                x >= 0,
        ;
        assert(rdiv(s * x, s) == x);
    } else {
        assert((-(s * x) + s / 2) / s == -x) by (nonlinear_arith)
            requires
                s == 100_000_000,
                x < 0,
        ;
        assert(s * x < 0) by (nonlinear_arith)
            requires
                s == 100_000_000,
                x < 0,
        ;
        assert(rdiv(s * x, s) == x);
    }
}

/// Multiplying by zero gives zero.
pub proof fn lemma_fmul_zero(x: int)
    ensures
        fmul(0, x) == 0,
        fmul(x, 0) == 0,
{
    assert(0 * x == 0) by (nonlinear_arith);
    assert(x * 0 == 0) by (nonlinear_arith);
}

/// 2*pi in fixed-point units.
pub const TWO_PI: i64 = 628_318_531;

/// pi in fixed-point units.
pub const PI_F: i64 = 314_159_265;

/// pi/2 in fixed-point units.
pub const HALF_PI: i64 = 157_079_633;

/// Reduces an angle into [-pi/2, pi/2], on which the sine polynomial is
/// accurate, using the periodicity and symmetry of the sine.
pub open spec fn sin_reduce(x: int) -> int {
    let k = fdiv_int(x, TWO_PI as int);
    let r0 = sat64(x - k * (TWO_PI as int));
    if r0 > HALF_PI as int {
        fsub(PI_F as int, r0)
    } else if r0 < -(HALF_PI as int) {
        fsub(-(PI_F as int), r0)
    } else {
        r0
    }
}

/// Truncated Taylor series of the sine (through the 13th power), evaluated by
/// Horner's rule in fixed-point arithmetic; accurate on [-pi/2, pi/2].
pub open spec fn sin_poly(x: int) -> int {
    let x2 = fmul(x, x);
    let s5 = fsub(SCALE as int, fdiv_int(x2, 156));
    let s4 = fsub(SCALE as int, fdiv_int(fmul(x2, s5), 110));
    let s3 = fsub(SCALE as int, fdiv_int(fmul(x2, s4), 72));
    let s2 = fsub(SCALE as int, fdiv_int(fmul(x2, s3), 42));
    let s1 = fsub(SCALE as int, fdiv_int(fmul(x2, s2), 20));
    let s0 = fsub(SCALE as int, fdiv_int(fmul(x2, s1), 6));
    fmul(x, s0)
}

/// Fixed-point sine.
pub open spec fn fsin(x: int) -> int {
    sin_poly(sin_reduce(x))
}

/// Fixed-point cosine.
pub open spec fn fcos(x: int) -> int {
    fsin(fadd(x, HALF_PI as int))
}

/// Fixed-point tangent; where the cosine rounds to zero the result
/// saturates.
pub open spec fn ftan(x: int) -> int {
    if fcos(x) == 0 {
        i64::MAX as int
    } else {
        fdiv(fsin(x), fcos(x))
    }
}

/// Fixed-point sine of an angle in radians.
pub fn sin_f(x: i64) -> (r: i64)
    ensures
        r as int == fsin(x as int),
{
    let k: i64 = div_int_f(x, TWO_PI);
    proof {
        lemma_mul_i64_fits(k as int, TWO_PI as int);
    }
    let kk: i128 = (k as i128) * (TWO_PI as i128);
    let r0: i64 = sat_i128(x as i128 - kk);
    let xr: i64 = if r0 > HALF_PI {
        sub_f(PI_F, r0)
    } else if r0 < -HALF_PI {
        sub_f(-PI_F, r0)
    } else {
        r0
    };
    proof {
        assert(xr as int == sin_reduce(x as int));
    }
    let x2: i64 = mul_f(xr, xr);
    let s5: i64 = sub_f(SCALE, div_int_f(x2, 156));
    let s4: i64 = sub_f(SCALE, div_int_f(mul_f(x2, s5), 110));
    let s3: i64 = sub_f(SCALE, div_int_f(mul_f(x2, s4), 72));
    let s2: i64 = sub_f(SCALE, div_int_f(mul_f(x2, s3), 42));
    let s1: i64 = sub_f(SCALE, div_int_f(mul_f(x2, s2), 20));
    let s0: i64 = sub_f(SCALE, div_int_f(mul_f(x2, s1), 6));
    mul_f(xr, s0)
}

/// Fixed-point cosine of an angle in radians.
pub fn cos_f(x: i64) -> (r: i64)
    ensures
        r as int == fcos(x as int),
{
    sin_f(add_f(x, HALF_PI))
}

/// Fixed-point tangent of an angle in radians.
pub fn tan_f(x: i64) -> (r: i64)
    ensures
        r as int == ftan(x as int),
{
    let s = sin_f(x);
    let c = cos_f(x);
    if c == 0 {
        i64::MAX
    } else {
        div_f(s, c)
    }
}

/// Saturating product of two plain integers.
pub fn scale_int(a: i64, b: i64) -> (r: i64)
    ensures
        r as int == sat64(a as int * b as int),
{
    proof {
        lemma_mul_i64_fits(a as int, b as int);
    }
    let p: i128 = (a as i128) * (b as i128);
    sat_i128(p)
}

/// Whether a wide plain integer is even; matches evenness of the Euclidean
/// remainder by 2.
pub fn even_i128(q: i128) -> (r: bool)
    requires
        -170141183460469231731687303715884105727i128 <= q,
    ensures
        r == (q as int % 2int == 0),
{
    let m: u128 = if q < 0 {
        (-q) as u128
    } else {
        q as u128
    };
    let r = m % 2 == 0;
    proof {
        if q < 0 {
            assert(r == (q as int % 2int == 0)) by (nonlinear_arith)
                requires
                    m as int == -(q as int),
                    r == (m as int % 2int == 0),
            ;
        }
    }
    r
}

} // verus!
