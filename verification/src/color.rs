//! RGB colors with fixed-point channels.

use vstd::prelude::*;
use crate::fixed::{fadd, fsub, fmul, add_f, sub_f, mul_f};

verus! {

/// An RGB color; channel values are fixed-point scalars, with 0 to `SCALE`
/// covering the displayable range.
#[derive(Clone, Copy, Debug, PartialEq, Eq, Structural)]
pub struct Color {
    pub red: i64,
    pub green: i64,
    pub blue: i64,
}

/// Channelwise sum.
pub open spec fn cadd(a: Color, b: Color) -> Color {
    Color {
        red: fadd(a.red as int, b.red as int) as i64,
        green: fadd(a.green as int, b.green as int) as i64,
        blue: fadd(a.blue as int, b.blue as int) as i64,
    }
}

/// Channelwise difference.
pub open spec fn csub(a: Color, b: Color) -> Color {
    Color {
        red: fsub(a.red as int, b.red as int) as i64,
        green: fsub(a.green as int, b.green as int) as i64,
        blue: fsub(a.blue as int, b.blue as int) as i64,
    }
}

/// Channelwise scaling by a fixed-point scalar.
pub open spec fn cscale(a: Color, s: int) -> Color {
    Color {
        red: fmul(a.red as int, s) as i64,
        green: fmul(a.green as int, s) as i64,
        blue: fmul(a.blue as int, s) as i64,
    }
}

/// Hadamard (channelwise) product of two colors.
pub open spec fn chadamard(a: Color, b: Color) -> Color {
    Color {
        red: fmul(a.red as int, b.red as int) as i64,
        green: fmul(a.green as int, b.green as int) as i64,
        blue: fmul(a.blue as int, b.blue as int) as i64,
    }
}

/// Black: all channels zero.
pub open spec fn black() -> Color {
    Color { red: 0i64, green: 0i64, blue: 0i64 }
}

impl Color {
    /// Builds a color from its three channels.
    pub fn new(red: i64, green: i64, blue: i64) -> (r: Self)
        ensures
            r == (Color { red, green, blue }),
    {
        Self { red, green, blue }
    }

    /// Black: all channels zero.
    pub fn black() -> (r: Self)
        ensures
            r == black(),
    {
        Self { red: 0, green: 0, blue: 0 }
    }

    /// Channelwise sum.
    pub fn add(self, other: Self) -> (r: Self)
        ensures
            r == cadd(self, other),
    {
        Self {
            red: add_f(self.red, other.red),
            green: add_f(self.green, other.green),
            blue: add_f(self.blue, other.blue),
        }
    }

    /// Channelwise difference.
    pub fn sub(self, other: Self) -> (r: Self)
        ensures
            r == csub(self, other),
    {
        Self {
            red: sub_f(self.red, other.red),
            green: sub_f(self.green, other.green),
            blue: sub_f(self.blue, other.blue),
        }
    }

    /// Channelwise scaling by a fixed-point scalar.
    pub fn scale(self, s: i64) -> (r: Self)
        ensures
            r == cscale(self, s as int),
    {
        Self {
            red: mul_f(self.red, s),
            green: mul_f(self.green, s),
            blue: mul_f(self.blue, s),
        }
    }

    /// Hadamard (channelwise) product.
    pub fn hadamard(self, other: Self) -> (r: Self)
        ensures
            r == chadamard(self, other),
    {
        Self {
            red: mul_f(self.red, other.red),
            green: mul_f(self.green, other.green),
            blue: mul_f(self.blue, other.blue),
        }
    }
}

} // verus!
