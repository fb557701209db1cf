//! A small offline ray tracer, verified with Verus.
//!
//! Scalars are fixed-point integers (see [`fixed`]); every rendering
//! computation therefore has an exact integer-arithmetic model, and the
//! executable code is proved to match it.

use vstd::prelude::*;

pub mod fixed;
pub mod raytuple;
pub mod color;
pub mod matrix;
pub mod ids;
pub mod ray;
pub mod light;
pub mod material;
pub mod pattern;
pub mod shape;
pub mod computations;
pub mod intersection;
pub mod world;
pub mod canvas;
pub mod camera;

verus! {

} // verus!
