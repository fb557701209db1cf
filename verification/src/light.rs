//! Point lights: a position and an intensity color.

use vstd::prelude::*;
use crate::color::Color;
use crate::raytuple::RayTuple;

verus! {

/// A point light source.
#[derive(Clone, Copy, Debug, PartialEq, Eq, Structural)]
pub struct Light {
    pub position: RayTuple,
    pub intensity: Color,
}

impl Light {
    /// Builds a point light from a position and an intensity.
    pub fn point_light(position: RayTuple, intensity: Color) -> (r: Self)
        ensures
            r == (Light { position, intensity }),
    {
        Self { position, intensity }
    }
}

} // verus!
