//! Per-hit derived state used by the shading pipeline.

use vstd::prelude::*;
use crate::raytuple::RayTuple;
use crate::shape::Shape;

verus! {

/// Everything the shader needs about one hit: the hit parameter and shape, the
/// hit point, the anti-acne biased points on either side of the surface, the
/// eye vector, the (possibly flipped) normal, the reflection vector, and the
/// refractive indices of the media being exited (`n1`) and entered (`n2`).
#[derive(Clone, Copy, Debug)]
pub struct Computations {
    pub t: i64,
    pub object: Shape,
    pub point: RayTuple,
    pub over_point: RayTuple,
    pub eyev: RayTuple,
    pub normalv: RayTuple,
    pub inside: bool,
    pub reflectv: RayTuple,
    pub n1: i64,
    pub n2: i64,
    pub under_point: RayTuple,
}

impl Computations {
    /// Gathers the per-hit state into one record.
    pub fn new(
        t: i64,
        object: Shape,
        point: RayTuple,
        over_point: RayTuple,
        eyev: RayTuple,
        normalv: RayTuple,
        inside: bool,
        reflectv: RayTuple,
        n1: i64,
        n2: i64,
        under_point: RayTuple,
    ) -> (r: Self)
        ensures
            r == (Computations {
                t,
                object,
                point,
                over_point,
                eyev,
                normalv,
                inside,
                reflectv,
                n1,
                n2,
                under_point,
            }),
    {
        Self { t, object, point, over_point, eyev, normalv, inside, reflectv, n1, n2, under_point }
    }
}

} // verus!
