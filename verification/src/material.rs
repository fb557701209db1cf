//! Surface materials and the Phong lighting model.

use vstd::prelude::*;
use crate::fixed::{fpow, ffloor, SCALE, pow_f, floor_f};
use crate::color::{Color, cadd, cscale, chadamard};
use crate::raytuple::{RayTuple, tsub, tneg, tdot, tnormalize, treflect};
use crate::light::Light;
use crate::pattern::{Pattern, pattern_at_shape_spec};
use crate::matrix::mdet;
use crate::shape::Shape;

verus! {

/// A surface material: base color, the Phong coefficients, an optional
/// procedural pattern, and the reflection and refraction coefficients.
#[derive(Clone, Copy, Debug, PartialEq, Eq, Structural)]
pub struct Material {
    pub color: Color,
    pub ambient: i64,
    pub diffuse: i64,
    pub specular: i64,
    pub shininess: i64,
    pub pattern: Option<Pattern>,
    pub reflective: i64,
    pub transparency: i64,
    pub refractive_index: i64,
}

/// The default material: white, ambient 0.1, diffuse 0.9, specular 0.9,
/// shininess 200, no pattern, opaque, refractive index 1 (vacuum).
pub open spec fn default_material() -> Material {
    Material {
        color: Color { red: SCALE, green: SCALE, blue: SCALE },
        ambient: 10_000_000i64,
        diffuse: 90_000_000i64,
        specular: 90_000_000i64,
        shininess: 20_000_000_000i64,
        pattern: None,
        reflective: 0i64,
        transparency: 0i64,
        refractive_index: SCALE,
    }
}

/// The whole-number exponent used for the specular highlight, taken from the
/// fixed-point shininess.
pub open spec fn shininess_exponent(sh: int) -> nat {
    let f = ffloor(sh);
    if f < 0 {
        0
    } else if f > u32::MAX as int {
        u32::MAX as nat
    } else {
        f as nat
    }
}

/// The material's requirements for lighting a shape: a pattern can only be
/// sampled through invertible transforms.
pub open spec fn lighting_wf(m: Material, shape: Shape) -> bool {
    m.pattern is Some ==> mdet(shape.transform) != 0 && mdet(m.pattern.unwrap().transform) != 0
}

/// Phong lighting at a point: ambient always contributes; diffuse and
/// specular are dropped when the light is behind the surface or the point is
/// shadowed.
pub open spec fn lighting_spec(
    m: Material,
    shape: Shape,
    light: Light,
    point: RayTuple,
    eyev: RayTuple,
    normalv: RayTuple,
    in_shadow: bool,
) -> Color {
    let pattern_color = match m.pattern {
        Some(p) => pattern_at_shape_spec(p, shape, point),
        None => m.color,
    };
    let effective_color = chadamard(pattern_color, light.intensity);
    let lightv = tnormalize(tsub(light.position, point));
    let ambient = cscale(effective_color, m.ambient as int);
    let light_dot_normal = tdot(lightv, normalv);
    if light_dot_normal < 0 || in_shadow {
        ambient
    } else {
        let diffuse = cscale(cscale(effective_color, m.diffuse as int), light_dot_normal);
        let reflectv = tneg(treflect(lightv, normalv));
        let reflect_dot_eye = tdot(reflectv, eyev);
        if reflect_dot_eye <= 0 {
            cadd(ambient, diffuse)
        } else {
            let factor = fpow(reflect_dot_eye, shininess_exponent(m.shininess as int));
            let specular = cscale(cscale(light.intensity, m.specular as int), factor);
            cadd(cadd(ambient, diffuse), specular)
        }
    }
}

impl Material {
    /// The default material.
    pub fn new() -> (r: Self)
        ensures
            r == default_material(),
    {
        Self {
            color: Color::new(SCALE, SCALE, SCALE),
            ambient: 10_000_000,
            diffuse: 90_000_000,
            specular: 90_000_000,
            shininess: 20_000_000_000,
            pattern: None,
            reflective: 0,
            transparency: 0,
            refractive_index: SCALE,
        }
    }

    /// Phong lighting of this material on a shape.
    pub fn lighting(
        self,
        shape: Shape,
        light: &Light,
        point: RayTuple,
        eyev: RayTuple,
        normalv: RayTuple,
        in_shadow: bool,
    ) -> (r: Color)
        requires
            lighting_wf(self, shape),
        ensures
            r == lighting_spec(self, shape, *light, point, eyev, normalv, in_shadow),
    {
        let pattern_color = match self.pattern {
            Some(p) => p.pattern_at_shape(shape, point),
            None => self.color,
        };
        let effective_color = pattern_color.hadamard(light.intensity);
        let lightv = light.position.sub(point).normalize();
        let ambient = effective_color.scale(self.ambient);
        let light_dot_normal = lightv.dot(normalv);
        if light_dot_normal < 0 || in_shadow {
            ambient
        } else {
            let diffuse = effective_color.scale(self.diffuse).scale(light_dot_normal);
            let reflectv = lightv.reflect(normalv).neg();
            let reflect_dot_eye = reflectv.dot(eyev);
            if reflect_dot_eye <= 0 {
                ambient.add(diffuse)
            } else {
                let fl = floor_f(self.shininess);
                let e: u32 = if fl < 0 {
                    0
                } else if fl > u32::MAX as i64 {
                    u32::MAX
                } else {
                    fl as u32
                };
                let factor = pow_f(reflect_dot_eye, e);
                let specular = light.intensity.scale(self.specular).scale(factor);
                ambient.add(diffuse).add(specular)
            }
        }
    }
}

} // verus!
