//! Rays: an origin point and a direction vector.

use vstd::prelude::*;
use crate::fixed::{SCALE, sub_f, add_f, neg_f, div_int_f, scale_int};
use crate::raytuple::{RayTuple, tadd, tscale};
use crate::matrix::{Matrix, mmul_t, midentity, mdet};
use crate::canvas::{Canvas, canvas_wf};
use crate::color::Color;
use crate::light::Light;
use crate::material::Material;
use crate::shape::{Shape, ShapeType, lemma_intersect_objects};
use crate::intersection::{Intersection, lemma_hit_properties};

verus! {

/// A ray: origin point plus direction vector.
#[derive(Clone, Copy, Debug, PartialEq, Eq, Structural)]
pub struct Ray {
    pub origin: RayTuple,
    pub direction: RayTuple,
}

/// The point at parameter `t` along a ray: `origin + direction * t`.
pub open spec fn rposition(r: Ray, t: int) -> RayTuple {
    tadd(r.origin, tscale(r.direction, t))
}

/// A ray carried through a transform: both origin and direction are mapped.
pub open spec fn rtransform(r: Ray, m: Matrix) -> Ray {
    Ray { origin: mmul_t(m, r.origin), direction: mmul_t(m, r.direction) }
}

impl Ray {
    /// Builds a ray from an origin and a direction.
    pub fn new(origin: RayTuple, direction: RayTuple) -> (r: Self)
        ensures
            r == (Ray { origin, direction }),
    {
        Self { origin, direction }
    }

    /// The point at parameter `t` along the ray.
    pub fn position(self, t: i64) -> (p: RayTuple)
        ensures
            p == rposition(self, t as int),
    {
        self.origin.add(self.direction.scale(t))
    }

    /// The ray carried through a transform.
    pub fn transform(self, m: Matrix) -> (r: Self)
        ensures
            r == rtransform(self, m),
    {
        Self { origin: m.mul_tuple(self.origin), direction: m.mul_tuple(self.direction) }
    }
}

/// Applying the identity matrix to a tuple returns it unchanged.
pub proof fn lemma_identity_mul_tuple(t: RayTuple)
    ensures
        mmul_t(midentity(), t) == t,
{
    reveal(crate::matrix::mmul_t);
    crate::fixed::lemma_fmul_identity(t.x as int);
    crate::fixed::lemma_fmul_identity(t.y as int);
    crate::fixed::lemma_fmul_identity(t.z as int);
    crate::fixed::lemma_fmul_identity(t.w as int);
    crate::fixed::lemma_fmul_zero(t.x as int);
    crate::fixed::lemma_fmul_zero(t.y as int);
    crate::fixed::lemma_fmul_zero(t.z as int);
    crate::fixed::lemma_fmul_zero(t.w as int);
    assert(mmul_t(midentity(), t).x == t.x);
    assert(mmul_t(midentity(), t).y == t.y);
    assert(mmul_t(midentity(), t).z == t.z);
    assert(mmul_t(midentity(), t).w == t.w);
}

/// Transforming a ray by the identity matrix returns an equal ray.
pub proof fn lemma_ray_identity_transform(r: Ray)
    ensures
        rtransform(r, midentity()) == r,
{
    lemma_identity_mul_tuple(r.origin);
    lemma_identity_mul_tuple(r.direction);
}

/// Casts a ray per pixel from a fixed origin at a unit sphere and paints the
/// pixels the sphere covers red.
pub fn chapter_five_raysphere() -> (c: Canvas)
    ensures
        canvas_wf(c),
        c.width == 100,
        c.height == 100,
{
    let canvas_pixels: i32 = 100;
    let mut canvas = Canvas::new(canvas_pixels, canvas_pixels);
    let color = Color::new(SCALE, 0, 0);
    let mut shape = Shape::new(ShapeType::Sphere);

    let ray_origin = RayTuple::point(0, 0, -5 * SCALE);
    let wall_z: i64 = 10 * SCALE;
    let wall_size: i64 = 7 * SCALE;

    let pixel_size = div_int_f(wall_size, canvas_pixels as i64);
    let half = div_int_f(wall_size, 2);

    let mut y: i32 = 0;
    while y < canvas_pixels
        invariant
            0 <= y <= canvas_pixels,
            canvas_wf(canvas),
            canvas.width == canvas_pixels,
            canvas.height == canvas_pixels,
            canvas_pixels == 100,
        decreases canvas_pixels - y,
    {
        let world_y = sub_f(half, scale_int(pixel_size, y as i64));
        let mut x: i32 = 0;
        while x < canvas_pixels
            invariant
                0 <= y < canvas_pixels,
                0 <= x <= canvas_pixels,
                canvas_wf(canvas),
                canvas.width == canvas_pixels,
                canvas.height == canvas_pixels,
                canvas_pixels == 100,
            decreases canvas_pixels - x,
        {
            let world_x = add_f(neg_f(half), scale_int(pixel_size, x as i64));
            let position = RayTuple::point(world_x, world_y, wall_z);
            let r = Ray::new(ray_origin, position.sub(ray_origin).normalize());
            let xs = shape.intersect(r);
            match Intersection::hit(xs) {
                Some(_inter) => {
                    canvas.write_pixel(x, y, color);
                },
                None => {},
            }
            x = x + 1;
        }
        y = y + 1;
    }
    canvas
}

/// Casts a ray per pixel at a unit sphere and shades each hit with the
/// Phong model under a single white light.
pub fn chapter_six_lighting() -> (c: Canvas)
    ensures
        canvas_wf(c),
        c.width == 2160,
        c.height == 2160,
{
    let canvas_pixels: i32 = 2160;
    let mut canvas = Canvas::new(canvas_pixels, canvas_pixels);

    let mut shape = Shape::new(ShapeType::Sphere);
    shape.material = Material::new();
    shape.material.color = Color::new(SCALE, 20_000_000, SCALE);

    let light = Light::point_light(
        RayTuple::point(-10 * SCALE, 10 * SCALE, -10 * SCALE),
        Color::new(SCALE, SCALE, SCALE),
    );

    let ray_origin = RayTuple::point(0, 0, -5 * SCALE);
    let wall_z: i64 = 10 * SCALE;
    let wall_size: i64 = 7 * SCALE;

    let pixel_size = div_int_f(wall_size, canvas_pixels as i64);
    let half = div_int_f(wall_size, 2);

    let mut y: i32 = 0;
    while y < canvas_pixels
        invariant
            0 <= y <= canvas_pixels,
            canvas_wf(canvas),
            canvas.width == canvas_pixels,
            canvas.height == canvas_pixels,
            canvas_pixels == 2160,
            shape.material.pattern is None,
        decreases canvas_pixels - y,
    {
        let world_y = sub_f(half, scale_int(pixel_size, y as i64));
        let mut x: i32 = 0;
        while x < canvas_pixels
            invariant
                0 <= y < canvas_pixels,
                0 <= x <= canvas_pixels,
                canvas_wf(canvas),
                canvas.width == canvas_pixels,
                canvas.height == canvas_pixels,
                canvas_pixels == 2160,
                shape.material.pattern is None,
            decreases canvas_pixels - x,
        {
            let world_x = add_f(neg_f(half), scale_int(pixel_size, x as i64));
            let position = RayTuple::point(world_x, world_y, wall_z);
            let r = Ray::new(ray_origin, position.sub(ray_origin).normalize());
            let ghost pre = shape;
            let xs = shape.intersect(r);
            let ghost xs_seq = xs@;
            match Intersection::hit(xs) {
                Some(inter) => {
                    proof {
                        lemma_intersect_objects(pre, r);
                        lemma_hit_properties(xs_seq);
                        assert(xs_seq.contains(inter));
                        let j = choose|j: int| 0 <= j < xs_seq.len() && xs_seq[j] == inter;
                        assert(mdet(xs_seq[j].object.transform) != 0);
                        assert(xs_seq[j].object.material == pre.material);
                    }
                    let point = r.position(inter.t);
                    let normal = inter.object.normal_at(point);
                    let eye = r.direction.neg();
                    let color = inter.object.material.lighting(
                        inter.object,
                        &light,
                        point,
                        eye,
                        normal,
                        false,
                    );
                    canvas.write_pixel(x, y, color);
                },
                None => {},
            }
            x = x + 1;
        }
        y = y + 1;
    }
    canvas
}

} // verus!
