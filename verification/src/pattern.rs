//! Procedural surface patterns: stripes, gradients, rings and checkers.

use vstd::prelude::*;
use crate::fixed::{
    fadd, fsub, fmul, fsqrt, ffloor, sat64, SCALE, add_f, sub_f, mul_f, sqrt_f, floor_f, even_i,
    even_i128, scale_int, lemma_fmul_self_nonneg,
};
use crate::color::{Color, cadd, csub, cscale};
use crate::raytuple::RayTuple;
use crate::matrix::{Matrix, midentity, minverse, mmul_t, mdet};
use crate::shape::Shape;

verus! {

/// The kind of a procedural pattern.
#[derive(Clone, Copy, Debug, PartialEq, Eq, Structural)]
pub enum PatternType {
    Stripe,
    Gradient,
    Test,
    Ring,
    Checker,
}

/// A procedural pattern: two colors and a pattern-space transform.
#[derive(Clone, Copy, Debug, PartialEq, Eq, Structural)]
pub struct Pattern {
    pub pattern_type: PatternType,
    pub a: Color,
    pub b: Color,
    pub transform: Matrix,
}

/// The pattern's color at a point already expressed in pattern space.
pub open spec fn pattern_at_spec(p: Pattern, point: RayTuple) -> Color {
    match p.pattern_type {
        PatternType::Stripe => {
            if ffloor(point.x as int) % 2int == 0 {
                p.a
            } else {
                p.b
            }
        },
        PatternType::Gradient => {
            let distance = csub(p.b, p.a);
            let fraction = fsub(
                point.x as int,
                sat64(ffloor(point.x as int) * (SCALE as int)),
            );
            cadd(p.a, cscale(distance, fraction))
        },
        PatternType::Test => Color { red: point.x, green: point.y, blue: point.z },
        PatternType::Ring => {
            let rr = fadd(
                fmul(point.x as int, point.x as int),
                fmul(point.z as int, point.z as int),
            );
            if ffloor(fsqrt(rr)) % 2int == 0 {
                p.a
            } else {
                p.b
            }
        },
        PatternType::Checker => {
            let d = ffloor(point.x as int) + ffloor(point.y as int) + ffloor(point.z as int);
            if d % 2int == 0 {
                p.a
            } else {
                p.b
            }
        },
    }
}

/// The pattern's color on a shape at a world-space point: the point is
/// carried into object space and then into pattern space before sampling.
pub open spec fn pattern_at_shape_spec(p: Pattern, object: Shape, world_point: RayTuple) -> Color {
    let object_point = mmul_t(minverse(object.transform), world_point);
    let pattern_point = mmul_t(minverse(p.transform), object_point);
    pattern_at_spec(p, pattern_point)
}

impl Pattern {
    /// A stripe pattern alternating along x.
    pub fn stripe_pattern(a: Color, b: Color) -> (r: Self)
        ensures
            r == (Pattern { pattern_type: PatternType::Stripe, a, b, transform: midentity() }),
    {
        Self { pattern_type: PatternType::Stripe, a, b, transform: Matrix::identity() }
    }

    /// The test pattern: reports the pattern-space point as a color.
    pub fn test_pattern() -> (r: Self)
        ensures
            r == (Pattern {
                pattern_type: PatternType::Test,
                a: Color { red: 0i64, green: 0i64, blue: 0i64 },
                b: Color { red: SCALE, green: SCALE, blue: SCALE },
                transform: midentity(),
            }),
    {
        Self {
            pattern_type: PatternType::Test,
            a: Color::new(0, 0, 0),
            b: Color::new(SCALE, SCALE, SCALE),
            transform: Matrix::identity(),
        }
    }

    /// A linear gradient along x.
    pub fn gradient_pattern(a: Color, b: Color) -> (r: Self)
        ensures
            r == (Pattern { pattern_type: PatternType::Gradient, a, b, transform: midentity() }),
    {
        Self { pattern_type: PatternType::Gradient, a, b, transform: Matrix::identity() }
    }

    /// Concentric rings in the xz plane.
    pub fn ring_pattern(a: Color, b: Color) -> (r: Self)
        ensures
            r == (Pattern { pattern_type: PatternType::Ring, a, b, transform: midentity() }),
    {
        Self { pattern_type: PatternType::Ring, a, b, transform: Matrix::identity() }
    }

    /// A three-dimensional checker pattern.
    pub fn checkers_pattern(a: Color, b: Color) -> (r: Self)
        ensures
            r == (Pattern { pattern_type: PatternType::Checker, a, b, transform: midentity() }),
    {
        Self { pattern_type: PatternType::Checker, a, b, transform: Matrix::identity() }
    }

    /// The pattern's color at a point in pattern space.
    pub fn pattern_at(&self, point: RayTuple) -> (r: Color)
        ensures
            r == pattern_at_spec(*self, point),
    {
        match self.pattern_type {
            PatternType::Stripe => {
                let fx = floor_f(point.x);
                if even_i(fx) {
                    self.a
                } else {
                    self.b
                }
            },
            PatternType::Gradient => {
                let distance = self.b.sub(self.a);
                let fx = floor_f(point.x);
                let fraction = sub_f(point.x, scale_int(fx, SCALE));
                self.a.add(distance.scale(fraction))
            },
            PatternType::Test => Color::new(point.x, point.y, point.z),
            PatternType::Ring => {
                let xx = mul_f(point.x, point.x);
                let zz = mul_f(point.z, point.z);
                proof {
                    lemma_fmul_self_nonneg(point.x as int);
                    lemma_fmul_self_nonneg(point.z as int);
                }
                let rr = add_f(xx, zz);
                let d = floor_f(sqrt_f(rr));
                if even_i(d) {
                    self.a
                } else {
                    self.b
                }
            },
            PatternType::Checker => {
                let fx = floor_f(point.x);
                let fy = floor_f(point.y);
                let fz = floor_f(point.z);
                let d: i128 = fx as i128 + fy as i128 + fz as i128;
                if even_i128(d) {
                    self.a
                } else {
                    self.b
                }
            },
        }
    }

    /// The pattern's color on a shape at a world-space point; both the
    /// shape's and the pattern's transforms must be invertible.
    pub fn pattern_at_shape(&self, object: Shape, world_point: RayTuple) -> (r: Color)
        requires
            mdet(object.transform) != 0,
            mdet(self.transform) != 0,
        ensures
            r == pattern_at_shape_spec(*self, object, world_point),
    {
        let object_point = object.transform.inverse().unwrap().mul_tuple(world_point);
        let pattern_point = self.transform.inverse().unwrap().mul_tuple(object_point);
        self.pattern_at(pattern_point)
    }
}

/// Renders a checkered floor and three spheres carrying ring, gradient and
/// plain materials through a 2560x1440 camera. An empty canvas is returned
/// if the scene or camera were ever malformed.
pub fn chapter_ten_patterns() -> (c: crate::canvas::Canvas)
    ensures
        crate::canvas::canvas_wf(c),
        (c.width == 2560 && c.height == 1440) || (c.width == 0 && c.height == 0),
{
    let mut floor = crate::shape::Shape::plane();
    floor.material.color = Color::new(SCALE, 90_000_000, 90_000_000);
    floor.material.specular = 0;
    floor.material.pattern = Some(
        Pattern::checkers_pattern(
            Color::new(SCALE, 90_000_000, 90_000_000),
            Color::new(60_000_000, 50_000_000, 50_000_000),
        ),
    );

    let mut middle = crate::shape::Shape::sphere();
    middle.transform = Matrix::translation(-50_000_000, SCALE, 50_000_000);
    middle.material.color = Color::new(10_000_000, SCALE, 50_000_000);
    middle.material.diffuse = 70_000_000;
    middle.material.specular = 30_000_000;

    let mut middle_ring_pattern = Pattern::ring_pattern(
        Color::new(90_000_000, SCALE, SCALE),
        Color::new(SCALE, 0, 0),
    );
    middle_ring_pattern.transform = Matrix::scaling(15_000_000, 15_000_000, 15_000_000).multiply(
        &Matrix::rotation_x(157_079_633),
    ).multiply(&Matrix::rotation_y(39_269_908));
    middle.material.pattern = Some(middle_ring_pattern);

    let mut right = crate::shape::Shape::sphere();
    right.transform = Matrix::translation(150_000_000, 50_000_000, -50_000_000).multiply(
        &Matrix::scaling(50_000_000, 50_000_000, 50_000_000),
    );
    right.material.color = Color::new(50_000_000, SCALE, 10_000_000);
    right.material.diffuse = 70_000_000;
    right.material.specular = 30_000_000;

    let mut right_gradient_pattern = Pattern::gradient_pattern(
        Color::new(50_000_000, SCALE, 10_000_000),
        Color::new(65_000_000, 20_000_000, 20_000_000),
    );
    right_gradient_pattern.transform = Matrix::scaling(120_000_000, 120_000_000, 120_000_000)
        .multiply(&Matrix::rotation_x(14_000_000)).multiply(&Matrix::rotation_y(171_079_633));
    right.material.pattern = Some(right_gradient_pattern);

    let mut left = crate::shape::Shape::sphere();
    left.transform = Matrix::translation(-150_000_000, 33_000_000, -75_000_000).multiply(
        &Matrix::scaling(33_000_000, 33_000_000, 33_000_000),
    );
    left.material.color = Color::new(SCALE, 80_000_000, 10_000_000);
    left.material.diffuse = 70_000_000;
    left.material.specular = 30_000_000;

    let mut w = crate::world::World::new();
    w.objects.push(floor);
    w.objects.push(middle);
    w.objects.push(left);
    w.objects.push(right);

    let mut cam = crate::camera::Camera::new(2560, 1440, 104_719_755);
    cam.transform = Matrix::view_transform(
        crate::raytuple::RayTuple::point(0, 150_000_000, -5 * SCALE),
        crate::raytuple::RayTuple::point(0, SCALE, 0),
        crate::raytuple::RayTuple::vector(0, SCALE, 0),
    );

    if !w.is_well_formed() {
        return crate::canvas::Canvas::new(0, 0);
    }
    if !cam.transform.invertible() {
        return crate::canvas::Canvas::new(0, 0);
    }
    cam.render(w)
}

} // verus!
