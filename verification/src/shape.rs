//! Surfaces: a closed set of shape kinds, each with a transform, a material,
//! and kind-specific local-space intersection and normal logic.

use vstd::prelude::*;
use crate::fixed::{
    fadd, fsub, fneg, fmul, fdiv, fsqrt, fabs, SCALE, EPSILON, add_f, sub_f, neg_f, mul_f, div_f,
    sqrt_f, abs_f,
};
use crate::raytuple::{RayTuple, tsub, tdot, tnormalize};
use crate::matrix::{Matrix, midentity, minverse, mtranspose, mmul_t, mdet};
use crate::material::{Material, default_material};
use crate::ray::{Ray, rtransform};
use crate::intersection::Intersection;
use crate::ids::{fresh_id, id_eq};

verus! {

/// The kind of a shape.
#[derive(Clone, Copy, Debug, PartialEq, Eq, Structural)]
pub enum ShapeType {
    Sphere,
    Plane,
    Test,
    Cube,
    Cylinder,
}

/// A surface: an equality-only identity, a kind, an object-to-world
/// transform, a material, the last local-space ray seen by `intersect`
/// (a diagnostic aid), and for cylinders a vertical extent.
#[derive(Clone, Copy, Debug)]
pub struct Shape {
    pub id: uuid::Uuid,
    pub shape_type: ShapeType,
    pub transform: Matrix,
    pub material: Material,
    pub saved_ray: Ray,
    pub minimum: i64,
    pub maximum: i64,
}

/// Shape equality: identity, kind, transform and material; the saved ray and
/// the cylinder bounds do not take part.
pub open spec fn shape_eq(a: Shape, b: Shape) -> bool {
    a.id == b.id && a.shape_type == b.shape_type && a.transform == b.transform && a.material
        == b.material
}

impl PartialEq for Shape {
    fn eq(&self, other: &Self) -> (r: bool) {
        id_eq(&self.id, &other.id) && self.shape_type == other.shape_type && self.transform
            == other.transform && self.material == other.material
    }
}

impl vstd::std_specs::cmp::PartialEqSpecImpl for Shape {
    open spec fn obeys_eq_spec() -> bool {
        true
    }

    open spec fn eq_spec(&self, other: &Shape) -> bool {
        shape_eq(*self, *other)
    }
}

/// The ray a fresh shape holds before any intersection has been run.
pub open spec fn initial_saved_ray() -> Ray {
    Ray {
        origin: RayTuple { x: 0i64, y: 0i64, z: 0i64, w: SCALE },
        direction: RayTuple { x: 0i64, y: 0i64, z: 0i64, w: 0i64 },
    }
}

/// Whether a shape has all the defaults of a freshly built one of its kind.
pub open spec fn is_fresh_shape(s: Shape, kind: ShapeType) -> bool {
    s.shape_type == kind && s.transform == midentity() && s.material == default_material()
        && s.saved_ray == initial_saved_ray() && s.minimum == i64::MIN && s.maximum == i64::MAX
}

/// The origin of local space, as a point.
pub open spec fn local_origin() -> RayTuple {
    RayTuple { x: 0i64, y: 0i64, z: 0i64, w: SCALE }
}

/// A copy of `s` with its saved ray replaced.
pub open spec fn with_saved_ray(s: Shape, lr: Ray) -> Shape {
    Shape {
        id: s.id,
        shape_type: s.shape_type,
        transform: s.transform,
        material: s.material,
        saved_ray: lr,
        minimum: s.minimum,
        maximum: s.maximum,
    }
}

/// Local-space intersections of a unit sphere at the origin with `lr`:
/// the roots of the quadratic `|O + tD|^2 = 1`.
pub open spec fn sphere_hits(s: Shape, lr: Ray) -> Seq<Intersection> {
    let sphere_to_ray = tsub(lr.origin, local_origin());
    let a = tdot(lr.direction, lr.direction);
    let b = fmul(2 * SCALE as int, tdot(lr.direction, sphere_to_ray));
    let c = fsub(tdot(sphere_to_ray, sphere_to_ray), SCALE as int);
    let disc = fsub(fmul(b, b), fmul(fmul(4 * SCALE as int, a), c));
    if disc < 0 {
        Seq::empty()
    } else if fmul(2 * SCALE as int, a) == 0 {
        Seq::empty()
    } else {
        let sq = fsqrt(disc);
        let t1 = fdiv(fsub(fneg(b), sq), fmul(2 * SCALE as int, a));
        let t2 = fdiv(fadd(fneg(b), sq), fmul(2 * SCALE as int, a));
        seq![
            Intersection { t: t1 as i64, object: s },
            Intersection { t: t2 as i64, object: s },
        ]
    }
}

/// Local-space intersection of the xz plane with `lr`: one root unless the
/// ray is parallel to the plane.
pub open spec fn plane_hits(s: Shape, lr: Ray) -> Seq<Intersection> {
    if fabs(lr.direction.y as int) < EPSILON as int {
        Seq::empty()
    } else {
        let t = fdiv(fneg(lr.origin.y as int), lr.direction.y as int);
        seq![Intersection { t: t as i64, object: s }]
    }
}

/// An effectively infinite slab parameter with the sign of `n` (used where a
/// ray direction component is close to zero).
pub open spec fn inf_signed(n: int) -> int {
    if n > 0 {
        i64::MAX as int
    } else if n < 0 {
        i64::MIN as int
    } else {
        0
    }
}

/// Entry and exit parameters of a ray coordinate against the [-1, 1] slab of
/// one axis.
pub open spec fn check_axis_spec(origin: int, direction: int) -> (int, int) {
    let tmin_num = fsub(fneg(SCALE as int), origin);
    let tmax_num = fsub(SCALE as int, origin);
    let tmin = if fabs(direction) >= EPSILON as int {
        fdiv(tmin_num, direction)
    } else {
        inf_signed(tmin_num)
    };
    let tmax = if fabs(direction) >= EPSILON as int {
        fdiv(tmax_num, direction)
    } else {
        inf_signed(tmax_num)
    };
    if tmin > tmax {
        (tmax, tmin)
    } else {
        (tmin, tmax)
    }
}

/// Local-space intersections of the unit cube with `lr`: the per-axis slab
/// test.
pub open spec fn cube_hits(s: Shape, lr: Ray) -> Seq<Intersection> {
    let xaxis = check_axis_spec(lr.origin.x as int, lr.direction.x as int);
    let yaxis = check_axis_spec(lr.origin.y as int, lr.direction.y as int);
    let zaxis = check_axis_spec(lr.origin.z as int, lr.direction.z as int);
    let tmin = if xaxis.0 > yaxis.0 {
        if xaxis.0 > zaxis.0 {
            xaxis.0
        } else {
            zaxis.0
        }
    } else {
        if yaxis.0 > zaxis.0 {
            yaxis.0
        } else {
            zaxis.0
        }
    };
    let tmax = if xaxis.1 < yaxis.1 {
        if xaxis.1 < zaxis.1 {
            xaxis.1
        } else {
            zaxis.1
        }
    } else {
        if yaxis.1 < zaxis.1 {
            yaxis.1
        } else {
            zaxis.1
        }
    };
    if tmin > tmax {
        Seq::empty()
    } else {
        seq![
            Intersection { t: tmin as i64, object: s },
            Intersection { t: tmax as i64, object: s },
        ]
    }
}

/// Local-space intersections of the open cylinder about the y axis with
/// `lr`: the quadratic in x and z, with each root kept only when its y lies
/// strictly inside the cylinder's extent.
pub open spec fn cylinder_hits(s: Shape, lr: Ray) -> Seq<Intersection> {
    let a = fadd(
        fmul(lr.direction.x as int, lr.direction.x as int),
        fmul(lr.direction.z as int, lr.direction.z as int),
    );
    if a <= EPSILON as int {
        Seq::empty()
    } else {
        let b = fadd(
            fmul(fmul(2 * SCALE as int, lr.origin.x as int), lr.direction.x as int),
            fmul(fmul(2 * SCALE as int, lr.origin.z as int), lr.direction.z as int),
        );
        let c = fsub(
            fadd(
                fmul(lr.origin.x as int, lr.origin.x as int),
                fmul(lr.origin.z as int, lr.origin.z as int),
            ),
            SCALE as int,
        );
        let disc = fsub(fmul(b, b), fmul(fmul(4 * SCALE as int, a), c));
        if disc < 0 {
            Seq::empty()
        } else if fmul(2 * SCALE as int, a) == 0 {
            Seq::empty()
        } else {
            let ta = fdiv(fsub(fneg(b), fsqrt(disc)), fmul(2 * SCALE as int, a));
            let tb = fdiv(fadd(fneg(b), fsqrt(disc)), fmul(2 * SCALE as int, a));
            let t0 = if ta > tb {
                tb
            } else {
                ta
            };
            let t1 = if ta > tb {
                ta
            } else {
                tb
            };
            let y0 = fadd(lr.origin.y as int, fmul(t0, lr.direction.y as int));
            let first = if s.minimum < y0 && y0 < s.maximum {
                seq![Intersection { t: t0 as i64, object: s }]
            } else {
                Seq::<Intersection>::empty()
            };
            let y1 = fadd(lr.origin.y as int, fmul(t1, lr.direction.y as int));
            if s.minimum < y1 && y1 < s.maximum {
                first.push(Intersection { t: t1 as i64, object: s })
            } else {
                first
            }
        }
    }
}

/// Local-space intersections of a shape whose saved ray is already `lr`.
pub open spec fn local_intersect(s: Shape, lr: Ray) -> Seq<Intersection> {
    match s.shape_type {
        ShapeType::Sphere => sphere_hits(s, lr),
        ShapeType::Plane => plane_hits(s, lr),
        ShapeType::Test => Seq::empty(),
        ShapeType::Cube => cube_hits(s, lr),
        ShapeType::Cylinder => cylinder_hits(s, lr),
    }
}

/// World-space intersections of a shape with a ray: the ray is carried into
/// local space by the inverse transform; a shape whose transform is not
/// invertible contributes no intersections.
pub open spec fn intersect_spec(s: Shape, r: Ray) -> Seq<Intersection> {
    if mdet(s.transform) == 0 {
        Seq::empty()
    } else {
        let lr = rtransform(r, minverse(s.transform));
        local_intersect(with_saved_ray(s, lr), lr)
    }
}

/// The shape after `intersect`: its saved ray holds the local-space ray when
/// the transform was invertible, and is unchanged otherwise.
pub open spec fn after_intersect(s: Shape, r: Ray) -> Shape {
    if mdet(s.transform) == 0 {
        s
    } else {
        with_saved_ray(s, rtransform(r, minverse(s.transform)))
    }
}

/// The local-space surface normal of a shape at a local point, per kind:
/// sphere: the point minus the origin; plane: constant +y; cube: the axis of
/// the largest absolute coordinate, signed; cylinder: (x, 0, z); the test
/// kind reports the local point itself.
pub open spec fn local_normal_spec(s: Shape, op: RayTuple) -> RayTuple {
    match s.shape_type {
        ShapeType::Sphere => tsub(op, local_origin()),
        ShapeType::Plane => RayTuple { x: 0i64, y: SCALE, z: 0i64, w: 0i64 },
        ShapeType::Test => RayTuple { x: op.x, y: op.y, z: op.z, w: 0i64 },
        ShapeType::Cube => {
            let xa = fabs(op.x as int);
            let ya = fabs(op.y as int);
            let za = fabs(op.z as int);
            if xa >= ya {
                if xa >= za {
                    RayTuple { x: op.x, y: 0i64, z: 0i64, w: 0i64 }
                } else {
                    RayTuple { x: 0i64, y: 0i64, z: op.z, w: 0i64 }
                }
            } else {
                if ya >= za {
                    RayTuple { x: 0i64, y: op.y, z: 0i64, w: 0i64 }
                } else {
                    RayTuple { x: 0i64, y: 0i64, z: op.z, w: 0i64 }
                }
            }
        },
        ShapeType::Cylinder => RayTuple { x: op.x, y: 0i64, z: op.z, w: 0i64 },
    }
}

/// The world-space surface normal of a shape at a world point: the local
/// normal of the kind, carried back to world space by the transpose of the
/// inverse transform (normals transform contravariantly under non-uniform
/// scaling), with the homogeneous component zeroed and the result
/// renormalized.
pub open spec fn normal_at_spec(s: Shape, world_point: RayTuple) -> RayTuple {
    let op = mmul_t(minverse(s.transform), world_point);
    let ln = local_normal_spec(s, op);
    let wn = mmul_t(mtranspose(minverse(s.transform)), ln);
    tnormalize(RayTuple { x: wn.x, y: wn.y, z: wn.z, w: 0i64 })
}

impl Shape {
    /// Builds a fresh shape of the given kind with an identity transform and
    /// the default material.
    pub fn new(shape_type: ShapeType) -> (r: Self)
        ensures
            is_fresh_shape(r, shape_type),
    {
        Self {
            id: fresh_id(),
            shape_type,
            transform: Matrix::identity(),
            material: Material::new(),
            saved_ray: Ray::new(
                RayTuple::point(0, 0, 0),
                RayTuple::vector(0, 0, 0),
            ),
            minimum: i64::MIN,
            maximum: i64::MAX,
        }
    }

    /// A fresh test shape, which never intersects anything; it records the
    /// locally transformed ray for inspection.
    pub fn test_shape() -> (r: Self)
        ensures
            is_fresh_shape(r, ShapeType::Test),
    {
        Self::new(ShapeType::Test)
    }

    /// A fresh unit sphere.
    pub fn sphere() -> (r: Self)
        ensures
            is_fresh_shape(r, ShapeType::Sphere),
    {
        Self::new(ShapeType::Sphere)
    }

    /// A fresh glass sphere: fully transparent, refractive index 1.5.
    pub fn glass_sphere() -> (r: Self)
        ensures
            r.shape_type == ShapeType::Sphere,
            r.transform == midentity(),
            r.material == (Material {
                transparency: SCALE,
                refractive_index: 150_000_000i64,
                ..default_material()
            }),
            r.saved_ray == initial_saved_ray(),
            r.minimum == i64::MIN,
            r.maximum == i64::MAX,
    {
        let mut s = Self::sphere();
        s.material.transparency = SCALE;
        s.material.refractive_index = 150_000_000;
        s
    }

    /// A fresh xz plane.
    pub fn plane() -> (r: Self)
        ensures
            is_fresh_shape(r, ShapeType::Plane),
    {
        Self::new(ShapeType::Plane)
    }

    /// A fresh unit cube.
    pub fn cube() -> (r: Self)
        ensures
            is_fresh_shape(r, ShapeType::Cube),
    {
        Self::new(ShapeType::Cube)
    }

    /// A fresh unbounded open cylinder about the y axis.
    pub fn cylinder() -> (r: Self)
        ensures
            is_fresh_shape(r, ShapeType::Cylinder),
    {
        Self::new(ShapeType::Cylinder)
    }

    /// The shape's identity.
    pub fn id(self) -> (r: uuid::Uuid)
        ensures
            r == self.id,
    {
        self.id
    }

    /// Intersects the shape with a world-space ray, recording the
    /// local-space ray in `saved_ray`.
    #[verifier::rlimit(100)]
    pub fn intersect(&mut self, r: Ray) -> (res: Vec<Intersection>)
        ensures
            res@ == intersect_spec(*old(self), r),
            *final(self) == after_intersect(*old(self), r),
    {
        let mut intersections: Vec<Intersection> = Vec::new();
        let inv = self.transform.inverse();
        if inv.is_none() {
            proof {
                assert(intersections@ =~= intersect_spec(*self, r));
            }
            return intersections;
        }
        self.saved_ray = r.transform(inv.unwrap());
        let lr = self.saved_ray;
        match self.shape_type {
            ShapeType::Sphere => {
                let sphere_to_ray = lr.origin.sub(RayTuple::point(0, 0, 0));
                let a = lr.direction.dot(lr.direction);
                let b = mul_f(2 * SCALE, lr.direction.dot(sphere_to_ray));
                let c = sub_f(sphere_to_ray.dot(sphere_to_ray), SCALE);
                let disc = sub_f(mul_f(b, b), mul_f(mul_f(4 * SCALE, a), c));
                if disc < 0 {
                    proof {
                        assert(intersections@ =~= intersect_spec(*old(self), r));
                    }
                    return intersections;
                }
                let denom = mul_f(2 * SCALE, a);
                if denom == 0 {
                    proof {
                        assert(intersections@ =~= intersect_spec(*old(self), r));
                    }
                    return intersections;
                }
                let sq = sqrt_f(disc);
                let t1 = div_f(sub_f(neg_f(b), sq), denom);
                let t2 = div_f(add_f(neg_f(b), sq), denom);
                intersections.push(Intersection::new(t1, *self));
                intersections.push(Intersection::new(t2, *self));
                proof {
                    assert(intersections@ =~= intersect_spec(*old(self), r));
                }
                intersections
            },
            ShapeType::Plane => {
                if abs_f(lr.direction.y) < EPSILON {
                    proof {
                        assert(intersections@ =~= intersect_spec(*old(self), r));
                    }
                    return intersections;
                }
                let t = div_f(neg_f(lr.origin.y), lr.direction.y);
                intersections.push(Intersection::new(t, *self));
                proof {
                    assert(intersections@ =~= intersect_spec(*old(self), r));
                }
                intersections
            },
            ShapeType::Test => {
                proof {
                    assert(intersections@ =~= intersect_spec(*old(self), r));
                }
                intersections
            },
            ShapeType::Cube => {
                let xaxis = Self::check_axis(lr.origin.x, lr.direction.x);
                let yaxis = Self::check_axis(lr.origin.y, lr.direction.y);
                let zaxis = Self::check_axis(lr.origin.z, lr.direction.z);
                let tmin = if xaxis.0 > yaxis.0 {
                    if xaxis.0 > zaxis.0 {
                        xaxis.0
                    } else {
                        zaxis.0
                    }
                } else {
                    if yaxis.0 > zaxis.0 {
                        yaxis.0
                    } else {
                        zaxis.0
                    }
                };
                let tmax = if xaxis.1 < yaxis.1 {
                    if xaxis.1 < zaxis.1 {
                        xaxis.1
                    } else {
                        zaxis.1
                    }
                } else {
                    if yaxis.1 < zaxis.1 {
                        yaxis.1
                    } else {
                        zaxis.1
                    }
                };
                if tmin > tmax {
                    proof {
                        assert(intersections@ =~= intersect_spec(*old(self), r));
                    }
                    return intersections;
                }
                intersections.push(Intersection::new(tmin, *self));
                intersections.push(Intersection::new(tmax, *self));
                proof {
                    assert(intersections@ =~= intersect_spec(*old(self), r));
                }
                intersections
            },
            ShapeType::Cylinder => {
                let a = add_f(
                    mul_f(lr.direction.x, lr.direction.x),
                    mul_f(lr.direction.z, lr.direction.z),
                );
                if a <= EPSILON {
                    proof {
                        assert(intersections@ =~= intersect_spec(*old(self), r));
                    }
                    return intersections;
                }
                let b = add_f(
                    mul_f(mul_f(2 * SCALE, lr.origin.x), lr.direction.x),
                    mul_f(mul_f(2 * SCALE, lr.origin.z), lr.direction.z),
                );
                let c = sub_f(
                    add_f(mul_f(lr.origin.x, lr.origin.x), mul_f(lr.origin.z, lr.origin.z)),
                    SCALE,
                );
                let disc = sub_f(mul_f(b, b), mul_f(mul_f(4 * SCALE, a), c));
                if disc < 0 {
                    proof {
                        assert(intersections@ =~= intersect_spec(*old(self), r));
                    }
                    return intersections;
                }
                let denom = mul_f(2 * SCALE, a);
                if denom == 0 {
                    proof {
                        assert(intersections@ =~= intersect_spec(*old(self), r));
                    }
                    return intersections;
                }
                let sq = sqrt_f(disc);
                let ta = div_f(sub_f(neg_f(b), sq), denom);
                let tb = div_f(add_f(neg_f(b), sq), denom);
                let t0 = if ta > tb {
                    tb
                } else {
                    ta
                };
                let t1 = if ta > tb {
                    ta
                } else {
                    tb
                };
                let y0 = add_f(lr.origin.y, mul_f(t0, lr.direction.y));
                if self.minimum < y0 && y0 < self.maximum {
                    intersections.push(Intersection::new(t0, *self));
                }
                let y1 = add_f(lr.origin.y, mul_f(t1, lr.direction.y));
                if self.minimum < y1 && y1 < self.maximum {
                    intersections.push(Intersection::new(t1, *self));
                }
                proof {
                    assert(intersections@ =~= intersect_spec(*old(self), r));
                }
                intersections
            },
        }
    }

    /// The world-space surface normal at a world point; the shape's
    /// transform must be invertible.
    pub fn normal_at(self, world_point: RayTuple) -> (n: RayTuple)
        requires
            mdet(self.transform) != 0,
        ensures
            n == normal_at_spec(self, world_point),
    {
        let inv = self.transform.inverse().unwrap();
        let object_point = inv.mul_tuple(world_point);
        let local_normal = match self.shape_type {
            ShapeType::Sphere => object_point.sub(RayTuple::point(0, 0, 0)),
            ShapeType::Plane => RayTuple::vector(0, SCALE, 0),
            ShapeType::Test => RayTuple::vector(object_point.x, object_point.y, object_point.z),
            ShapeType::Cube => {
                let x_abs = abs_f(object_point.x);
                let y_abs = abs_f(object_point.y);
                let z_abs = abs_f(object_point.z);
                if x_abs >= y_abs {
                    if x_abs >= z_abs {
                        RayTuple::vector(object_point.x, 0, 0)
                    } else {
                        RayTuple::vector(0, 0, object_point.z)
                    }
                } else {
                    if y_abs >= z_abs {
                        RayTuple::vector(0, object_point.y, 0)
                    } else {
                        RayTuple::vector(0, 0, object_point.z)
                    }
                }
            },
            ShapeType::Cylinder => RayTuple::vector(object_point.x, 0, object_point.z),
        };
        let world_normal = inv.transpose().mul_tuple(local_normal);
        let flat = RayTuple { x: world_normal.x, y: world_normal.y, z: world_normal.z, w: 0 };
        flat.normalize()
    }

    /// Entry and exit parameters of a ray coordinate against the [-1, 1]
    /// slab of one axis.
    fn check_axis(origin: i64, direction: i64) -> (r: (i64, i64))
        ensures
            r.0 as int == check_axis_spec(origin as int, direction as int).0,
            r.1 as int == check_axis_spec(origin as int, direction as int).1,
    {
        let tmin_numerator = sub_f(neg_f(SCALE), origin);
        let tmax_numerator = sub_f(SCALE, origin);
        let tmin: i64;
        let tmax: i64;
        if abs_f(direction) >= EPSILON {
            tmin = div_f(tmin_numerator, direction);
            tmax = div_f(tmax_numerator, direction);
        } else {
            tmin = if tmin_numerator > 0 {
                i64::MAX
            } else if tmin_numerator < 0 {
                i64::MIN
            } else {
                0
            };
            tmax = if tmax_numerator > 0 {
                i64::MAX
            } else if tmax_numerator < 0 {
                i64::MIN
            } else {
                0
            };
        }
        if tmin > tmax {
            (tmax, tmin)
        } else {
            (tmin, tmax)
        }
    }
}

/// Every intersection a shape produces carries a snapshot of that shape:
/// same transform (which was invertible, or nothing was produced) and same
/// material.
pub proof fn lemma_intersect_objects(s: Shape, r: Ray)
    ensures
        forall|j: int|
            0 <= j < intersect_spec(s, r).len() ==> (#[trigger] intersect_spec(s, r)[j].object)
                .transform == s.transform && intersect_spec(s, r)[j].object.material == s.material
                && mdet(intersect_spec(s, r)[j].object.transform) != 0,
{
}

/// A sphere intersection list is never a single point: a finite ray misses
/// the sphere or meets it twice (a tangent is counted twice).
pub proof fn lemma_sphere_intersection_count(s: Shape, r: Ray)
    requires
        s.shape_type == ShapeType::Sphere,
    ensures
        intersect_spec(s, r).len() == 0 || intersect_spec(s, r).len() == 2,
{
}

/// Renders a plane floor with three patterned and plain spheres through a
/// 1920x1080 camera. An empty canvas is returned if the scene or camera were
/// ever malformed.
pub fn chapter_nine_plane() -> (c: crate::canvas::Canvas)
    ensures
        crate::canvas::canvas_wf(c),
        (c.width == 1920 && c.height == 1080) || (c.width == 0 && c.height == 0),
{
    let mut floor = Shape::plane();
    floor.material.color = crate::color::Color::new(SCALE, 90_000_000, 90_000_000);
    floor.material.specular = 0;

    let mut middle = Shape::sphere();
    middle.transform = Matrix::translation(-50_000_000, SCALE, 50_000_000);
    middle.material.pattern = Some(
        crate::pattern::Pattern::stripe_pattern(
            crate::color::Color::new(10_000_000, SCALE, 50_000_000),
            crate::color::Color::new(90_000_000, 0, 50_000_000),
        ),
    );
    middle.material.color = crate::color::Color::new(10_000_000, SCALE, 50_000_000);
    middle.material.diffuse = 70_000_000;
    middle.material.specular = 30_000_000;

    let mut right = Shape::sphere();
    right.transform = Matrix::translation(150_000_000, 50_000_000, -50_000_000).multiply(
        &Matrix::scaling(50_000_000, 50_000_000, 50_000_000),
    );
    right.material.pattern = Some(
        crate::pattern::Pattern::stripe_pattern(
            crate::color::Color::new(50_000_000, SCALE, 10_000_000),
            crate::color::Color::new(50_000_000, 0, 90_000_000),
        ),
    );
    right.material.color = crate::color::Color::new(50_000_000, SCALE, 10_000_000);
    right.material.diffuse = 70_000_000;
    right.material.specular = 30_000_000;

    let mut left = Shape::sphere();
    left.transform = Matrix::translation(-150_000_000, 33_000_000, -75_000_000).multiply(
        &Matrix::scaling(33_000_000, 33_000_000, 33_000_000),
    );
    left.material.color = crate::color::Color::new(SCALE, 80_000_000, 10_000_000);
    left.material.diffuse = 70_000_000;
    left.material.specular = 30_000_000;

    let mut w = crate::world::World::new();
    w.objects.push(floor);
    w.objects.push(middle);
    w.objects.push(left);
    w.objects.push(right);

    let mut cam = crate::camera::Camera::new(1920, 1080, 104_719_755);
    cam.transform = Matrix::view_transform(
        RayTuple::point(0, 150_000_000, -5 * SCALE),
        RayTuple::point(0, SCALE, 0),
        RayTuple::vector(0, SCALE, 0),
    );

    if !w.is_well_formed() {
        return crate::canvas::Canvas::new(0, 0);
    }
    if !cam.transform.invertible() {
        return crate::canvas::Canvas::new(0, 0);
    }
    cam.render(w)
}

} // verus!
