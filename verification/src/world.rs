//! The scene aggregate: one light and an ordered shape list, with ray/scene
//! intersection, shadow testing, and the recursive color composition.

use vstd::prelude::*;
use crate::fixed::{fsub, fmul, fdiv, fsqrt, SCALE, sub_f, mul_f, div_f, sqrt_f};
use crate::color::{Color, black, cadd, cscale};
use crate::raytuple::{RayTuple, tsub, tscale, tdot, tmagnitude, tnormalize};
use crate::matrix::{Matrix, mdet, mscaling};
use crate::ray::Ray;
use crate::light::Light;
use crate::material::{Material, lighting_spec, default_material};
use crate::shape::{Shape, ShapeType, intersect_spec};
use crate::intersection::{
    Intersection, hit_spec, prepare_spec, schlick_spec, lemma_hit_properties,
    lemma_walk_refraction_positive,
};
use crate::computations::Computations;

verus! {

/// A scene: one point light and an ordered list of shapes. The list order is
/// significant: it breaks ties between equal-distance intersections and
/// steers the refraction containment walk.
pub struct World {
    pub light: Light,
    pub objects: Vec<Shape>,
}

/// What the shading pipeline needs of a material: a positive refractive
/// index, and a pattern (if any) whose transform is invertible.
pub open spec fn mat_ok(m: Material) -> bool {
    m.refractive_index > 0 && (m.pattern is Some ==> mdet(m.pattern.unwrap().transform) != 0)
}

/// What the shading pipeline needs of an intersected shape: an invertible
/// transform (guaranteed by construction of the intersection lists) and a
/// well-formed material.
pub open spec fn shape_ok(s: Shape) -> bool {
    mdet(s.transform) != 0 && mat_ok(s.material)
}

/// Every intersection in the list struck a shape the shader can handle.
pub open spec fn inters_ok(s: Seq<Intersection>) -> bool {
    forall|j: int| 0 <= j < s.len() ==> shape_ok(#[trigger] s[j].object)
}

/// A well-formed world: every shape's material is well-formed. (Shapes with
/// non-invertible transforms are allowed; they contribute no intersections.)
pub open spec fn world_wf(w: World) -> bool {
    forall|k: int| 0 <= k < w.objects@.len() ==> mat_ok(#[trigger] w.objects@[k].material)
}

/// A prepared computation the shader can consume.
pub open spec fn comps_ok(c: Computations) -> bool {
    shape_ok(c.object) && c.n1 > 0 && c.n2 > 0
}

/// The concatenation of every shape's intersections with a ray, in shape
/// list order.
pub open spec fn world_hits(objects: Seq<Shape>, r: Ray) -> Seq<Intersection>
    decreases objects.len(),
{
    if objects.len() == 0 {
        Seq::empty()
    } else {
        intersect_spec(objects[0], r) + world_hits(objects.drop_first(), r)
    }
}

/// Stable insertion into a list: the new intersection goes after every
/// element whose `t` does not exceed its own.
pub open spec fn insert_sorted(s: Seq<Intersection>, x: Intersection) -> Seq<Intersection>
    decreases s.len(),
{
    if s.len() == 0 {
        seq![x]
    } else if s[0].t <= x.t {
        seq![s[0]] + insert_sorted(s.drop_first(), x)
    } else {
        seq![x] + s
    }
}

/// Stable insertion sort, processing the input left to right.
pub open spec fn sort_aux(s: Seq<Intersection>, acc: Seq<Intersection>) -> Seq<Intersection>
    decreases s.len(),
{
    if s.len() == 0 {
        acc
    } else {
        sort_aux(s.drop_first(), insert_sorted(acc, s[0]))
    }
}

/// The intersections sorted ascending by `t`, stably.
pub open spec fn sort_by_t(s: Seq<Intersection>) -> Seq<Intersection> {
    sort_aux(s, Seq::empty())
}

/// All of a ray's intersections with the scene, sorted ascending by `t`.
pub open spec fn intersect_world_spec(w: World, r: Ray) -> Seq<Intersection> {
    sort_by_t(world_hits(w.objects@, r))
}

/// Whether a point is shadowed: the ray toward the light hits something
/// strictly closer than the light.
pub open spec fn is_shadowed_spec(w: World, p: RayTuple) -> bool {
    let v = tsub(w.light.position, p);
    let distance = tmagnitude(v);
    let direction = tnormalize(v);
    let r = Ray { origin: p, direction };
    match hit_spec(intersect_world_spec(w, r)) {
        Some(h) => (h.t as int) < distance,
        None => false,
    }
}

/// The color seen along a ray: the hit's shading, or black on a miss.
#[verifier::opaque]
pub open spec fn color_at_spec(w: World, r: Ray, remaining: int) -> Color
    decreases remaining, 3int
        when remaining >= 0
{
    let xs = intersect_world_spec(w, r);
    match hit_spec(xs) {
        Some(h) => shade_hit_spec(w, prepare_spec(h, r, xs), remaining),
        None => black(),
    }
}

/// The shading of one prepared hit: the Phong surface color plus the
/// reflected and refracted contributions, Fresnel-blended (by the Schlick
/// approximation) when the material is both reflective and transparent.
pub open spec fn shade_hit_spec(w: World, comps: Computations, remaining: int) -> Color
    decreases remaining, 2int
        when remaining >= 0
{
    let shadowed = is_shadowed_spec(w, comps.over_point);
    let surface = lighting_spec(
        comps.object.material,
        comps.object,
        w.light,
        comps.over_point,
        comps.eyev,
        comps.normalv,
        shadowed,
    );
    let reflected = reflected_color_spec(w, comps, remaining);
    let refracted = refracted_color_spec(w, comps, remaining);
    let m = comps.object.material;
    if m.reflective > 0 && m.transparency > 0 {
        let reflectance = schlick_spec(comps);
        cadd(
            cadd(surface, cscale(reflected, reflectance)),
            cscale(refracted, fsub(SCALE as int, reflectance)),
        )
    } else {
        cadd(cadd(surface, reflected), refracted)
    }
}

/// The reflected contribution: black when the recursion budget is spent or
/// the material is not reflective; otherwise the color along the reflection
/// ray cast from the over point, scaled by the reflectivity.
pub open spec fn reflected_color_spec(w: World, comps: Computations, remaining: int) -> Color
    decreases remaining, 1int
        when remaining >= 0
{
    if remaining < 1 || comps.object.material.reflective == 0 {
        black()
    } else {
        let reflect_ray = Ray { origin: comps.over_point, direction: comps.reflectv };
        cscale(color_at_spec(w, reflect_ray, remaining - 1), comps.object.material.reflective as int)
    }
}

/// The refracted contribution: black when the budget is spent, the material
/// is opaque, or under total internal reflection; otherwise the color along
/// the Snell-law refraction ray cast from the under point, scaled by the
/// transparency.
pub open spec fn refracted_color_spec(w: World, comps: Computations, remaining: int) -> Color
    decreases remaining, 1int
        when remaining >= 0
{
    let n_ratio = fdiv(comps.n1 as int, comps.n2 as int);
    let cos_i = tdot(comps.eyev, comps.normalv);
    let sin2_t = fmul(fmul(n_ratio, n_ratio), fsub(SCALE as int, fmul(cos_i, cos_i)));
    if remaining == 0 || comps.object.material.transparency == 0 || sin2_t > SCALE as int {
        black()
    } else {
        let cos_t = fsqrt(fsub(SCALE as int, sin2_t));
        let direction = tsub(
            tscale(comps.normalv, fsub(fmul(n_ratio, cos_i), cos_t)),
            tscale(comps.eyev, n_ratio),
        );
        let refract_ray = Ray { origin: comps.under_point, direction };
        cscale(
            color_at_spec(w, refract_ray, remaining - 1),
            comps.object.material.transparency as int,
        )
    }
}

/// Whether a prepared hit is under total internal reflection: the squared
/// sine of the refracted angle, by Snell's law, exceeds one.
pub open spec fn total_internal_reflection(c: Computations) -> bool {
    let n_ratio = fdiv(c.n1 as int, c.n2 as int);
    let cos_i = tdot(c.eyev, c.normalv);
    fmul(fmul(n_ratio, n_ratio), fsub(SCALE as int, fmul(cos_i, cos_i))) > SCALE as int
}

proof fn lemma_world_hits_append(a: Seq<Shape>, b: Seq<Shape>, r: Ray)
    ensures
        world_hits(a + b, r) == world_hits(a, r) + world_hits(b, r),
    decreases a.len(),
{
    if a.len() == 0 {
        assert(a + b =~= b);
        assert(world_hits(a, r) + world_hits(b, r) =~= world_hits(b, r));
    } else {
        assert((a + b).drop_first() =~= a.drop_first() + b);
        lemma_world_hits_append(a.drop_first(), b, r);
        assert(world_hits(a + b, r) == intersect_spec(a[0], r) + (world_hits(a.drop_first(), r)
            + world_hits(b, r)));
        assert(intersect_spec(a[0], r) + (world_hits(a.drop_first(), r) + world_hits(b, r))
            =~= (intersect_spec(a[0], r) + world_hits(a.drop_first(), r)) + world_hits(b, r));
    }
}

/// Every intersection a single shape produces struck that shape (with its
/// saved ray updated), so its transform is invertible and its material is
/// the shape's own.
proof fn lemma_intersect_ok(s: Shape, r: Ray)
    requires
        mat_ok(s.material),
    ensures
        inters_ok(intersect_spec(s, r)),
{
    let res = intersect_spec(s, r);
    assert forall|j: int| 0 <= j < res.len() implies shape_ok(#[trigger] res[j].object) by {
        assert(res[j].object.transform == s.transform && res[j].object.material == s.material);
    }
}

proof fn lemma_world_hits_ok(objects: Seq<Shape>, r: Ray)
    requires
        forall|k: int| 0 <= k < objects.len() ==> mat_ok(#[trigger] objects[k].material),
    ensures
        inters_ok(world_hits(objects, r)),
    decreases objects.len(),
{
    if objects.len() > 0 {
        lemma_intersect_ok(objects[0], r);
        assert(forall|q: int|
            0 <= q < objects.drop_first().len() ==> objects.drop_first()[q] == objects[q + 1]);
        lemma_world_hits_ok(objects.drop_first(), r);
        let head = intersect_spec(objects[0], r);
        let rest = world_hits(objects.drop_first(), r);
        assert forall|j: int|
            0 <= j < world_hits(objects, r).len() implies shape_ok(
            #[trigger] world_hits(objects, r)[j].object,
        ) by {
            if j < head.len() {
                assert(world_hits(objects, r)[j] == head[j]);
            } else {
                assert(world_hits(objects, r)[j] == rest[j - head.len()]);
            }
        }
    }
}

proof fn lemma_insert_sorted_ok(s: Seq<Intersection>, x: Intersection)
    requires
        inters_ok(s),
        shape_ok(x.object),
    ensures
        inters_ok(insert_sorted(s, x)),
    decreases s.len(),
{
    if s.len() == 0 {
    } else if s[0].t <= x.t {
        assert(forall|q: int| 0 <= q < s.drop_first().len() ==> s.drop_first()[q] == s[q + 1]);
        lemma_insert_sorted_ok(s.drop_first(), x);
        let rest = insert_sorted(s.drop_first(), x);
        assert forall|j: int|
            0 <= j < insert_sorted(s, x).len() implies shape_ok(
            #[trigger] insert_sorted(s, x)[j].object,
        ) by {
            if j == 0 {
                assert(insert_sorted(s, x)[0] == s[0]);
            } else {
                assert(insert_sorted(s, x)[j] == rest[j - 1]);
            }
        }
    } else {
        assert forall|j: int|
            0 <= j < insert_sorted(s, x).len() implies shape_ok(
            #[trigger] insert_sorted(s, x)[j].object,
        ) by {
            if j == 0 {
            } else {
                assert(insert_sorted(s, x)[j] == s[j - 1]);
            }
        }
    }
}

proof fn lemma_sort_aux_ok(s: Seq<Intersection>, acc: Seq<Intersection>)
    requires
        inters_ok(s),
        inters_ok(acc),
    ensures
        inters_ok(sort_aux(s, acc)),
    decreases s.len(),
{
    if s.len() > 0 {
        lemma_insert_sorted_ok(acc, s[0]);
        assert(forall|q: int| 0 <= q < s.drop_first().len() ==> s.drop_first()[q] == s[q + 1]);
        lemma_sort_aux_ok(s.drop_first(), insert_sorted(acc, s[0]));
    }
}

/// Every intersection the scene query returns struck a shape with an
/// invertible transform and a well-formed material.
pub proof fn lemma_intersect_world_ok(w: World, r: Ray)
    requires
        world_wf(w),
    ensures
        inters_ok(intersect_world_spec(w, r)),
{
    lemma_world_hits_ok(w.objects@, r);
    lemma_sort_aux_ok(world_hits(w.objects@, r), Seq::empty());
}

/// Ascending order by the hit parameter.
pub open spec fn sorted_by_t(s: Seq<Intersection>) -> bool {
    forall|i: int, j: int| 0 <= i < j < s.len() ==> (#[trigger] s[i].t) <= (#[trigger] s[j].t)
}

proof fn lemma_insert_sorted_props(s: Seq<Intersection>, x: Intersection)
    requires
        sorted_by_t(s),
    ensures
        sorted_by_t(insert_sorted(s, x)),
        insert_sorted(s, x).len() == s.len() + 1,
        forall|i: int|
            0 <= i < insert_sorted(s, x).len() ==> ((#[trigger] insert_sorted(s, x)[i]) == x
                || s.contains(insert_sorted(s, x)[i])),
    decreases s.len(),
{
    let res = insert_sorted(s, x);
    if s.len() == 0 {
    } else if s[0].t <= x.t {
        let rest = s.drop_first();
        assert(forall|q: int| 0 <= q < rest.len() ==> rest[q] == s[q + 1]);
        lemma_insert_sorted_props(rest, x);
        let ins = insert_sorted(rest, x);
        assert(res == seq![s[0]] + ins);
        assert forall|i: int|
            0 <= i < res.len() implies ((#[trigger] res[i]) == x || s.contains(res[i])) by {
            if i == 0 {
                assert(s.contains(s[0]));
            } else {
                assert(res[i] == ins[i - 1]);
                if ins[i - 1] != x {
                    assert(rest.contains(ins[i - 1]));
                    let k = choose|k: int| 0 <= k < rest.len() && rest[k] == ins[i - 1];
                    assert(s[k + 1] == ins[i - 1]);
                }
            }
        }
        assert forall|i: int, j: int|
            0 <= i < j < res.len() implies (#[trigger] res[i].t) <= (#[trigger] res[j].t) by {
            if i == 0 {
                if res[j] == x {
                    assert(res[0].t <= x.t);
                } else {
                    assert(rest.contains(res[j]) || res[j] == x);
                    if rest.contains(res[j]) {
                        let k = choose|k: int| 0 <= k < rest.len() && rest[k] == res[j];
                        assert(s[k + 1] == res[j]);
                        assert(s[0].t <= s[k + 1].t);
                    }
                }
            } else {
                assert(res[i] == ins[i - 1] && res[j] == ins[j - 1]);
            }
        }
    } else {
        assert(res == seq![x] + s);
        assert forall|i: int|
            0 <= i < res.len() implies ((#[trigger] res[i]) == x || s.contains(res[i])) by {
            if i > 0 {
                assert(res[i] == s[i - 1]);
                assert(s.contains(s[i - 1]));
            }
        }
        assert forall|i: int, j: int|
            0 <= i < j < res.len() implies (#[trigger] res[i].t) <= (#[trigger] res[j].t) by {
            if i == 0 {
                assert(res[j] == s[j - 1]);
                if j - 1 > 0 {
                    assert(s[0].t <= s[j - 1].t);
                }
                assert(x.t < s[0].t);
            } else {
                assert(res[i] == s[i - 1] && res[j] == s[j - 1]);
            }
        }
    }
}

proof fn lemma_sort_aux_sorted(s: Seq<Intersection>, acc: Seq<Intersection>)
    requires
        sorted_by_t(acc),
    ensures
        sorted_by_t(sort_aux(s, acc)),
    decreases s.len(),
{
    if s.len() > 0 {
        lemma_insert_sorted_props(acc, s[0]);
        lemma_sort_aux_sorted(s.drop_first(), insert_sorted(acc, s[0]));
    }
}

/// The scene query returns its intersections in ascending order of `t`.
pub proof fn lemma_intersect_world_sorted(w: World, r: Ray)
    ensures
        sorted_by_t(intersect_world_spec(w, r)),
{
    lemma_sort_aux_sorted(world_hits(w.objects@, r), Seq::empty());
}

proof fn lemma_insert_sorted_at(s: Seq<Intersection>, x: Intersection, idx: int)
    requires
        0 <= idx <= s.len(),
        forall|q: int| 0 <= q < idx ==> (#[trigger] s[q].t) <= x.t,
        idx < s.len() ==> s[idx].t > x.t,
    ensures
        insert_sorted(s, x) == s.insert(idx, x),
    decreases s.len(),
{
    if s.len() == 0 {
        assert(insert_sorted(s, x) =~= s.insert(0, x));
    } else if idx == 0 {
        assert(s[0].t > x.t);
        assert(insert_sorted(s, x) =~= s.insert(0, x));
    } else {
        assert(s[0].t <= x.t);
        assert(forall|q: int| 0 <= q < s.drop_first().len() ==> s.drop_first()[q] == s[q + 1]);
        lemma_insert_sorted_at(s.drop_first(), x, idx - 1);
        assert(insert_sorted(s, x) == seq![s[0]] + s.drop_first().insert(idx - 1, x));
        assert(seq![s[0]] + s.drop_first().insert(idx - 1, x) =~= s.insert(idx, x));
    }
}

/// A copy of an intersection list (intersections are plain copyable data).
fn copy_intersections(xs: &Vec<Intersection>) -> (r: Vec<Intersection>)
    ensures
        r@ == xs@,
{
    let mut r: Vec<Intersection> = Vec::new();
    let mut k: usize = 0;
    while k < xs.len()
        invariant
            0 <= k <= xs@.len(),
            r@ == xs@.take(k as int),
        decreases xs@.len() - k,
    {
        r.push(xs[k]);
        proof {
            assert(xs@.take(k as int + 1) =~= xs@.take(k as int).push(xs@[k as int]));
        }
        k = k + 1;
    }
    proof {
        assert(xs@.take(xs@.len() as int) =~= xs@);
    }
    r
}

impl World {
    /// An empty scene lit by a white light at (-10, 10, -10).
    pub fn new() -> (w: Self)
        ensures
            w.light == (Light {
                position: RayTuple {
                    x: -1_000_000_000i64,
                    y: 1_000_000_000i64,
                    z: -1_000_000_000i64,
                    w: SCALE,
                },
                intensity: Color { red: SCALE, green: SCALE, blue: SCALE },
            }),
            w.objects@.len() == 0,
            world_wf(w),
    {
        Self {
            light: Light::point_light(
                RayTuple::point(-10 * SCALE, 10 * SCALE, -10 * SCALE),
                Color::new(SCALE, SCALE, SCALE),
            ),
            objects: Vec::new(),
        }
    }

    /// The two-sphere default scene: an outer colored sphere and an inner
    /// half-size one, lit by a white light at (-10, 10, -10).
    pub fn default_world() -> (w: Self)
        ensures
            w.light == (Light {
                position: RayTuple {
                    x: -1_000_000_000i64,
                    y: 1_000_000_000i64,
                    z: -1_000_000_000i64,
                    w: SCALE,
                },
                intensity: Color { red: SCALE, green: SCALE, blue: SCALE },
            }),
            w.objects@.len() == 2,
            w.objects@[0].shape_type == ShapeType::Sphere,
            w.objects@[0].transform == crate::matrix::midentity(),
            w.objects@[0].material == (Material {
                color: Color { red: 80_000_000i64, green: SCALE, blue: 60_000_000i64 },
                diffuse: 70_000_000i64,
                specular: 20_000_000i64,
                ..default_material()
            }),
            w.objects@[1].shape_type == ShapeType::Sphere,
            w.objects@[1].transform == mscaling(50_000_000, 50_000_000, 50_000_000),
            w.objects@[1].material == default_material(),
            world_wf(w),
    {
        let mut s1 = Shape::new(ShapeType::Sphere);
        s1.material.color = Color::new(80_000_000, SCALE, 60_000_000);
        s1.material.diffuse = 70_000_000;
        s1.material.specular = 20_000_000;

        let mut s2 = Shape::new(ShapeType::Sphere);
        s2.transform = Matrix::scaling(50_000_000, 50_000_000, 50_000_000);

        let mut objects: Vec<Shape> = Vec::new();
        objects.push(s1);
        objects.push(s2);
        let w = Self {
            light: Light::point_light(
                RayTuple::point(-10 * SCALE, 10 * SCALE, -10 * SCALE),
                Color::new(SCALE, SCALE, SCALE),
            ),
            objects,
        };
        proof {
            assert(w.objects@[0].material.pattern is None);
            assert(w.objects@[1].material.pattern is None);
        }
        w
    }

    /// Checks the shading pipeline's well-formedness condition on every
    /// shape's material: positive refractive index, and an invertible
    /// pattern transform where a pattern is present.
    pub fn is_well_formed(&self) -> (r: bool)
        ensures
            r == world_wf(*self),
    {
        let mut k: usize = 0;
        while k < self.objects.len()
            invariant
                0 <= k <= self.objects@.len(),
                forall|q: int| 0 <= q < k ==> mat_ok(#[trigger] self.objects@[q].material),
            decreases self.objects@.len() - k,
        {
            let m = self.objects[k].material;
            if m.refractive_index <= 0 {
                return false;
            }
            match m.pattern {
                Some(p) => {
                    if !p.transform.invertible() {
                        return false;
                    }
                },
                None => {},
            }
            k = k + 1;
        }
        true
    }

    /// Renders a reflective floor with glass, matte and reflective spheres
    /// and a small rotated cube through a 2560x1440 camera. An empty canvas
    /// is returned if the scene or camera were ever malformed.
    pub fn chapter_twelve_cube() -> (c: crate::canvas::Canvas)
        ensures
            crate::canvas::canvas_wf(c),
            (c.width == 2560 && c.height == 1440) || (c.width == 0 && c.height == 0),
    {
        let mut floor = Shape::plane();
        floor.material.color = Color::new(10_000_000, 10_000_000, 10_000_000);
        floor.material.specular = 0;
        floor.material.reflective = 30_000_000;

        let mut middle = Shape::glass_sphere();
        middle.transform = Matrix::translation(-50_000_000, 150_000_000, 50_000_000);
        middle.material.color = Color::new(5_000_000, 5_000_000, 10_000_000);

        let mut right = Shape::sphere();
        right.transform = Matrix::translation(-50_000_000, 150_000_000, 3 * SCALE).multiply(
            &Matrix::scaling(50_000_000, 50_000_000, 50_000_000),
        );
        right.material.color = Color::new(SCALE, 0, 0);
        right.material.diffuse = 70_000_000;
        right.material.specular = 30_000_000;

        let mut left = Shape::sphere();
        left.transform = Matrix::translation(-150_000_000, 33_000_000, -75_000_000).multiply(
            &Matrix::scaling(33_000_000, 33_000_000, 33_000_000),
        );
        left.material.color = Color::new(10_000_000, 10_000_000, 90_000_000);
        left.material.diffuse = 70_000_000;
        left.material.specular = 30_000_000;

        let mut backright = Shape::sphere();
        backright.transform = Matrix::translation(SCALE, SCALE, 2 * SCALE).multiply(
            &Matrix::scaling(75_000_000, 75_000_000, 75_000_000),
        );
        backright.material.color = Color::new(SCALE, SCALE, SCALE);
        backright.material.diffuse = 70_000_000;
        backright.material.specular = 30_000_000;
        backright.material.reflective = 50_000_000;
        backright.material.refractive_index = 110_000_000;

        let mut frontright = Shape::cube();
        frontright.transform = Matrix::translation(2 * SCALE, 50_000_000, 0).multiply(
            &Matrix::scaling(10_000_000, 10_000_000, 10_000_000),
        ).multiply(&Matrix::rotation_y(70_710_678));
        frontright.material.color = Color::new(30_000_000, 80_000_000, 20_000_000);
        frontright.material.diffuse = 70_000_000;
        frontright.material.specular = 30_000_000;
        frontright.material.reflective = 80_000_000;
        frontright.material.refractive_index = 150_000_000;

        let mut w = World::new();
        w.objects.push(floor);
        w.objects.push(middle);
        w.objects.push(left);
        w.objects.push(right);
        w.objects.push(backright);
        w.objects.push(frontright);

        let mut cam = crate::camera::Camera::new(2560, 1440, 104_719_755);
        cam.transform = Matrix::view_transform(
            RayTuple::point(0, 150_000_000, -5 * SCALE),
            RayTuple::point(0, SCALE, 0),
            RayTuple::vector(0, SCALE, 0),
        );

        if !w.is_well_formed() {
            return crate::canvas::Canvas::new(0, 0);
        }
        if !cam.transform.invertible() {
            return crate::canvas::Canvas::new(0, 0);
        }
        cam.render(w)
    }

    /// All intersections of a ray with the scene, sorted ascending by `t`
    /// (stably: list order breaks ties).
    pub fn intersect_world(&self, r: Ray) -> (res: Vec<Intersection>)
        ensures
            res@ == intersect_world_spec(*self, r),
            sorted_by_t(res@),
    {
        proof {
            lemma_intersect_world_sorted(*self, r);
        }
        let ghost obs = self.objects@;
        let mut combined: Vec<Intersection> = Vec::new();
        let mut k: usize = 0;
        proof {
            assert(obs.take(0) =~= Seq::<Shape>::empty());
        }
        while k < self.objects.len()
            invariant
                0 <= k <= obs.len(),
                self.objects@ == obs,
                combined@ == world_hits(obs.take(k as int), r),
            decreases obs.len() - k,
        {
            let mut tmp = self.objects[k];
            let mut xs = tmp.intersect(r);
            combined.append(&mut xs);
            proof {
                assert(obs.take(k as int + 1) =~= obs.take(k as int) + seq![obs[k as int]]);
                lemma_world_hits_append(obs.take(k as int), seq![obs[k as int]], r);
                assert(seq![obs[k as int]].drop_first() =~= Seq::<Shape>::empty());
                assert(world_hits(Seq::<Shape>::empty(), r) =~= Seq::<Intersection>::empty());
                assert(world_hits(seq![obs[k as int]], r) == intersect_spec(obs[k as int], r)
                    + world_hits(Seq::<Shape>::empty(), r));
                assert(world_hits(seq![obs[k as int]], r) =~= intersect_spec(obs[k as int], r));
            }
            k = k + 1;
        }
        proof {
            assert(obs.take(obs.len() as int) =~= obs);
        }

        let ghost unsorted = combined@;
        let mut res: Vec<Intersection> = Vec::new();
        let mut i: usize = 0;
        proof {
            assert(unsorted.skip(0) =~= unsorted);
        }
        while i < combined.len()
            invariant
                0 <= i <= unsorted.len(),
                combined@ == unsorted,
                sort_aux(unsorted.skip(i as int), res@) == sort_by_t(unsorted),
            decreases unsorted.len() - i,
        {
            let x = combined[i];
            proof {
                assert(unsorted.skip(i as int)[0] == unsorted[i as int]);
                assert(unsorted.skip(i as int).drop_first() =~= unsorted.skip(i as int + 1));
            }
            let ghost pre = res@;
            let mut idx: usize = 0;
            while idx < res.len() && res[idx].t <= x.t
                invariant
                    0 <= idx <= pre.len(),
                    res@ == pre,
                    forall|q: int| 0 <= q < idx ==> (#[trigger] pre[q].t) <= x.t,
                decreases pre.len() - idx,
            {
                idx = idx + 1;
            }
            proof {
                lemma_insert_sorted_at(pre, x, idx as int);
            }
            res.insert(idx, x);
            i = i + 1;
        }
        proof {
            assert(unsorted.skip(unsorted.len() as int) =~= Seq::<Intersection>::empty());
        }
        res
    }

    /// Whether a point lies in shadow: something blocks the straight path to
    /// the light.
    pub fn is_shadowed(&self, p: RayTuple) -> (r: bool)
        ensures
            r == is_shadowed_spec(*self, p),
    {
        let v = self.light.position.sub(p);
        let distance = v.magnitude();
        let direction = v.normalize();
        let ray = Ray::new(p, direction);
        let intersections = self.intersect_world(ray);
        match Intersection::hit(intersections) {
            Some(h) => h.t < distance,
            None => false,
        }
    }

    /// Shades one prepared hit: surface lighting plus reflection and
    /// refraction, Fresnel-blended when the material is both reflective and
    /// transparent.
    pub fn shade_hit(&self, comps: Computations, remaining: i32) -> (c: Color)
        requires
            world_wf(*self),
            comps_ok(comps),
            remaining >= 0,
        ensures
            c == shade_hit_spec(*self, comps, remaining as int),
        decreases remaining, 2int,
    {
        let shadowed = self.is_shadowed(comps.over_point);
        let surface = comps.object.material.lighting(
            comps.object,
            &self.light,
            comps.over_point,
            comps.eyev,
            comps.normalv,
            shadowed,
        );
        let reflected = self.reflected_color(comps, remaining);
        let refracted = self.refracted_color(comps, remaining);
        let material = comps.object.material;
        if material.reflective > 0 && material.transparency > 0 {
            let reflectance = Intersection::schlick(comps);
            surface.add(reflected.scale(reflectance)).add(
                refracted.scale(sub_f(SCALE, reflectance)),
            )
        } else {
            surface.add(reflected).add(refracted)
        }
    }

    /// The color seen along a ray, with the given recursion budget.
    pub fn color_at(&self, r: Ray, remaining: i32) -> (c: Color)
        requires
            world_wf(*self),
            remaining >= 0,
        ensures
            c == color_at_spec(*self, r, remaining as int),
        decreases remaining, 3int,
    {
        let xs = self.intersect_world(r);
        let ghost xs_seq = xs@;
        let xs_for_hit = copy_intersections(&xs);
        let option_hit = Intersection::hit(xs_for_hit);
        proof {
            reveal(color_at_spec);
            lemma_intersect_world_ok(*self, r);
            lemma_hit_properties(xs_seq);
        }
        match option_hit {
            Some(h) => {
                proof {
                    assert(xs_seq.contains(h));
                    let j = choose|j: int| 0 <= j < xs_seq.len() && xs_seq[j] == h;
                    assert(shape_ok(xs_seq[j].object));
                    assert(shape_ok(h.object));
                    assert(forall|q: int|
                        0 <= q < xs_seq.len() ==> (#[trigger] xs_seq[q].object)
                            .material.refractive_index > 0);
                    lemma_walk_refraction_positive(xs_seq, h, Seq::empty());
                }
                let comps = h.prepare_computations(r, xs);
                self.shade_hit(comps, remaining)
            },
            None => Color::black(),
        }
    }

    /// The reflected contribution of a hit: black whenever the budget is
    /// spent (any `remaining` below one), or when the material is not
    /// reflective.
    pub fn reflected_color(&self, comps: Computations, remaining: i32) -> (c: Color)
        requires
            world_wf(*self),
            comps_ok(comps),
        ensures
            remaining >= 0 ==> c == reflected_color_spec(*self, comps, remaining as int),
            remaining < 1 ==> c == black(),
        decreases remaining, 1int,
    {
        proof {
            reveal(color_at_spec);
        }
        if remaining < 1 || comps.object.material.reflective == 0 {
            return Color::black();
        }
        let reflect_ray = Ray::new(comps.over_point, comps.reflectv);
        let color = self.color_at(reflect_ray, remaining - 1);
        color.scale(comps.object.material.reflective)
    }

    /// The refracted contribution of a hit: black when the budget is spent,
    /// the material is opaque, or under total internal reflection.
    pub fn refracted_color(&self, comps: Computations, remaining: i32) -> (c: Color)
        requires
            world_wf(*self),
            comps_ok(comps),
            remaining >= 0,
        ensures
            c == refracted_color_spec(*self, comps, remaining as int),
            total_internal_reflection(comps) ==> c == black(),
            remaining == 0 ==> c == black(),
        decreases remaining, 1int,
    {
        proof {
            reveal(color_at_spec);
        }
        let n_ratio = div_f(comps.n1, comps.n2);
        let cos_i = comps.eyev.dot(comps.normalv);
        let sin2_t = mul_f(mul_f(n_ratio, n_ratio), sub_f(SCALE, mul_f(cos_i, cos_i)));
        if remaining == 0 || comps.object.material.transparency == 0 || sin2_t > SCALE {
            Color::black()
        } else {
            let diff = sub_f(SCALE, sin2_t);
            let cos_t = sqrt_f(diff);
            let direction = comps.normalv.scale(sub_f(mul_f(n_ratio, cos_i), cos_t)).sub(
                comps.eyev.scale(n_ratio),
            );
            let refract_ray = Ray::new(comps.under_point, direction);
            let color = self.color_at(refract_ray, remaining - 1).scale(
                comps.object.material.transparency,
            );
            color
        }
    }
}

} // verus!
