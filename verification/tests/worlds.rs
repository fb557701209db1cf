use raytracer::color::Color;
use raytracer::light::Light;
use raytracer::matrix::Matrix;
use raytracer::pattern::Pattern;
use raytracer::ray::Ray;
use raytracer::raytuple::RayTuple;
use raytracer::shape::{Shape, ShapeType};
use raytracer::intersection::Intersection;
use raytracer::world::World;

fn fx(v: f64) -> i64 {
    (v * 1e8).round() as i64
}

fn ap(a: i64, e: f64) -> bool {
    (a - fx(e)).abs() < 1000
}

fn apc(c: Color, r: f64, g: f64, b: f64) -> bool {
    ap(c.red, r) && ap(c.green, g) && ap(c.blue, b)
}

fn pt(x: f64, y: f64, z: f64) -> RayTuple {
    RayTuple::point(fx(x), fx(y), fx(z))
}

fn vc(x: f64, y: f64, z: f64) -> RayTuple {
    RayTuple::vector(fx(x), fx(y), fx(z))
}

#[test]
fn create_default_world() {
    let l = Light::point_light(pt(-10.0, 10.0, -10.0), Color::new(fx(1.0), fx(1.0), fx(1.0)));
    let mut s1 = Shape::new(ShapeType::Sphere);
    s1.material.color = Color::new(fx(0.8), fx(1.0), fx(0.6));
    s1.material.diffuse = fx(0.7);
    s1.material.specular = fx(0.2);
    let mut s2 = Shape::new(ShapeType::Sphere);
    s2.transform = Matrix::scaling(fx(0.5), fx(0.5), fx(0.5));
    let w = World::default_world();

    assert_eq!(w.light, l);
    assert_eq!(w.objects[0].material, s1.material);
    assert_eq!(w.objects[1].transform, s2.transform);
}

#[test]
fn intersect_world_with_ray() {
    let w = World::default_world();
    let r = Ray::new(pt(0.0, 0.0, -5.0), vc(0.0, 0.0, 1.0));
    let xs = w.intersect_world(r);

    assert_eq!(xs.len(), 4);
    assert_eq!(xs[0].t, fx(4.0));
    assert_eq!(xs[1].t, fx(4.5));
    assert_eq!(xs[2].t, fx(5.5));
    assert_eq!(xs[3].t, fx(6.0));
}

#[test]
fn shading_an_intersection() {
    let w = World::default_world();
    let r = Ray::new(pt(0.0, 0.0, -5.0), vc(0.0, 0.0, 1.0));
    let shape = w.objects[0];
    let i = Intersection::new(fx(4.0), shape);
    let dummyxs: Vec<Intersection> = Vec::new();
    let comps = i.prepare_computations(r, dummyxs);
    let c = w.shade_hit(comps, 5);

    assert!(apc(c, 0.38066, 0.47583, 0.2855));
}

#[test]
fn shading_an_intersection_from_inside() {
    let mut w = World::default_world();
    w.light = Light::point_light(pt(0.0, 0.25, 0.0), Color::new(fx(1.0), fx(1.0), fx(1.0)));

    let r = Ray::new(pt(0.0, 0.0, 0.0), vc(0.0, 0.0, 1.0));
    let shape = w.objects[1];
    let i = Intersection::new(fx(0.5), shape);
    let dummyxs: Vec<Intersection> = Vec::new();
    let comps = i.prepare_computations(r, dummyxs);
    let c = w.shade_hit(comps, 5);

    assert!(apc(c, 0.90498, 0.90498, 0.90498));
}

#[test]
fn color_when_ray_misses() {
    let w = World::default_world();
    let r = Ray::new(pt(0.0, 0.0, -5.0), vc(0.0, 1.0, 0.0));
    let c = w.color_at(r, 5);
    assert_eq!(c, Color::new(0, 0, 0));
}

#[test]
fn color_when_ray_hits() {
    let w = World::default_world();
    let r = Ray::new(pt(0.0, 0.0, -5.0), vc(0.0, 0.0, 1.0));
    let c = w.color_at(r, 5);
    assert!(apc(c, 0.38066, 0.47583, 0.2855));
}

#[test]
fn color_with_intersection_behind_ray() {
    let mut w = World::default_world();
    w.objects[0].material.ambient = fx(1.0);
    w.objects[1].material.ambient = fx(1.0);

    let r = Ray::new(pt(0.0, 0.0, 0.75), vc(0.0, 0.0, -1.0));
    let c = w.color_at(r, 5);
    assert_eq!(c, w.objects[1].material.color);
}

#[test]
fn there_is_no_shadow() {
    let w = World::default_world();
    let p = pt(0.0, 10.0, 0.0);
    assert!(!w.is_shadowed(p));
}

#[test]
fn there_is_shadow() {
    let w = World::default_world();
    let p = pt(10.0, -10.0, 10.0);
    assert!(w.is_shadowed(p));
}

#[test]
fn there_is_no_shadow_object_behind_light() {
    let w = World::default_world();
    let p = pt(-20.0, 20.0, -20.0);
    assert!(!w.is_shadowed(p));
}

#[test]
fn there_is_no_shadow_point_infront() {
    let w = World::default_world();
    let p = pt(-2.0, 2.0, -2.0);
    assert!(!w.is_shadowed(p));
}

#[test]
fn shade_hit_is_given_intersection_in_shadow() {
    let mut w = World::new();
    w.light = Light::point_light(pt(0.0, 0.0, -10.0), Color::new(fx(1.0), fx(1.0), fx(1.0)));
    let s1 = Shape::new(ShapeType::Sphere);
    w.objects.push(s1);

    let mut s2 = Shape::new(ShapeType::Sphere);
    s2.transform = Matrix::translation(0, 0, fx(10.0));
    w.objects.push(s2);

    let r = Ray::new(pt(0.0, 0.0, 5.0), vc(0.0, 0.0, 1.0));
    let i = Intersection::new(fx(4.0), s2);

    let dummyxs: Vec<Intersection> = Vec::new();
    let comps = i.prepare_computations(r, dummyxs);
    let c = w.shade_hit(comps, 5);

    assert!(apc(c, 0.1, 0.1, 0.1));
}

#[test]
fn reflected_color_for_nonreflective_material() {
    let mut w = World::default_world();
    let r = Ray::new(pt(0.0, 0.0, 0.0), vc(0.0, 0.0, 1.0));
    w.objects[1].material.ambient = fx(1.0);
    let i = Intersection::new(fx(1.0), w.objects[1]);
    let dummyxs: Vec<Intersection> = Vec::new();
    let comps = i.prepare_computations(r, dummyxs);
    let color = w.reflected_color(comps, 5);

    assert_eq!(color, Color::new(0, 0, 0));
}

#[test]
fn reflected_color_of_reflective_material() {
    let mut w = World::default_world();
    let mut shape = Shape::plane();
    shape.material.reflective = fx(0.5);
    shape.transform = Matrix::translation(0, fx(-1.0), 0);
    w.objects.push(shape);
    let r = Ray::new(
        pt(0.0, 0.0, -3.0),
        vc(0.0, -(2.0_f64.sqrt()) / 2.0, 2.0_f64.sqrt() / 2.0),
    );
    let i = Intersection::new(fx(2.0_f64.sqrt()), w.objects[2]);
    let dummyxs: Vec<Intersection> = Vec::new();
    let comps = i.prepare_computations(r, dummyxs);
    let color = w.reflected_color(comps, 5);

    assert!(apc(color, 0.19033, 0.23791, 0.14274));
}

#[test]
fn shade_hit_with_reflective_material() {
    let mut w = World::default_world();
    let mut shape = Shape::plane();
    shape.material.reflective = fx(0.5);
    shape.transform = Matrix::translation(0, fx(-1.0), 0);
    w.objects.push(shape);
    let r = Ray::new(
        pt(0.0, 0.0, -3.0),
        vc(0.0, -(2.0_f64.sqrt()) / 2.0, 2.0_f64.sqrt() / 2.0),
    );
    let i = Intersection::new(fx(2.0_f64.sqrt()), w.objects[2]);
    let dummyxs: Vec<Intersection> = Vec::new();
    let comps = i.prepare_computations(r, dummyxs);
    let color = w.shade_hit(comps, 5);

    assert!(apc(color, 0.87675, 0.92434, 0.82917));
}

#[test]
fn color_at_with_mutually_reflective_surfaces() {
    let mut w = World::new();
    w.light = Light::point_light(pt(0.0, 0.0, 0.0), Color::new(fx(1.0), fx(1.0), fx(1.0)));

    let mut lower = Shape::plane();
    lower.material.reflective = fx(1.0);
    lower.transform = Matrix::translation(0, fx(-1.0), 0);
    w.objects.push(lower);

    let mut upper = Shape::plane();
    upper.material.reflective = fx(1.0);
    upper.transform = Matrix::translation(0, fx(1.0), 0);
    w.objects.push(upper);

    let r = Ray::new(pt(0.0, 0.0, 0.0), vc(0.0, 1.0, 0.0));
    w.color_at(r, 5);
}

#[test]
fn reflected_color_at_max_recursive_depth() {
    let mut w = World::default_world();

    let mut shape = Shape::plane();
    shape.material.reflective = fx(0.5);
    shape.transform = Matrix::translation(0, fx(-1.0), 0);
    w.objects.push(shape);

    let r = Ray::new(
        pt(0.0, 0.0, -3.0),
        vc(0.0, -(2.0_f64.sqrt()) / 2.0, 2.0_f64.sqrt() / 2.0),
    );
    let i = Intersection::new(fx(2.0_f64.sqrt()), shape);
    let dummyxs: Vec<Intersection> = Vec::new();
    let comps = i.prepare_computations(r, dummyxs);
    let color = w.reflected_color(comps, 0);

    assert_eq!(color, Color::new(0, 0, 0));
}

#[test]
fn refracted_color_of_opaque_surface() {
    let w = World::default_world();
    let s = w.objects[0];
    let r = Ray::new(pt(0.0, 0.0, -5.0), vc(0.0, 0.0, 1.0));
    let xs = vec![Intersection::new(fx(4.0), s), Intersection::new(fx(6.0), s)];
    let comps = xs[0].prepare_computations(r, xs);
    let c = w.refracted_color(comps, 5);

    assert_eq!(c, Color::new(0, 0, 0));
}

#[test]
fn refracted_color_at_maximum_recursive_depth() {
    let mut w = World::default_world();
    let s = &mut w.objects[0];
    s.material.transparency = fx(1.0);
    s.material.refractive_index = fx(1.5);
    let r = Ray::new(pt(0.0, 0.0, -5.0), vc(0.0, 0.0, 1.0));
    let s0 = w.objects[0];
    let xs = vec![Intersection::new(fx(4.0), s0), Intersection::new(fx(6.0), s0)];
    let comps = xs[0].prepare_computations(r, xs);
    let c = w.refracted_color(comps, 0);

    assert_eq!(c, Color::new(0, 0, 0));
}

#[test]
fn refracted_color_under_total_internal_reflection() {
    let mut w = World::default_world();
    let s = &mut w.objects[0];
    s.material.transparency = fx(1.0);
    s.material.refractive_index = fx(1.5);

    let r = Ray::new(pt(0.0, 0.0, 2.0_f64.sqrt() / 2.0), vc(0.0, 1.0, 0.0));
    let s0 = w.objects[0];
    let xs = vec![
        Intersection::new(fx(-(2.0_f64.sqrt()) / 2.0), s0),
        Intersection::new(fx(2.0_f64.sqrt() / 2.0), s0),
    ];

    let comps = xs[1].prepare_computations(r, xs);
    let c = w.refracted_color(comps, 5);

    assert_eq!(c, Color::new(0, 0, 0));
}

#[test]
fn refracted_color_with_refracted_ray() {
    let mut w = World::default_world();

    w.objects[0].material.ambient = fx(1.0);
    w.objects[0].material.pattern = Some(Pattern::test_pattern());

    w.objects[1].material.transparency = fx(1.0);
    w.objects[1].material.refractive_index = fx(1.5);

    let r = Ray::new(pt(0.0, 0.0, 0.1), vc(0.0, 1.0, 0.0));
    let xs = vec![
        Intersection::new(fx(-0.9899), w.objects[0]),
        Intersection::new(fx(-0.4899), w.objects[1]),
        Intersection::new(fx(0.4899), w.objects[1]),
        Intersection::new(fx(0.9899), w.objects[0]),
    ];
    let comps = xs[2].prepare_computations(r, xs);
    let c = w.refracted_color(comps, 5);

    assert!(apc(c, 0.0, 0.99887, 0.04721));
}

#[test]
fn shade_hit_with_transparent_material() {
    let mut w = World::default_world();
    let mut floor = Shape::plane();
    floor.transform = Matrix::translation(0, fx(-1.0), 0);
    floor.material.transparency = fx(0.5);
    floor.material.refractive_index = fx(1.5);
    w.objects.push(floor);

    let mut ball = Shape::sphere();
    ball.material.color = Color::new(fx(1.0), 0, 0);
    ball.material.ambient = fx(0.5);
    ball.transform = Matrix::translation(0, fx(-3.5), fx(-0.5));
    w.objects.push(ball);

    let r = Ray::new(
        pt(0.0, 0.0, -3.0),
        vc(0.0, -(2.0_f64.sqrt()) / 2.0, 2.0_f64.sqrt() / 2.0),
    );
    let xs = vec![Intersection::new(fx(2.0_f64.sqrt()), floor)];

    let comps = xs[0].prepare_computations(r, xs);
    let color = w.shade_hit(comps, 5);

    assert!(apc(color, 0.93642, 0.68642, 0.68642));
}

#[test]
fn shade_hit_with_reflective_transparent_material() {
    let mut w = World::default_world();
    let r = Ray::new(
        pt(0.0, 0.0, -3.0),
        vc(0.0, -(2.0_f64.sqrt()) / 2.0, 2.0_f64.sqrt() / 2.0),
    );

    let mut floor = Shape::plane();
    floor.transform = Matrix::translation(0, fx(-1.0), 0);
    floor.material.reflective = fx(0.5);
    floor.material.transparency = fx(0.5);
    floor.material.refractive_index = fx(1.5);
    w.objects.push(floor);

    let mut ball = Shape::sphere();
    ball.material.color = Color::new(fx(1.0), 0, 0);
    ball.material.ambient = fx(0.5);
    ball.transform = Matrix::translation(0, fx(-3.5), fx(-0.5));
    w.objects.push(ball);

    let xs = vec![Intersection::new(fx(2.0_f64.sqrt()), floor)];
    let comps = xs[0].prepare_computations(r, xs);
    let color = w.shade_hit(comps, 5);

    assert!(apc(color, 0.93391, 0.69643, 0.69243));
}

#[test]
fn refractive_indices_through_nested_glass_spheres() {
    let mut a = Shape::glass_sphere();
    a.transform = Matrix::scaling(fx(2.0), fx(2.0), fx(2.0));
    a.material.refractive_index = fx(1.5);

    let mut b = Shape::glass_sphere();
    b.transform = Matrix::translation(0, 0, fx(-0.25));
    b.material.refractive_index = fx(2.0);

    let mut c = Shape::glass_sphere();
    c.transform = Matrix::translation(0, 0, fx(0.25));
    c.material.refractive_index = fx(2.5);

    let mut w = World::default_world();
    w.objects.clear();
    w.objects.push(a);
    w.objects.push(b);
    w.objects.push(c);

    let r = Ray::new(pt(0.0, 0.0, -4.0), vc(0.0, 0.0, 1.0));
    let xs = w.intersect_world(r);
    assert_eq!(xs.len(), 6);

    let expected = [
        (1.0, 1.5),
        (1.5, 2.0),
        (2.0, 2.5),
        (2.5, 2.5),
        (2.5, 1.5),
        (1.5, 1.0),
    ];
    for (k, (n1, n2)) in expected.iter().enumerate() {
        let comps = xs[k].prepare_computations(r, xs.clone());
        assert_eq!(comps.n1, fx(*n1));
        assert_eq!(comps.n2, fx(*n2));
    }
}

#[test]
fn well_formedness_check_accepts_and_rejects() {
    let w = World::default_world();
    assert!(w.is_well_formed());

    let mut bad = World::default_world();
    bad.objects[0].material.refractive_index = 0;
    assert!(!bad.is_well_formed());
}

#[test]
fn chapter_five_canvas_shows_the_sphere() {
    let c = raytracer::ray::chapter_five_raysphere();
    assert_eq!(c.get_width(), 100);
    assert_eq!(c.get_height(), 100);
    // the ray through the canvas center strikes the sphere
    assert_eq!(c.pixel_at(50, 50), Color::new(fx(1.0), 0, 0));
    // a corner ray misses it
    assert_eq!(c.pixel_at(0, 0), Color::new(0, 0, 0));
}
