use raytracer::matrix::Matrix;
use raytracer::material::Material;
use raytracer::ray::Ray;
use raytracer::raytuple::RayTuple;
use raytracer::shape::Shape;
use raytracer::intersection::Intersection;

fn fx(v: f64) -> i64 {
    (v * 1e8).round() as i64
}

fn ap(a: i64, e: f64) -> bool {
    (a - fx(e)).abs() < 1000
}

fn apt(t: RayTuple, x: f64, y: f64, z: f64) -> bool {
    ap(t.x, x) && ap(t.y, y) && ap(t.z, z)
}

fn pt(x: f64, y: f64, z: f64) -> RayTuple {
    RayTuple::point(fx(x), fx(y), fx(z))
}

fn vc(x: f64, y: f64, z: f64) -> RayTuple {
    RayTuple::vector(fx(x), fx(y), fx(z))
}

#[test]
fn shape_ray_intersects_sphere_at_two_points() {
    let r = Ray::new(pt(0.0, 0.0, -5.0), vc(0.0, 0.0, 1.0));
    let mut s = Shape::sphere();
    let xs = s.intersect(r);

    assert_eq!(xs.len(), 2);
    assert_eq!(xs[0].t, fx(4.0));
    assert_eq!(xs[1].t, fx(6.0));
}

#[test]
fn shape_ray_intersects_sphere_at_tangent() {
    let r = Ray::new(pt(0.0, 1.0, -5.0), vc(0.0, 0.0, 1.0));
    let mut s = Shape::sphere();
    let xs = s.intersect(r);

    assert_eq!(xs.len(), 2);
    assert_eq!(xs[0].t, fx(5.0));
    assert_eq!(xs[1].t, fx(5.0));
}

#[test]
fn shape_ray_misses_sphere() {
    let r = Ray::new(pt(0.0, 2.0, -5.0), vc(0.0, 0.0, 1.0));
    let mut s = Shape::sphere();
    let xs = s.intersect(r);

    assert_eq!(xs.len(), 0);
}

#[test]
fn shape_ray_originates_inside_sphere() {
    let r = Ray::new(pt(0.0, 0.0, 0.0), vc(0.0, 0.0, 1.0));
    let mut s = Shape::sphere();
    let xs = s.intersect(r);

    assert_eq!(xs.len(), 2);
    assert_eq!(xs[0].t, fx(-1.0));
    assert_eq!(xs[1].t, fx(1.0));
}

#[test]
fn shape_sphere_is_behind_ray() {
    let r = Ray::new(pt(0.0, 0.0, 5.0), vc(0.0, 0.0, 1.0));
    let mut s = Shape::sphere();
    let xs = s.intersect(r);

    assert_eq!(xs.len(), 2);
    assert_eq!(xs[0].t, fx(-6.0));
    assert_eq!(xs[1].t, fx(-4.0));
}

#[test]
fn shape_intersect_returns_object() {
    let r = Ray::new(pt(0.0, 0.0, -5.0), vc(0.0, 0.0, 1.0));
    let mut s: Shape = Shape::sphere();
    let xs = s.intersect(r);

    assert_eq!(xs.len(), 2);
    assert_eq!(xs[0].object, s);
    assert_eq!(xs[1].object, s);
}

#[test]
fn shape_sphere_default_transform() {
    let s = Shape::sphere();
    assert_eq!(s.transform, Matrix::identity());
}

#[test]
fn shape_sphere_set_transform() {
    let mut s = Shape::sphere();
    let t = Matrix::translation(fx(2.0), fx(3.0), fx(4.0));
    s.transform = t;
    assert_eq!(s.transform, t);
}

#[test]
fn shape_intersect_scaled_sphere() {
    let r = Ray::new(pt(0.0, 0.0, -5.0), vc(0.0, 0.0, 1.0));
    let mut s = Shape::sphere();
    s.transform = Matrix::scaling(fx(2.0), fx(2.0), fx(2.0));
    let xs = s.intersect(r);

    assert_eq!(xs.len(), 2);
    assert_eq!(xs[0].t, fx(3.0));
    assert_eq!(xs[1].t, fx(7.0));
}

#[test]
fn shape_intersect_translated_sphere() {
    let r = Ray::new(pt(0.0, 0.0, -5.0), vc(0.0, 0.0, 1.0));
    let mut s = Shape::sphere();
    s.transform = Matrix::translation(fx(5.0), 0, 0);
    let xs = s.intersect(r);

    assert_eq!(xs.len(), 0);
}

#[test]
fn shape_normal_spere_at_x_axis() {
    let s = Shape::sphere();
    let n = s.normal_at(pt(1.0, 0.0, 0.0));
    assert!(apt(n, 1.0, 0.0, 0.0));
}

#[test]
fn shape_normal_sphere_at_y_axis() {
    let s = Shape::sphere();
    let n = s.normal_at(pt(0.0, 1.0, 0.0));
    assert!(apt(n, 0.0, 1.0, 0.0));
}

#[test]
fn shape_normal_sphere_at_z_axis() {
    let s = Shape::sphere();
    let n = s.normal_at(pt(0.0, 0.0, 1.0));
    assert!(apt(n, 0.0, 0.0, 1.0));
}

#[test]
fn shape_normal_non_axial() {
    let coord: f64 = 3.0_f64.sqrt() / 3.0;
    let s = Shape::sphere();
    let n = s.normal_at(pt(coord, coord, coord));
    assert!(apt(n, coord, coord, coord));
}

#[test]
fn shape_normal_on_translated_sphere() {
    let mut s = Shape::sphere();
    s.transform = Matrix::translation(0, fx(1.0), 0);
    let n = s.normal_at(pt(0.0, 1.70711, -0.70711));
    assert!(apt(n, 0.0, 0.70711, -0.70711));
}

#[test]
fn shape_normal_on_transformed_sphere() {
    let mut s = Shape::sphere();
    let m = Matrix::scaling(fx(1.0), fx(0.5), fx(1.0))
        .multiply(&Matrix::rotation_z(fx(std::f64::consts::PI / 5.0)));
    s.transform = m;
    let n = s.normal_at(pt(0.0, 2.0_f64.sqrt() / 2.0, -(2.0_f64.sqrt()) / 2.0));
    assert!(apt(n, 0.0, 0.97014, -0.24254));
}

#[test]
fn shape_sphere_has_default_material() {
    let s = Shape::sphere();
    assert_eq!(s.material, Material::new());
}

#[test]
fn shape_sphere_material_can_be_set() {
    let mut s = Shape::sphere();
    let mut m = Material::new();
    m.ambient = fx(1.0);
    s.material = m;
    assert_eq!(s.material, m);
}

#[test]
fn test_shape_has_default_transform() {
    let s = Shape::test_shape();
    assert_eq!(s.transform, Matrix::identity());
}

#[test]
fn test_shape_assign_transform() {
    let mut s = Shape::test_shape();
    s.transform = Matrix::translation(fx(2.0), fx(3.0), fx(4.0));
    assert_eq!(s.transform, Matrix::translation(fx(2.0), fx(3.0), fx(4.0)));
}

#[test]
fn test_has_default_material() {
    let s = Shape::test_shape();
    let m = s.material;
    assert_eq!(m, Material::new());
}

#[test]
fn test_can_assign_material() {
    let mut s = Shape::test_shape();
    let mut m = Material::new();
    m.ambient = fx(1.0);
    s.material = m;
    assert_eq!(s.material, m);
}

#[test]
fn intersecting_scaled_shape_with_ray() {
    let r = Ray::new(pt(0.0, 0.0, -5.0), vc(0.0, 0.0, 1.0));
    let mut s = Shape::test_shape();
    s.transform = Matrix::scaling(fx(2.0), fx(2.0), fx(2.0));
    let _xs = s.intersect(r);

    assert_eq!(s.saved_ray.origin, pt(0.0, 0.0, -2.5));
    assert_eq!(s.saved_ray.direction, vc(0.0, 0.0, 0.5));
}

#[test]
fn intersecting_translated_shape_with_ray() {
    let r = Ray::new(pt(0.0, 0.0, -5.0), vc(0.0, 0.0, 1.0));
    let mut s = Shape::test_shape();
    s.transform = Matrix::translation(fx(5.0), 0, 0);
    let _xs = s.intersect(r);

    assert_eq!(s.saved_ray.origin, pt(-5.0, 0.0, -5.0));
    assert_eq!(s.saved_ray.direction, vc(0.0, 0.0, 1.0));
}

#[test]
fn compute_normal_on_translated_shape() {
    let mut s = Shape::test_shape();
    s.transform = Matrix::translation(0, fx(1.0), 0);
    let n = s.normal_at(pt(0.0, 1.70711, -0.70711));
    assert!(apt(n, 0.0, 0.70711, -0.70711));
}

#[test]
fn compute_normal_on_transformed_shape() {
    let mut s = Shape::test_shape();
    let m = Matrix::scaling(fx(1.0), fx(0.5), fx(1.0))
        .multiply(&Matrix::rotation_z(fx(std::f64::consts::PI / 5.0)));
    s.transform = m;
    let n = s.normal_at(pt(0.0, 2.0_f64.sqrt() / 2.0, -(2.0_f64.sqrt()) / 2.0));
    assert!(apt(n, 0.0, 0.97014, -0.24254));
}

#[test]
fn normal_of_plane_is_constant_everywhere() {
    let p = Shape::plane();
    let n1 = p.normal_at(pt(0.0, 0.0, 0.0));
    let n2 = p.normal_at(pt(10.0, 0.0, -10.0));
    let n3 = p.normal_at(pt(-5.0, 0.0, 150.0));

    let v = vc(0.0, 1.0, 0.0);
    assert_eq!(n1, v);
    assert_eq!(n2, v);
    assert_eq!(n3, v);
}

#[test]
fn intersect_ray_parallel_to_plane() {
    let mut p = Shape::plane();
    let r = Ray::new(pt(0.0, 10.0, 0.0), vc(0.0, 0.0, 1.0));
    let xs = p.intersect(r);
    assert_eq!(xs.len(), 0);
}

#[test]
fn intersect_coplanar_ray_plane() {
    let mut p = Shape::plane();
    let r = Ray::new(pt(0.0, 0.0, 0.0), vc(0.0, 0.0, 1.0));
    let xs = p.intersect(r);
    assert_eq!(xs.len(), 0);
}

#[test]
fn ray_intersect_plane_from_above() {
    let mut p = Shape::plane();
    let r = Ray::new(pt(0.0, 1.0, 0.0), vc(0.0, -1.0, 0.0));
    let xs = p.intersect(r);

    assert_eq!(xs.len(), 1);
    assert_eq!(xs[0].t, fx(1.0));
    assert_eq!(xs[0].object, p);
}

#[test]
fn ray_intersect_plane_from_below() {
    let mut p = Shape::plane();
    let r = Ray::new(pt(0.0, -1.0, 0.0), vc(0.0, 1.0, 0.0));
    let xs = p.intersect(r);

    assert_eq!(xs.len(), 1);
    assert_eq!(xs[0].t, fx(1.0));
    assert_eq!(xs[0].object, p);
}

#[test]
fn glass_sphere_test() {
    let s = Shape::glass_sphere();

    assert_eq!(s.transform, Matrix::identity());
    assert_eq!(s.material.transparency, fx(1.0));
    assert_eq!(s.material.refractive_index, fx(1.5));
}

#[test]
fn ray_intersects_cube() {
    let mut c = Shape::cube();

    let test_tuples: Vec<(RayTuple, RayTuple, f64, f64)> = vec![
        (pt(5.0, 0.5, 0.0), vc(-1.0, 0.0, 0.0), 4.0, 6.0),
        (pt(-5.0, 0.5, 0.0), vc(1.0, 0.0, 0.0), 4.0, 6.0),
        (pt(0.5, 5.0, 0.0), vc(0.0, -1.0, 0.0), 4.0, 6.0),
        (pt(0.5, -5.0, 0.0), vc(0.0, 1.0, 0.0), 4.0, 6.0),
        (pt(0.5, 0.0, 5.0), vc(0.0, 0.0, -1.0), 4.0, 6.0),
        (pt(0.5, 0.0, -5.0), vc(0.0, 0.0, 1.0), 4.0, 6.0),
        (pt(0.0, 0.5, 0.0), vc(0.0, 0.0, 1.0), -1.0, 1.0),
    ];

    for test in test_tuples {
        let r = Ray::new(test.0, test.1);
        let xs: Vec<Intersection> = c.intersect(r);

        assert_eq!(xs.len(), 2);
        assert_eq!(xs[0].t, fx(test.2));
        assert_eq!(xs[1].t, fx(test.3));
    }
}

#[test]
fn ray_misses_cube() {
    let mut c = Shape::cube();

    let test_tuples: Vec<(RayTuple, RayTuple)> = vec![
        (pt(-2.0, 0.0, 0.0), vc(0.2673, 0.5345, 0.8018)),
        (pt(0.0, -2.0, 0.0), vc(0.8018, 0.2673, 0.5345)),
        (pt(0.0, 0.0, -2.0), vc(0.5345, 0.8018, 0.2673)),
        (pt(2.0, 0.0, 2.0), vc(0.0, 0.0, -1.0)),
        (pt(0.0, 2.0, 2.0), vc(0.0, -1.0, 0.0)),
        (pt(2.0, 2.0, 0.0), vc(-1.0, 0.0, 0.0)),
    ];

    for test in test_tuples {
        let r = Ray::new(test.0, test.1);
        let xs: Vec<Intersection> = c.intersect(r);
        assert_eq!(xs.len(), 0);
    }
}

#[test]
fn normal_on_surface_of_cube() {
    let c = Shape::cube();

    let test_tuples: Vec<(RayTuple, RayTuple)> = vec![
        (pt(1.0, 0.5, -0.8), vc(1.0, 0.0, 0.0)),
        (pt(-1.0, -0.2, 0.9), vc(-1.0, 0.0, 0.0)),
        (pt(-0.4, 1.0, -0.1), vc(0.0, 1.0, 0.0)),
        (pt(0.3, -1.0, -0.7), vc(0.0, -1.0, 0.0)),
        (pt(-0.6, 0.3, 1.0), vc(0.0, 0.0, 1.0)),
        (pt(0.4, 0.4, -1.0), vc(0.0, 0.0, -1.0)),
        (pt(1.0, 1.0, 1.0), vc(1.0, 0.0, 0.0)),
        (pt(-1.0, -1.0, -1.0), vc(-1.0, 0.0, 0.0)),
    ];

    for test in test_tuples {
        let p = test.0;
        let normal = c.normal_at(p);
        assert_eq!(normal, test.1);
    }
}

#[test]
fn ray_misses_cylinder() {
    let mut cyl = Shape::cylinder();

    let test_tuples: Vec<(RayTuple, RayTuple)> = vec![
        (pt(1.0, 0.0, 0.0), vc(0.0, 1.0, 0.0)),
        (pt(0.0, 0.0, 0.0), vc(0.0, 1.0, 0.0)),
        (pt(0.0, 0.0, -5.0), vc(1.0, 1.0, 1.0)),
    ];

    for test in test_tuples {
        let direction = test.1.normalize();
        let r = Ray::new(test.0, direction);
        let xs = cyl.intersect(r);
        assert_eq!(xs.len(), 0);
    }
}

#[test]
fn ray_hits_cylinder() {
    let mut cyl = Shape::cylinder();

    let test_tuples: Vec<(RayTuple, RayTuple, f64, f64)> = vec![
        (pt(1.0, 0.0, -5.0), vc(0.0, 0.0, 1.0), 5.0, 5.0),
        (pt(0.0, 0.0, -5.0), vc(0.0, 0.0, 1.0), 4.0, 6.0),
        (pt(0.5, 0.0, -5.0), vc(0.1, 1.0, 1.0), 6.80798191702732, 7.088723439378861),
    ];

    for test in test_tuples {
        let direction = test.1.normalize();
        let r = Ray::new(test.0, direction);
        let xs = cyl.intersect(r);

        assert!(ap(xs[0].t, test.2));
        assert!(ap(xs[1].t, test.3));
    }
}

#[test]
fn normal_of_cylinder() {
    let cyl = Shape::cylinder();

    let test_tuples: Vec<(RayTuple, RayTuple)> = vec![
        (pt(1.0, 0.0, 0.0), vc(1.0, 0.0, 0.0)),
        (pt(0.0, 5.0, -1.0), vc(0.0, 0.0, -1.0)),
        (pt(0.0, -2.0, 1.0), vc(0.0, 0.0, 1.0)),
        (pt(-1.0, 1.0, 0.0), vc(-1.0, 0.0, 0.0)),
    ];

    for test in test_tuples {
        let n = cyl.normal_at(test.0);
        assert_eq!(n, test.1);
    }
}

#[test]
fn default_min_and_max_of_cylinder() {
    let cyl = Shape::cylinder();

    assert_eq!(cyl.minimum, i64::MIN);
    assert_eq!(cyl.maximum, i64::MAX);
}

#[test]
fn intersecting_constrained_cylinder() {
    let mut cyl = Shape::cylinder();
    cyl.minimum = fx(1.0);
    cyl.maximum = fx(2.0);

    let test_tuples: Vec<(RayTuple, RayTuple, usize)> = vec![
        (pt(0.0, 1.5, 0.0), vc(0.1, 1.0, 0.0), 0),
        (pt(0.0, 3.0, -5.0), vc(0.0, 0.0, 1.0), 0),
        (pt(0.0, 0.0, -5.0), vc(0.0, 0.0, 1.0), 0),
        (pt(0.0, 2.0, -5.0), vc(0.0, 0.0, 1.0), 0),
        (pt(0.0, 1.0, -5.0), vc(0.0, 0.0, 1.0), 0),
        (pt(0.0, 1.5, -2.0), vc(0.0, 0.0, 1.0), 2),
    ];

    for test in test_tuples {
        let direction = test.1.normalize();
        let r = Ray::new(test.0, direction);
        let xs = cyl.intersect(r);
        assert_eq!(xs.len(), test.2);
    }
}

#[test]
fn distinct_shapes_have_distinct_identities() {
    let a = Shape::sphere();
    let b = Shape::sphere();
    assert_ne!(a, b);
    let copy = a;
    assert_eq!(a, copy);
}

#[test]
fn normal_on_sheared_plane() {
    let mut p = Shape::plane();
    p.transform = Matrix::shearing(0, 0, fx(1.0), 0, 0, 0);
    let n = p.normal_at(pt(0.0, 0.0, 0.0));
    assert!(apt(n, -(2.0_f64.sqrt()) / 2.0, 2.0_f64.sqrt() / 2.0, 0.0));
    assert!(ap(n.magnitude(), 1.0));
}

#[test]
fn normal_on_sheared_cube() {
    let mut c = Shape::cube();
    c.transform = Matrix::shearing(0, 0, fx(1.0), 0, 0, 0);
    let n = c.normal_at(pt(0.4, 1.4, -0.1));
    assert!(apt(n, -(2.0_f64.sqrt()) / 2.0, 2.0_f64.sqrt() / 2.0, 0.0));
    assert!(ap(n.magnitude(), 1.0));
}

#[test]
fn cube_normal_is_a_unit_vector() {
    let c = Shape::cube();
    let n = c.normal_at(pt(2.0, 0.0, 0.0));
    assert_eq!(n, vc(1.0, 0.0, 0.0));
    assert_eq!(n.magnitude(), fx(1.0));
}

#[test]
fn normal_on_scaled_cylinder_is_a_unit_vector() {
    let mut cyl = Shape::cylinder();
    cyl.transform = Matrix::scaling(fx(2.0), fx(1.0), fx(2.0));
    let n = cyl.normal_at(pt(2.0, 0.0, 0.0));
    assert!(apt(n, 1.0, 0.0, 0.0));
    assert!(ap(n.magnitude(), 1.0));
}
