use raytracer::color::Color;
use raytracer::light::Light;
use raytracer::material::Material;
use raytracer::pattern::Pattern;
use raytracer::raytuple::RayTuple;
use raytracer::shape::Shape;

fn fx(v: f64) -> i64 {
    (v * 1e8).round() as i64
}

fn ap(a: i64, e: f64) -> bool {
    (a - fx(e)).abs() < 1000
}

fn apc(c: Color, r: f64, g: f64, b: f64) -> bool {
    ap(c.red, r) && ap(c.green, g) && ap(c.blue, b)
}

fn pt(x: f64, y: f64, z: f64) -> RayTuple {
    RayTuple::point(fx(x), fx(y), fx(z))
}

fn vc(x: f64, y: f64, z: f64) -> RayTuple {
    RayTuple::vector(fx(x), fx(y), fx(z))
}

#[test]
fn create_material() {
    let m = Material::new();

    assert_eq!(m.color, Color::new(fx(1.0), fx(1.0), fx(1.0)));
    assert_eq!(m.ambient, fx(0.1));
    assert_eq!(m.diffuse, fx(0.9));
    assert_eq!(m.specular, fx(0.9));
    assert_eq!(m.shininess, fx(200.0));
}

#[test]
fn lighting_eye_between() {
    let m = Material::new();
    let position = pt(0.0, 0.0, 0.0);

    let eyev = vc(0.0, 0.0, -1.0);
    let normalv = vc(0.0, 0.0, -1.0);
    let light = Light::point_light(pt(0.0, 0.0, -10.0), Color::new(fx(1.0), fx(1.0), fx(1.0)));

    let result = m.lighting(Shape::test_shape(), &light, position, eyev, normalv, false);
    assert!(apc(result, 1.9, 1.9, 1.9));
}

#[test]
fn lighting_eye_between_offset_45() {
    let m = Material::new();
    let position = pt(0.0, 0.0, 0.0);

    let eyev = vc(0.0, 2.0_f64.sqrt() / 2.0, -(2.0_f64.sqrt()) / 2.0);
    let normalv = vc(0.0, 0.0, -1.0);
    let light = Light::point_light(pt(0.0, 0.0, -10.0), Color::new(fx(1.0), fx(1.0), fx(1.0)));

    let result = m.lighting(Shape::test_shape(), &light, position, eyev, normalv, false);
    assert!(apc(result, 1.0, 1.0, 1.0));
}

#[test]
fn lighting_light_offset_45() {
    let m = Material::new();
    let position = pt(0.0, 0.0, 0.0);

    let eyev = vc(0.0, 0.0, -1.0);
    let normalv = vc(0.0, 0.0, -1.0);
    let light = Light::point_light(pt(0.0, 10.0, -10.0), Color::new(fx(1.0), fx(1.0), fx(1.0)));

    let result = m.lighting(Shape::test_shape(), &light, position, eyev, normalv, false);
    assert!(apc(result, 0.7364, 0.7364, 0.7364));
}

#[test]
fn lighting_eye_in_reflection() {
    let m = Material::new();
    let position = pt(0.0, 0.0, 0.0);

    let eyev = vc(0.0, -(2.0_f64.sqrt()) / 2.0, -(2.0_f64.sqrt()) / 2.0);
    let normalv = vc(0.0, 0.0, -1.0);
    let light = Light::point_light(pt(0.0, 10.0, -10.0), Color::new(fx(1.0), fx(1.0), fx(1.0)));

    let result = m.lighting(Shape::test_shape(), &light, position, eyev, normalv, false);
    assert!(apc(result, 1.6364, 1.6364, 1.6364));
}

#[test]
fn lighting_light_behind_surface() {
    let m = Material::new();
    let position = pt(0.0, 0.0, 0.0);

    let eyev = vc(0.0, 0.0, -1.0);
    let normalv = vc(0.0, 0.0, -1.0);
    let light = Light::point_light(pt(0.0, 0.0, 10.0), Color::new(fx(1.0), fx(1.0), fx(1.0)));

    let result = m.lighting(Shape::test_shape(), &light, position, eyev, normalv, false);
    assert!(apc(result, 0.1, 0.1, 0.1));
}

#[test]
fn lighting_with_surface_in_shadow() {
    let eyev = vc(0.0, 0.0, -1.0);
    let normalv = vc(0.0, 0.0, -1.0);
    let light = Light::point_light(pt(0.0, 0.0, -10.0), Color::new(fx(1.0), fx(1.0), fx(1.0)));
    let in_shadow = true;
    let m = Material::new();
    let position = pt(0.0, 0.0, 0.0);

    let result = m.lighting(Shape::test_shape(), &light, position, eyev, normalv, in_shadow);
    assert!(apc(result, 0.1, 0.1, 0.1));
}

#[test]
fn lighting_with_pattern_applied() {
    let mut m = Material::new();
    m.pattern = Some(Pattern::stripe_pattern(
        Color::new(fx(1.0), fx(1.0), fx(1.0)),
        Color::new(0, 0, 0),
    ));
    m.ambient = fx(1.0);
    m.diffuse = 0;
    m.specular = 0;
    let eyev = vc(0.0, 0.0, -1.0);
    let normalv = vc(0.0, 0.0, -1.0);
    let light = Light::point_light(pt(0.0, 0.0, -10.0), Color::new(fx(1.0), fx(1.0), fx(1.0)));
    let c1 = m.lighting(Shape::test_shape(), &light, pt(0.9, 0.0, 0.0), eyev, normalv, false);
    let c2 = m.lighting(Shape::test_shape(), &light, pt(1.1, 0.0, 0.0), eyev, normalv, false);

    assert_eq!(c1, Color::new(fx(1.0), fx(1.0), fx(1.0)));
    assert_eq!(c2, Color::new(0, 0, 0));
}

#[test]
fn reflectivity_for_default_material() {
    let m = Material::new();
    assert_eq!(m.reflective, 0);
}

#[test]
fn default_values_for_refraction() {
    let m = Material::new();
    assert_eq!(m.transparency, 0);
    assert_eq!(m.refractive_index, fx(1.0));
}
