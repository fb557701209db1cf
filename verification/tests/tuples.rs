use raytracer::raytuple::RayTuple;

const S: i64 = 100_000_000;

fn fx(v: f64) -> i64 {
    (v * 1e8).round() as i64
}

fn ap(a: i64, e: f64) -> bool {
    (a - fx(e)).abs() < 1000
}

fn apt(t: RayTuple, x: f64, y: f64, z: f64) -> bool {
    ap(t.x, x) && ap(t.y, y) && ap(t.z, z)
}

#[test]
fn raytuple_point_creates_tuple_with_w1() {
    let a = RayTuple::point(fx(4.3), fx(-4.2), fx(3.1));
    assert_eq!(fx(4.3), a.x);
    assert_eq!(fx(-4.2), a.y);
    assert_eq!(fx(3.1), a.z);
    assert_eq!(S, a.w);
    assert!(a.is_a_point());
    assert!(!a.is_a_vector());
}

#[test]
fn raytuple_vector_creates_tuple_withw0() {
    let b = RayTuple::vector(fx(4.3), fx(-4.2), fx(3.1));
    assert_eq!(fx(4.3), b.x);
    assert_eq!(fx(-4.2), b.y);
    assert_eq!(fx(3.1), b.z);
    assert_eq!(0, b.w);
    assert!(b.is_a_vector());
    assert!(!b.is_a_point());
}

#[test]
fn raytuple_points_are_equal_within_epsilon() {
    let a = RayTuple::point(fx(1.0), fx(1.0), fx(1.0));
    let b = RayTuple::point(fx(1.000001), fx(1.000001), fx(0.999999));
    assert!(apt(a, 1.000001, 1.000001, 0.999999));
    assert!(apt(b, 1.0, 1.0, 1.0));
}

#[test]
fn raytuple_vectors_are_equal_within_epsilon() {
    let a = RayTuple::vector(fx(1.0), fx(1.0), fx(1.0));
    let b = RayTuple::vector(fx(1.000001), fx(1.000001), fx(0.999999));
    assert!(apt(a, 1.000001, 1.000001, 0.999999));
    assert!(apt(b, 1.0, 1.0, 1.0));
}

#[test]
fn raytuple_adding_two_tuples() {
    let a1 = RayTuple::point(fx(3.0), fx(-2.0), fx(5.0));
    let a2 = RayTuple::vector(fx(-2.0), fx(3.0), fx(1.0));
    assert_eq!(a1.add(a2), RayTuple::point(fx(1.0), fx(1.0), fx(6.0)));
}

#[test]
fn raytuple_subtract_two_points() {
    let p1 = RayTuple::point(fx(3.0), fx(2.0), fx(1.0));
    let p2 = RayTuple::point(fx(5.0), fx(6.0), fx(7.0));
    let ps = p1.sub(p2);
    assert_eq!(ps, RayTuple::vector(fx(-2.0), fx(-4.0), fx(-6.0)));
    assert!(ps.is_a_vector());
}

#[test]
fn raytuple_subtract_vector_from_point() {
    let p = RayTuple::point(fx(3.0), fx(2.0), fx(1.0));
    let v = RayTuple::vector(fx(5.0), fx(6.0), fx(7.0));
    let ps = p.sub(v);
    assert_eq!(ps, RayTuple::point(fx(-2.0), fx(-4.0), fx(-6.0)));
    assert!(ps.is_a_point());
}

#[test]
fn raytuple_subtract_two_vectors() {
    let v1 = RayTuple::vector(fx(3.0), fx(2.0), fx(1.0));
    let v2 = RayTuple::vector(fx(5.0), fx(6.0), fx(7.0));
    let vs = v1.sub(v2);
    assert_eq!(vs, RayTuple::vector(fx(-2.0), fx(-4.0), fx(-6.0)));
    assert!(vs.is_a_vector());
}

#[test]
fn raytuple_subtract_vector_from_zero_vector() {
    let zero = RayTuple::vector(0, 0, 0);
    let v = RayTuple::vector(fx(1.0), fx(-2.0), fx(3.0));
    let vz = zero.sub(v);
    assert_eq!(vz, RayTuple::vector(fx(-1.0), fx(2.0), fx(-3.0)));
    assert!(vz.is_a_vector());
}

#[test]
fn raytuple_negating_a_tuple() {
    let a = RayTuple { x: fx(1.0), y: fx(-2.0), z: fx(3.0), w: fx(-4.0) };
    assert_eq!(a.neg(), RayTuple { x: fx(-1.0), y: fx(2.0), z: fx(-3.0), w: fx(4.0) });
}

#[test]
fn raytuple_multiply_tuple_by_scalar() {
    let a = RayTuple::new(fx(1.0), fx(-2.0), fx(3.0), fx(-4.0));
    let m = a.scale(fx(3.5));
    assert_eq!(m, RayTuple::new(fx(3.5), fx(-7.0), fx(10.5), fx(-14.0)));

    let a = RayTuple::new(fx(1.0), fx(-2.0), fx(3.0), fx(-4.0));
    let m = a.scale(fx(0.5));
    assert_eq!(m, RayTuple::new(fx(0.5), fx(-1.0), fx(1.5), fx(-2.0)));
}

#[test]
fn raytuple_divide_tuple_by_scaler() {
    let a = RayTuple::new(fx(1.0), fx(-2.0), fx(3.0), fx(-4.0));
    let d = a.divide(fx(2.0));
    assert_eq!(d, RayTuple::new(fx(0.5), fx(-1.0), fx(1.5), fx(-2.0)));
}

#[test]
fn magnitude_of_vector_1_0_0() {
    let v = RayTuple::vector(fx(1.0), 0, 0);
    assert_eq!(v.magnitude(), fx(1.0));
}

#[test]
fn magnitude_of_vector_0_1_0() {
    let v = RayTuple::vector(0, fx(1.0), 0);
    assert_eq!(v.magnitude(), fx(1.0));
}

#[test]
fn magnitude_of_vector_0_0_1() {
    let v = RayTuple::vector(0, 0, fx(1.0));
    assert_eq!(v.magnitude(), fx(1.0));
}

#[test]
fn magnitude_of_vector_1_2_3() {
    let v = RayTuple::vector(fx(1.0), fx(2.0), fx(3.0));
    assert!(ap(v.magnitude(), 14.0_f64.sqrt()));
}

#[test]
fn magnitude_of_negative_vector_1_2_3() {
    let v = RayTuple::vector(fx(-1.0), fx(-2.0), fx(-3.0));
    assert!(ap(v.magnitude(), 14.0_f64.sqrt()));
}

#[test]
fn normal_vector_4_0_0() {
    let v = RayTuple::vector(fx(4.0), 0, 0);
    assert_eq!(v.normalize(), RayTuple::vector(fx(1.0), 0, 0));
}

#[test]
fn normal_vector_1_2_3() {
    let v = RayTuple::vector(fx(1.0), fx(2.0), fx(3.0));
    let n = v.normalize();
    assert!(apt(n, 0.26726, 0.53452, 0.80178));
}

#[test]
fn magnitude_of_normal_is_1() {
    let v = RayTuple::vector(fx(1.0), fx(2.0), fx(3.0));
    let n = v.normalize();
    assert!(ap(n.magnitude(), 1.0));
}

#[test]
fn dot_product() {
    let a = RayTuple::vector(fx(1.0), fx(2.0), fx(3.0));
    let b = RayTuple::vector(fx(2.0), fx(3.0), fx(4.0));
    assert_eq!(a.dot(b), fx(20.0));
}

#[test]
fn cross_product() {
    let a = RayTuple::vector(fx(1.0), fx(2.0), fx(3.0));
    let b = RayTuple::vector(fx(2.0), fx(3.0), fx(4.0));
    assert_eq!(a.cross(b), RayTuple::vector(fx(-1.0), fx(2.0), fx(-1.0)));
    assert_eq!(b.cross(a), RayTuple::vector(fx(1.0), fx(-2.0), fx(1.0)));
}

#[test]
fn reflect_vector_at_45_degrees() {
    let v = RayTuple::vector(fx(1.0), fx(-1.0), 0);
    let n = RayTuple::vector(0, fx(1.0), 0);
    let r = v.reflect(n);
    assert_eq!(r, RayTuple::vector(fx(1.0), fx(1.0), 0));
}

#[test]
fn reflect_vector_off_slanted_surface() {
    let v = RayTuple::vector(0, fx(-1.0), 0);
    let n = RayTuple::vector(fx(2.0_f64.sqrt() / 2.0), fx(2.0_f64.sqrt() / 2.0), 0);
    let r = v.reflect(n);
    assert!(apt(r, 1.0, 0.0, 0.0));
}
