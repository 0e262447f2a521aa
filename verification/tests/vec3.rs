use trt_core::random::Sampler;
use trt_core::ray::Ray;
use trt_core::scalar::Scalar;
use trt_core::vec3::Vec3;

fn sc(x: f64) -> Scalar {
    Scalar { raw: (x * 65536.0).round() as i64 }
}

fn v(x: f64, y: f64, z: f64) -> Vec3 {
    Vec3::new(sc(x), sc(y), sc(z))
}

#[test]
fn constructors_and_accessors() {
    let a = v(1.0, 2.0, 3.0);
    assert_eq!(a.x(), sc(1.0));
    assert_eq!(a.y(), sc(2.0));
    assert_eq!(a.z(), sc(3.0));
    assert_eq!(a.r(), sc(1.0));
    assert_eq!(a.g(), sc(2.0));
    assert_eq!(a.b(), sc(3.0));
    assert_eq!(a.get(0), sc(1.0));
    assert_eq!(a.get(1), sc(2.0));
    assert_eq!(a.get(2), sc(3.0));
    assert_eq!(Vec3::splat(sc(4.0)), v(4.0, 4.0, 4.0));
}

#[test]
fn set_replaces_one_component() {
    let mut a = v(1.0, 2.0, 3.0);
    a.set(1, sc(9.0));
    assert_eq!(a, v(1.0, 9.0, 3.0));
    a.set(0, sc(8.0));
    a.set(2, sc(7.0));
    assert_eq!(a, v(8.0, 9.0, 7.0));
}

#[test]
fn component_wise_algebra() {
    let a = v(1.0, 2.0, 3.0);
    let b = v(4.0, -5.0, 0.5);
    assert_eq!(a.plus(b), v(5.0, -3.0, 3.5));
    assert_eq!(a.minus(b), v(-3.0, 7.0, 2.5));
    assert_eq!(a.times(b), v(4.0, -10.0, 1.5));
    assert_eq!(a.over(b), v(0.25, -0.4, 6.0));
    assert_eq!(a.scale(sc(2.0)), v(2.0, 4.0, 6.0));
    assert_eq!(a.shrink(sc(2.0)), v(0.5, 1.0, 1.5));
    assert_eq!(a.negate(), v(-1.0, -2.0, -3.0));
    assert_eq!(a.min(b), v(1.0, -5.0, 0.5));
    assert_eq!(a.max(b), v(4.0, 2.0, 3.0));
}

#[test]
fn operators_agree_with_the_methods() {
    let a = v(1.0, 2.0, 3.0);
    let b = v(4.0, -5.0, 0.5);
    assert_eq!(a + b, a.plus(b));
    assert_eq!(a - b, a.minus(b));
    assert_eq!(a * b, a.times(b));
    assert_eq!(a / b, a.over(b));
    assert_eq!(a * sc(3.0), a.scale(sc(3.0)));
    assert_eq!(sc(3.0) * a, a.scale(sc(3.0)));
    assert_eq!(a / sc(4.0), a.shrink(sc(4.0)));
    assert_eq!(-a, a.negate());
}

#[test]
fn dot_and_cross() {
    let a = v(1.0, 2.0, 3.0);
    let b = v(4.0, -5.0, 6.0);
    assert_eq!(a.dot(b), sc(12.0));
    assert_eq!(a.cross(b), v(27.0, 6.0, -13.0));
    assert_eq!(v(1.0, 0.0, 0.0).cross(v(0.0, 1.0, 0.0)), v(0.0, 0.0, 1.0));
}

#[test]
fn length_and_unit() {
    let a = v(3.0, 4.0, 0.0);
    assert_eq!(a.squared_len(), sc(25.0));
    assert_eq!(a.len(), sc(5.0));
    assert_eq!(a.unit().x.raw, 39321);
    assert_eq!(a.unit().y.raw, 52428);
    assert_eq!(a.unit().z.raw, 0);
    assert_eq!(v(0.0, 0.0, -2.0).unit(), v(0.0, 0.0, -1.0));
}

#[test]
fn unit_of_the_zero_vector_is_zero() {
    assert_eq!(v(0.0, 0.0, 0.0).unit(), v(0.0, 0.0, 0.0));
}

#[test]
fn component_wise_square_root() {
    assert_eq!(v(4.0, 9.0, 0.25).sqrt(), v(2.0, 3.0, 0.5));
    assert_eq!(v(-4.0, 0.0, 1.0).sqrt(), v(0.0, 0.0, 1.0));
}

#[test]
fn random_vectors_lie_in_the_unit_cube() {
    let mut sampler = Sampler::seeded(1);
    for _ in 0..1000 {
        let p = Vec3::random(&mut sampler);
        for c in [p.x, p.y, p.z] {
            assert!(0 <= c.raw && c.raw < 65536);
        }
    }
}

#[test]
fn ray_point_at_parameter() {
    let ray = Ray { origin: v(1.0, 2.0, 3.0), direction: v(0.0, -1.0, 2.0), time: sc(0.5) };
    assert_eq!(ray.point_at_parameter(sc(2.0)), v(1.0, 0.0, 7.0));
    assert_eq!(ray.point_at_parameter(sc(0.0)), v(1.0, 2.0, 3.0));
}
