use trt_core::camera::Camera;
use trt_core::random::{unit_of_word, Sampler};
use trt_core::scalar::Scalar;
use trt_core::vec3::Vec3;

fn sc(x: f64) -> Scalar {
    Scalar { raw: (x * 65536.0).round() as i64 }
}

fn fl(x: Scalar) -> f64 {
    x.raw as f64 / 65536.0
}

fn v(x: f64, y: f64, z: f64) -> Vec3 {
    Vec3::new(sc(x), sc(y), sc(z))
}

fn near(a: Vec3, b: Vec3, eps: f64) -> bool {
    (fl(a.x) - fl(b.x)).abs() < eps && (fl(a.y) - fl(b.y)).abs() < eps && (fl(a.z) - fl(b.z)).abs() < eps
}

fn pinhole() -> Camera {
    Camera::new(
        v(0.0, 0.0, -5.0),
        v(0.0, 0.0, 0.0),
        v(0.0, 1.0, 0.0),
        sc(90.0),
        sc(2.0),
        sc(0.0),
        sc(5.0),
        sc(0.0),
        sc(1.0),
    )
}

#[test]
fn the_basis_is_orthonormal() {
    let c = pinhole();
    assert_eq!(c.origin, v(0.0, 0.0, -5.0));
    assert_eq!(c.w, v(0.0, 0.0, -1.0));
    assert_eq!(c.u, v(-1.0, 0.0, 0.0));
    assert_eq!(c.v, v(0.0, 1.0, 0.0));
    assert_eq!(c.lens_radius, sc(0.0));
    assert_eq!((c.time0, c.time1), (sc(0.0), sc(1.0)));
}

#[test]
fn the_viewport_follows_field_of_view_and_aspect() {
    // half height tan(45) = 1 at distance 5, aspect 2
    let c = pinhole();
    assert!(near(c.vertical, v(0.0, 10.0, 0.0), 5e-3));
    assert!(near(c.horizontal, v(-20.0, 0.0, 0.0), 5e-3));
    assert!(near(c.lower_left_corner, v(10.0, -5.0, 0.0), 5e-3));
}

#[test]
fn the_central_ray_looks_at_the_target() {
    let c = pinhole();
    let ray = c.get_ray_with(sc(0.5), sc(0.5), v(0.3, -0.2, 0.0), sc(0.25));
    assert_eq!(ray.origin, v(0.0, 0.0, -5.0));
    assert!(near(ray.direction, v(0.0, 0.0, 5.0), 5e-3));
    assert_eq!(ray.time, sc(0.25));
    let corner = c.get_ray_with(sc(0.0), sc(0.0), v(0.0, 0.0, 0.0), sc(0.0));
    assert!(near(corner.direction, v(10.0, -5.0, 5.0), 5e-3));
    let top = c.get_ray_with(sc(0.5), sc(1.0), v(0.0, 0.0, 0.0), sc(0.0));
    assert!(near(top.direction, v(0.0, 5.0, 5.0), 5e-3));
}

#[test]
fn the_lens_moves_the_origin_and_keeps_the_focus() {
    let c = Camera::new(
        v(0.0, 0.0, -5.0),
        v(0.0, 0.0, 0.0),
        v(0.0, 1.0, 0.0),
        sc(90.0),
        sc(1.0),
        sc(2.0),
        sc(5.0),
        sc(2.0),
        sc(6.0),
    );
    assert_eq!(c.lens_radius, sc(1.0));
    let ray = c.get_ray_with(sc(0.5), sc(0.5), v(0.5, 0.25, 0.0), sc(0.5));
    assert_eq!(ray.origin, v(-0.5, 0.25, -5.0));
    // whatever the point of the lens, the ray passes the same point of the
    // plane in focus
    assert!(near(ray.point_at_parameter(sc(1.0)), v(0.0, 0.0, 0.0), 5e-3));
    assert_eq!(ray.time, sc(4.0));
}

#[test]
fn drawn_rays_start_on_the_lens_within_the_shutter_interval() {
    let c = Camera::new(
        v(0.0, 0.0, -5.0),
        v(0.0, 0.0, 0.0),
        v(0.0, 1.0, 0.0),
        sc(40.0),
        sc(1.0),
        sc(2.0),
        sc(5.0),
        sc(2.0),
        sc(6.0),
    );
    let mut sampler = Sampler::seeded(6);
    let mut times = Vec::new();
    for _ in 0..300 {
        let ray = c.get_ray(sc(0.3), sc(0.6), &mut sampler);
        let offset = ray.origin.minus(c.origin);
        assert!(fl(offset.len()) < 1.0 + 1e-3);
        assert_eq!(offset.z, sc(0.0));
        assert!(2.0 <= fl(ray.time) && fl(ray.time) < 6.0);
        times.push(ray.time);
    }
    assert!(times.iter().any(|t| *t != times[0]));
}

#[test]
fn a_pinhole_camera_draws_one_origin() {
    let c = pinhole();
    let mut sampler = Sampler::seeded(6);
    for _ in 0..50 {
        let ray = c.get_ray(sc(0.5), sc(0.5), &mut sampler);
        assert_eq!(ray.origin, v(0.0, 0.0, -5.0));
        assert!(near(ray.direction, v(0.0, 0.0, 5.0), 5e-3));
    }
}

#[test]
fn a_ray_uses_the_words_of_the_sampler_in_order() {
    let c = Camera::new(
        v(0.0, 0.0, -5.0),
        v(0.0, 0.0, 0.0),
        v(0.0, 1.0, 0.0),
        sc(40.0),
        sc(1.0),
        sc(2.0),
        sc(5.0),
        sc(2.0),
        sc(6.0),
    );
    let mut words = Sampler::seeded(51);
    let mut draws = Sampler::seeded(51);
    for _ in 0..100 {
        let got = c.get_ray(sc(0.3), sc(0.6), &mut draws);
        let lens = trt_core::utils::random_in_unit_disk(&mut words);
        let shutter = unit_of_word(words.word());
        assert_eq!(got, c.get_ray_with(sc(0.3), sc(0.6), lens, shutter));
    }
    assert_eq!(draws.word(), words.word());
}
