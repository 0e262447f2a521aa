use trt_core::camera::Camera;
use trt_core::hit::hit_list::HitList;
use trt_core::hit::sphere::Sphere;
use trt_core::hit::Hittable;
use trt_core::material::Material;
use trt_core::random::Sampler;
use trt_core::ray::Ray;
use trt_core::scalar::Scalar;
use trt_core::scene::{
    clamp, color, compute_color, encode, jittered, pixel_at, shade, Color, Scene, MAX_DEPTH,
};
use trt_core::scenes::{diffuse, lamp};
use trt_core::vec3::Vec3;

fn sc(x: f64) -> Scalar {
    Scalar { raw: (x * 65536.0).round() as i64 }
}

fn v(x: f64, y: f64, z: f64) -> Vec3 {
    Vec3::new(sc(x), sc(y), sc(z))
}

fn ball(center: Vec3, radius: f64, material: Material) -> Hittable {
    Hittable::Sphere(Sphere { center, radius: sc(radius), material })
}

fn toward_origin() -> Ray {
    Ray { origin: v(0.0, 0.0, -5.0), direction: v(0.0, 0.0, 1.0), time: sc(0.0) }
}

fn away() -> Ray {
    Ray { origin: v(0.0, 0.0, -5.0), direction: v(0.0, 0.0, -1.0), time: sc(0.0) }
}

#[test]
fn the_depth_cutoff_is_fifty() {
    assert_eq!(MAX_DEPTH, 50);
}

#[test]
fn clamp_takes_the_integer_part_within_a_byte() {
    assert_eq!(clamp(sc(0.0)), 0);
    assert_eq!(clamp(sc(0.99)), 0);
    assert_eq!(clamp(sc(1.0)), 1);
    assert_eq!(clamp(sc(127.5)), 127);
    assert_eq!(clamp(sc(254.999)), 254);
    assert_eq!(clamp(sc(255.0)), 255);
    assert_eq!(clamp(sc(255.999)), 255);
    assert_eq!(clamp(sc(1000.0)), 255);
    assert_eq!(clamp(sc(-0.5)), 0);
    assert_eq!(clamp(sc(-1000.0)), 0);
    assert_eq!(clamp(Scalar::max_value()), 255);
}

#[test]
fn channels_become_bytes() {
    assert_eq!(Color::channel(sc(0.0)), 0);
    assert_eq!(Color::channel(sc(1.0)), 255);
    assert_eq!(Color::channel(sc(0.5)), 127);
    assert_eq!(Color::channel(sc(2.0)), 255);
    assert_eq!(Color::channel(sc(-1.0)), 0);
    assert_eq!(Color::from_vec3(v(0.0, 0.5, 1.0)), Color { r: 0, g: 127, b: 255 });
    let converted: Color = v(1.0, 0.0, 0.5).into();
    assert_eq!(converted, Color { r: 255, g: 0, b: 127 });
    assert_eq!(Color::from(v(0.25, 0.25, 0.25)), Color { r: 63, g: 63, b: 63 });
}

#[test]
fn a_pixel_is_the_gamma_corrected_mean() {
    // mean (0.25, 1, 0), square roots (0.5, 1, 0)
    assert_eq!(Color::of_samples(v(1.0, 4.0, 0.0), 4), Color { r: 127, g: 255, b: 0 });
    assert_eq!(Color::of_samples(v(0.25, 0.25, 0.25), 1), Color { r: 127, g: 127, b: 127 });
}

#[test]
fn shading_adds_the_attenuated_light() {
    assert_eq!(shade(v(1.0, 0.0, 0.5), v(0.5, 0.5, 0.0), v(2.0, 4.0, 8.0)), v(2.0, 2.0, 0.5));
}

#[test]
fn jitter_moves_within_the_pixel() {
    assert_eq!(jittered(0, sc(0.0), 4), sc(0.0));
    assert_eq!(jittered(1, sc(0.5), 4), sc(0.375));
    assert_eq!(jittered(3, sc(0.0), 4), sc(0.75));
}

#[test]
fn the_buffer_holds_the_rows_from_the_top() {
    assert_eq!(pixel_at(0, 3, 2), (0, 1));
    assert_eq!(pixel_at(1, 3, 2), (1, 1));
    assert_eq!(pixel_at(2, 3, 2), (2, 1));
    assert_eq!(pixel_at(3, 3, 2), (0, 0));
    assert_eq!(pixel_at(5, 3, 2), (2, 0));
}

#[test]
fn encoding_writes_three_bytes_for_each_pixel() {
    let pixels = vec![Color { r: 1, g: 2, b: 3 }, Color { r: 4, g: 5, b: 6 }];
    assert_eq!(encode(&pixels), vec![1, 2, 3, 4, 5, 6]);
    assert_eq!(encode(&vec![]), Vec::<u8>::new());
}

#[test]
fn a_ray_that_hits_nothing_sees_the_background() {
    let world = Hittable::HitList(HitList(vec![ball(v(0.0, 0.0, 0.0), 1.0, diffuse(50, 50, 50))]));
    let mut sampler = Sampler::seeded(1);
    let ambient = v(0.2, 0.3, 0.5);
    for bounces in [0, 1, 50] {
        assert_eq!(compute_color(&away(), &world, ambient, bounces, &mut sampler), ambient);
    }
    assert_eq!(color(&away(), &world, 0, &mut sampler), v(0.0, 0.0, 0.0));
}

#[test]
fn a_light_is_seen_as_it_emits() {
    let world = ball(v(0.0, 0.0, 0.0), 1.0, lamp(4));
    let mut sampler = Sampler::seeded(1);
    for bounces in [0, 1, 50] {
        assert_eq!(compute_color(&toward_origin(), &world, v(0.2, 0.3, 0.5), bounces, &mut sampler), v(4.0, 4.0, 4.0));
    }
    assert_eq!(color(&toward_origin(), &world, 0, &mut sampler), v(4.0, 4.0, 4.0));
}

#[test]
fn a_path_with_no_bounce_left_sees_only_emission() {
    let world = ball(v(0.0, 0.0, 0.0), 1.0, diffuse(50, 50, 50));
    let mut sampler = Sampler::seeded(1);
    assert_eq!(compute_color(&toward_origin(), &world, v(1.0, 1.0, 1.0), 0, &mut sampler), v(0.0, 0.0, 0.0));
    assert_eq!(color(&toward_origin(), &world, MAX_DEPTH, &mut sampler), v(0.0, 0.0, 0.0));
    assert_eq!(color(&toward_origin(), &world, MAX_DEPTH + 7, &mut sampler), v(0.0, 0.0, 0.0));
}

#[test]
fn one_bounce_off_a_convex_diffuse_surface_is_albedo_times_background() {
    // a scattered ray leaves a sphere and cannot hit it again
    let world = ball(v(0.0, 0.0, 0.0), 1.0, diffuse(50, 25, 100));
    let mut sampler = Sampler::seeded(1);
    for _ in 0..100 {
        let c = compute_color(&toward_origin(), &world, v(1.0, 1.0, 1.0), 1, &mut sampler);
        assert_eq!(c, Vec3::new(Scalar::ratio(50, 100), Scalar::ratio(25, 100), Scalar::ratio(100, 100)));
    }
}

#[test]
fn a_diffuse_surface_creates_no_energy() {
    // under a sky of radiance one, no sample off a surface of albedo at
    // most one returns more than one, and neither does their mean
    for albedo in [0, 30, 73, 100] {
        let world = Hittable::HitList(HitList(vec![
            ball(v(0.0, 0.0, 0.0), 1.0, diffuse(albedo, albedo, albedo)),
            ball(v(0.0, -1001.0, 0.0), 1000.0, diffuse(albedo, albedo, albedo)),
        ]));
        let mut sampler = Sampler::seeded(albedo as u64);
        let mut sum: i64 = 0;
        let samples = 400;
        for _ in 0..samples {
            let c = compute_color(&toward_origin(), &world, v(1.0, 1.0, 1.0), 50, &mut sampler);
            for channel in [c.x, c.y, c.z] {
                assert!(0 <= channel.raw && channel.raw <= 65536);
            }
            sum += c.x.raw;
        }
        let mean = sum as f64 / samples as f64 / 65536.0;
        assert!(mean <= albedo as f64 / 100.0 + 1e-6);
    }
}

fn end_to_end(width: usize, height: usize, background: Vec3) -> Scene<Hittable> {
    Scene {
        camera: Camera::new(
            v(0.0, 0.0, -5.0),
            v(0.0, 0.0, 0.0),
            v(0.0, 1.0, 0.0),
            sc(40.0),
            sc(1.0),
            sc(0.0),
            sc(5.0),
            sc(0.0),
            sc(1.0),
        ),
        width,
        height,
        world: Hittable::HitList(HitList(vec![
            ball(v(0.0, 0.0, 0.0), 1.0, diffuse(50, 50, 50)),
            ball(v(0.0, 3.0, 0.0), 1.0, lamp(1)),
        ])),
        samples_per_px: 1,
        rays_per_sample: 50,
        ambiant_color: background,
    }
}

#[test]
fn end_to_end_scene() {
    let background = v(0.2, 0.3, 0.5);
    let scene = end_to_end(16, 16, background);
    let mut sampler = Sampler::seeded(2024);
    let pixels = scene.render(&mut sampler);
    assert_eq!(pixels.len(), 256);
    let at = |x: usize, y: usize| pixels[(15 - y) * 16 + x];
    let sky = Color::of_samples(background, 1);
    // the corners of the image miss both spheres
    for (x, y) in [(0, 0), (15, 0), (0, 15), (15, 15), (0, 8), (15, 8)] {
        assert_eq!(at(x, y), sky);
    }
    // the upper half of the diffuse sphere faces the light
    for (x, y) in [(8, 9), (7, 9), (8, 10), (7, 10), (6, 9), (9, 9)] {
        let c = at(x, y);
        assert!(c != Color { r: 0, g: 0, b: 0 });
        assert!(c.r > 0 && c.g > 0 && c.b > 0);
    }
    // the light stands above what the camera sees: the top row is background
    assert_eq!(at(8, 15), sky);
}

#[test]
fn before_a_black_background_the_lit_side_is_lit() {
    let scene = end_to_end(16, 16, v(0.0, 0.0, 0.0));
    let mut sampler = Sampler::seeded(5);
    assert_eq!(scene.pixel_color((0, 0), &mut sampler), Color { r: 0, g: 0, b: 0 });
    // the topmost row of the sphere faces the light: of many samples some
    // reach it, and nothing else in the scene gives light
    let many = Scene { samples_per_px: 400, ..end_to_end(16, 16, v(0.0, 0.0, 0.0)) };
    let top = many.pixel_color((8, 11), &mut sampler);
    assert!(top.r > 0 && top.g > 0 && top.b > 0);
    assert_eq!((top.r, top.g), (top.g, top.b));
    assert!(top.r < 255);
}

#[test]
fn equal_seeds_render_equal_images() {
    let scene = end_to_end(8, 6, v(0.2, 0.3, 0.5));
    let a = scene.render(&mut Sampler::seeded(99));
    let b = scene.render(&mut Sampler::seeded(99));
    assert_eq!(a, b);
    assert_eq!(a.len(), 48);
    assert_eq!(encode(&a).len(), 144);
    for (x, y) in [(0usize, 0usize), (3, 2), (7, 5)] {
        let one = scene.pixel_color((x, y), &mut Sampler::seeded(7));
        let two = scene.pixel_color((x, y), &mut Sampler::seeded(7));
        assert_eq!(one, two);
    }
}

#[test]
fn an_image_without_pixels_is_empty() {
    assert!(end_to_end(0, 5, v(0.0, 0.0, 0.0)).render(&mut Sampler::seeded(1)).is_empty());
    assert!(end_to_end(5, 0, v(0.0, 0.0, 0.0)).render(&mut Sampler::seeded(1)).is_empty());
    assert!(end_to_end(usize::MAX, 2, v(0.0, 0.0, 0.0)).render(&mut Sampler::seeded(1)).is_empty());
}

#[test]
fn a_sample_is_a_radiance_of_the_pixel() {
    let scene = end_to_end(16, 16, v(0.2, 0.3, 0.5));
    let mut sampler = Sampler::seeded(3);
    for _ in 0..20 {
        assert_eq!(scene.sample(0, 0, &mut sampler), v(0.2, 0.3, 0.5));
    }
}

#[test]
fn a_pixel_moves_the_sampler_on_by_the_words_it_uses() {
    let scene = end_to_end(8, 8, v(0.2, 0.3, 0.5));
    let mut a = Sampler::seeded(81);
    let mut b = Sampler::seeded(81);
    for (x, y) in [(0usize, 0usize), (4, 4), (3, 5), (7, 7)] {
        assert_eq!(scene.pixel_color((x, y), &mut a), scene.pixel_color((x, y), &mut b));
        assert_eq!(scene.sample(x, y, &mut a), scene.sample(x, y, &mut b));
    }
    let along = Ray { origin: v(0.0, 0.0, -5.0), direction: v(0.0, 0.0, 1.0), time: sc(0.0) };
    assert_eq!(
        compute_color(&along, &scene.world, v(1.0, 1.0, 1.0), 50, &mut a),
        compute_color(&along, &scene.world, v(1.0, 1.0, 1.0), 50, &mut b)
    );
    assert_eq!(a.word(), b.word());
}
