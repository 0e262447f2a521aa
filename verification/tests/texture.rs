use trt_core::perlin::{blend, smooth, wrapped, Perlin};
use trt_core::random::Sampler;
use trt_core::scalar::Scalar;
use trt_core::texture::{checker_phase, texel_index, ConstantTexture, ImageTexture, NoiseTexture, Texture};
use trt_core::vec3::Vec3;

fn sc(x: f64) -> Scalar {
    Scalar { raw: (x * 65536.0).round() as i64 }
}

fn fl(x: Scalar) -> f64 {
    x.raw as f64 / 65536.0
}

fn v(x: f64, y: f64, z: f64) -> Vec3 {
    Vec3::new(sc(x), sc(y), sc(z))
}

fn channel(byte: i32) -> Scalar {
    Scalar::from_int(byte).over(Scalar::from_int(255))
}

#[test]
fn constant_texture_ignores_the_coordinates() {
    let t = ConstantTexture { color: v(0.1, 0.2, 0.3) };
    assert_eq!(t.value(sc(0.0), sc(0.0), v(0.0, 0.0, 0.0)), v(0.1, 0.2, 0.3));
    assert_eq!(t.value(sc(0.7), sc(0.2), v(5.0, -3.0, 9.0)), v(0.1, 0.2, 0.3));
    assert_eq!(Texture::constant(v(1.0, 0.0, 0.5)).value(sc(0.3), sc(0.3), v(1.0, 1.0, 1.0)), v(1.0, 0.0, 0.5));
}

#[test]
fn checker_selects_by_the_sign_of_the_summed_sines() {
    let t = Texture::checker(Texture::constant(v(1.0, 0.0, 0.0)), Texture::constant(v(0.0, 1.0, 0.0)));
    let odd = v(1.0, 0.0, 0.0);
    let even = v(0.0, 1.0, 0.0);
    // all three sines positive
    assert_eq!(t.value(sc(0.0), sc(0.0), v(0.1, 0.1, 0.1)), even);
    // all three sines negative
    assert_eq!(t.value(sc(0.0), sc(0.0), v(-0.1, -0.1, -0.1)), odd);
    // the sum is zero at the origin: not below zero
    assert_eq!(t.value(sc(0.0), sc(0.0), v(0.0, 0.0, 0.0)), even);
    // one sine of -1 against two of about 0.1
    assert_eq!(t.value(sc(0.0), sc(0.0), v(-0.157, 0.01, 0.01)), odd);
    let mut sampler = Sampler::seeded(4);
    for _ in 0..300 {
        let p = trt_core::utils::centered(Vec3::random(&mut sampler)).scale(sc(5.0));
        let want = if checker_phase(p).raw < 0 { odd } else { even };
        assert_eq!(t.value(sc(0.0), sc(0.0), p), want);
    }
}

#[test]
fn checker_phase_is_the_sum_of_three_sines() {
    let p = v(0.05, 0.1, -0.15);
    let want = (0.5f64).sin() + (1.0f64).sin() + (-1.5f64).sin();
    assert!((fl(checker_phase(p)) - want).abs() < 1e-3);
}

#[test]
fn checkers_nest() {
    let inner = Texture::checker(Texture::constant(v(1.0, 0.0, 0.0)), Texture::constant(v(0.0, 1.0, 0.0)));
    let outer = Texture::checker(inner, Texture::constant(v(0.0, 0.0, 1.0)));
    assert_eq!(outer.value(sc(0.0), sc(0.0), v(0.1, 0.1, 0.1)), v(0.0, 0.0, 1.0));
    assert_eq!(outer.value(sc(0.0), sc(0.0), v(-0.1, -0.1, -0.1)), v(1.0, 0.0, 0.0));
}

#[test]
fn texel_index_scales_and_limits() {
    assert_eq!(texel_index(sc(0.0), 4), 0);
    assert_eq!(texel_index(sc(0.24), 4), 0);
    assert_eq!(texel_index(sc(0.25), 4), 1);
    assert_eq!(texel_index(sc(0.99), 4), 3);
    assert_eq!(texel_index(sc(1.0), 4), 3);
    assert_eq!(texel_index(sc(7.0), 4), 3);
    assert_eq!(texel_index(sc(-0.5), 4), 0);
    assert_eq!(texel_index(sc(0.5), 1), 0);
}

fn two_by_two() -> ImageTexture {
    // top row: red, green; bottom row: blue, white
    ImageTexture::new(vec![255, 0, 0, 0, 255, 0, 0, 0, 255, 255, 255, 255], 2, 2).unwrap()
}

#[test]
fn image_is_looked_up_from_the_bottom_left() {
    let t = two_by_two();
    let p = v(0.0, 0.0, 0.0);
    assert_eq!(t.value(sc(0.25), sc(0.75), p), v(1.0, 0.0, 0.0));
    assert_eq!(t.value(sc(0.75), sc(0.75), p), v(0.0, 1.0, 0.0));
    assert_eq!(t.value(sc(0.25), sc(0.25), p), v(0.0, 0.0, 1.0));
    assert_eq!(t.value(sc(0.75), sc(0.25), p), v(1.0, 1.0, 1.0));
    // the corners select the nearest pixel
    assert_eq!(t.value(sc(0.0), sc(1.0), p), v(1.0, 0.0, 0.0));
    assert_eq!(t.value(sc(1.0), sc(0.0), p), v(1.0, 1.0, 1.0));
    assert_eq!(t.value(sc(-3.0), sc(9.0), p), v(1.0, 0.0, 0.0));
}

#[test]
fn image_channels_are_fractions_of_255() {
    let t = ImageTexture::new(vec![51, 102, 204], 1, 1).unwrap();
    let c = t.value(sc(0.5), sc(0.5), v(0.0, 0.0, 0.0));
    assert_eq!(c, Vec3::new(channel(51), channel(102), channel(204)));
    assert_eq!(c.x.raw, 13107);
}

#[test]
fn image_of_the_wrong_size_is_refused() {
    assert!(ImageTexture::new(vec![0; 12], 2, 2).is_some());
    assert!(ImageTexture::new(vec![0; 11], 2, 2).is_none());
    assert!(ImageTexture::new(vec![0; 13], 2, 2).is_none());
    assert!(ImageTexture::new(vec![], 0, 0).is_none());
    assert!(ImageTexture::new(vec![], 0, 5).is_none());
    assert!(ImageTexture::new(vec![0; 12], 4, 0).is_none());
    assert!(ImageTexture::new(vec![0; 12], usize::MAX, 2).is_none());
    assert!(ImageTexture::new(vec![0; 12], usize::MAX / 2, 2).is_none());
}

#[test]
fn lattice_classes_wrap() {
    assert_eq!(wrapped(0, 0), 0);
    assert_eq!(wrapped(255, 1), 0);
    assert_eq!(wrapped(256, 1), 1);
    assert_eq!(wrapped(-1, 0), 255);
    assert_eq!(wrapped(-1, 1), 0);
    assert_eq!(wrapped(-257, 0), 255);
    assert_eq!(wrapped(1000, 1), 233);
}

#[test]
fn smoothing_and_blending() {
    assert_eq!(smooth(sc(0.0)), sc(0.0));
    assert_eq!(smooth(sc(1.0)), sc(1.0));
    assert_eq!(smooth(sc(0.5)), sc(0.5));
    assert_eq!(smooth(sc(0.25)), sc(0.15625));
    assert_eq!(blend(1, sc(0.25)), sc(0.25));
    assert_eq!(blend(0, sc(0.25)), sc(0.75));
}

#[test]
fn noise_is_fixed_by_the_seed() {
    let a = Perlin::new(&mut Sampler::seeded(77));
    let b = Perlin::new(&mut Sampler::seeded(77));
    let c = Perlin::new(&mut Sampler::seeded(78));
    let mut differs = false;
    let mut sampler = Sampler::seeded(1);
    for _ in 0..200 {
        let p = trt_core::utils::centered(Vec3::random(&mut sampler)).scale(sc(30.0));
        assert_eq!(a.noise(p), b.noise(p));
        assert_eq!(a.turb(p), b.turb(p));
        differs = differs || a.noise(p) != c.noise(p);
    }
    assert!(differs);
}

#[test]
fn noise_vanishes_on_the_lattice_and_stays_small() {
    let perlin = Perlin::new(&mut Sampler::seeded(5));
    for (x, y, z) in [(0.0, 0.0, 0.0), (1.0, 2.0, 3.0), (-4.0, 7.0, -300.0)] {
        assert_eq!(perlin.noise(v(x, y, z)), sc(0.0));
    }
    let mut sampler = Sampler::seeded(2);
    let mut nonzero = false;
    for _ in 0..500 {
        let p = trt_core::utils::centered(Vec3::random(&mut sampler)).scale(sc(50.0));
        let n = fl(perlin.noise(p));
        assert!(n.abs() <= 1.0);
        nonzero = nonzero || n != 0.0;
        assert!(perlin.turb(p).raw >= 0);
        assert!(fl(perlin.turb(p)) <= 2.0);
    }
    assert!(nonzero);
}

#[test]
fn noise_is_the_sum_of_its_corner_terms() {
    let perlin = Perlin::new(&mut Sampler::seeded(5));
    let p = v(1.3, -2.6, 7.1);
    let mut sum = Scalar::zero();
    for n in 0..8 {
        sum = sum.plus(perlin.corner_term(p, n));
    }
    assert_eq!(perlin.noise(p), sum);
}

#[test]
fn marble_is_a_grey_between_zero_and_one() {
    let t = NoiseTexture { perlin: Perlin::new(&mut Sampler::seeded(9)), scale: sc(4.0) };
    let mut sampler = Sampler::seeded(3);
    for _ in 0..300 {
        let p = trt_core::utils::centered(Vec3::random(&mut sampler)).scale(sc(10.0));
        let c = t.value(sc(0.0), sc(0.0), p);
        assert_eq!(c.x, c.y);
        assert_eq!(c.y, c.z);
        assert!(0 <= c.x.raw && c.x.raw <= 65536);
        let phase = t.scale.times(p.z).plus(Scalar::from_int(10).times(t.perlin.turb(p)));
        let want = Scalar::ratio(1, 2).times(Scalar::one().plus(trt_core::math::sin(phase)));
        assert_eq!(c.x, want);
    }
}

#[test]
fn the_noise_tables_take_1533_words() {
    let mut words = Sampler::seeded(91);
    let mut draws = Sampler::seeded(91);
    let _ = Perlin::new(&mut draws);
    for _ in 0..1533 {
        let _ = words.word();
    }
    assert_eq!(draws.word(), words.word());
}
