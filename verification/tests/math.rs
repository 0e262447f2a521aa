use trt_core::math::{asin, atan2, cos, ln, pi, radians, sin, tan};
use trt_core::scalar::{Scalar, RAW_MIN};

fn sc(x: f64) -> Scalar {
    Scalar { raw: (x * 65536.0).round() as i64 }
}

fn fl(x: Scalar) -> f64 {
    x.raw as f64 / 65536.0
}

#[test]
fn pi_is_the_nearest_raw_value() {
    assert_eq!(pi().raw, 205887);
}

#[test]
fn degrees_become_radians() {
    assert!((fl(radians(sc(180.0))) - std::f64::consts::PI).abs() < 1e-4);
    assert!((fl(radians(sc(-18.0))) + 0.314159).abs() < 1e-4);
    assert_eq!(radians(Scalar::zero()), Scalar::zero());
}

#[test]
fn sine_at_special_angles() {
    assert_eq!(sin(Scalar::zero()), Scalar::zero());
    assert!((fl(sin(sc(std::f64::consts::FRAC_PI_2))) - 1.0).abs() < 1e-4);
    assert!((fl(sin(sc(std::f64::consts::FRAC_PI_6))) - 0.5).abs() < 1e-4);
    assert!((fl(sin(sc(-std::f64::consts::FRAC_PI_2))) + 1.0).abs() < 1e-4);
}

#[test]
fn sine_follows_the_real_sine() {
    let mut i = -2000;
    while i <= 2000 {
        let x = i as f64 / 100.0;
        assert!((fl(sin(sc(x))) - x.sin()).abs() < 2e-4, "sin({})", x);
        assert!((fl(cos(sc(x))) - x.cos()).abs() < 2e-4, "cos({})", x);
        i += 7;
    }
}

#[test]
fn sine_stays_in_range() {
    let mut raw: i64 = -5_000_000;
    while raw < 5_000_000 {
        let s = sin(Scalar { raw }).raw;
        assert!((-65536..=65536).contains(&s));
        raw += 9973;
    }
}

#[test]
fn tangent_of_a_small_angle() {
    assert!((fl(tan(sc(0.3490658))) - 0.3639702).abs() < 3e-4);
    assert_eq!(tan(Scalar::zero()), Scalar::zero());
}

#[test]
fn inverse_tangent_covers_all_quadrants() {
    assert_eq!(atan2(Scalar::zero(), Scalar::zero()), Scalar::zero());
    assert_eq!(atan2(Scalar::zero(), Scalar::one()), Scalar::zero());
    let cases = [(1.0, 1.0), (1.0, -1.0), (-1.0, -1.0), (-1.0, 1.0), (0.3, 2.0), (2.0, 0.3), (-5.0, 0.01)];
    for (y, x) in cases {
        let got = fl(atan2(sc(y), sc(x)));
        assert!((got - f64::atan2(y, x)).abs() < 2e-4, "atan2({}, {}) = {}", y, x, got);
    }
}

#[test]
fn inverse_sine_follows_the_real_one() {
    let mut i = -100;
    while i <= 100 {
        let y = i as f64 / 100.0;
        assert!((fl(asin(sc(y))) - y.asin()).abs() < 5e-4, "asin({})", y);
        i += 1;
    }
    assert_eq!(asin(sc(3.0)), asin(Scalar::one()));
    assert_eq!(asin(sc(-3.0)), asin(Scalar::one().negate()));
}

#[test]
fn logarithm_follows_the_real_one() {
    assert_eq!(ln(Scalar::one()), Scalar::zero());
    for x in [0.001, 0.01, 0.3, 0.5, 0.9, 1.5, 2.0, 10.0, 12345.0] {
        let got = fl(ln(sc(x)));
        let want = (sc(x).raw as f64 / 65536.0).ln();
        assert!((got - want).abs() < 3e-4, "ln({}) = {}", x, got);
    }
}

#[test]
fn logarithm_of_what_is_not_positive() {
    assert_eq!(ln(Scalar::zero()).raw, RAW_MIN);
    assert_eq!(ln(sc(-1.0)).raw, RAW_MIN);
}
