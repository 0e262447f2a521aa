use trt_core::random::{index_of_word, unit_of_word, Sampler};
use trt_core::scalar::Scalar;
use trt_core::utils::{centered, centered_in_plane, random_in_unit_disk, random_in_unit_sphere};
use trt_core::vec3::Vec3;

#[test]
fn equal_seeds_give_equal_draws() {
    let mut a = Sampler::seeded(42);
    let mut b = Sampler::seeded(42);
    for _ in 0..100 {
        assert_eq!(a.word(), b.word());
    }
    for _ in 0..100 {
        assert_eq!(a.uniform(), b.uniform());
    }
}

#[test]
fn different_seeds_give_different_streams() {
    let mut a = Sampler::seeded(1);
    let mut b = Sampler::seeded(2);
    let same = (0..64).filter(|_| a.word() == b.word()).count();
    assert!(same < 64);
}

#[test]
fn draws_are_not_constant() {
    let mut a = Sampler::seeded(7);
    let first = a.word();
    assert!((0..64).any(|_| a.word() != first));
}

#[test]
fn uniform_draws_lie_in_the_unit_interval() {
    let mut a = Sampler::seeded(3);
    let mut sum: i64 = 0;
    for _ in 0..10000 {
        let u = a.uniform();
        assert!(0 <= u.raw && u.raw < 65536);
        sum += u.raw;
    }
    let mean = sum as f64 / 10000.0 / 65536.0;
    assert!((mean - 0.5).abs() < 0.02);
}

#[test]
fn index_draws_stay_below_the_bound() {
    let mut a = Sampler::seeded(5);
    let mut seen = [false; 3];
    for _ in 0..200 {
        let i = a.below(3);
        assert!(i < 3);
        seen[i as usize] = true;
    }
    assert!(seen.iter().all(|s| *s));
    assert_eq!(a.below(0), 0);
    assert_eq!(a.below(1), 0);
}

#[test]
fn points_in_the_unit_sphere() {
    let mut a = Sampler::seeded(11);
    for _ in 0..1000 {
        let p = random_in_unit_sphere(&mut a);
        assert!(p.dot(p).raw < 65536);
    }
}

#[test]
fn points_in_the_unit_disk() {
    let mut a = Sampler::seeded(13);
    for _ in 0..1000 {
        let p = random_in_unit_disk(&mut a);
        assert!(p.dot(p).raw < 65536);
        assert_eq!(p.z.raw, 0);
    }
}

#[test]
fn centering_doubles_and_takes_one_off() {
    let half = Scalar::ratio(1, 2);
    let quarter = Scalar::ratio(1, 4);
    let p = centered(Vec3::new(Scalar::zero(), half, quarter));
    assert_eq!(p, Vec3::new(Scalar::from_int(-1), Scalar::zero(), half.negate()));
    let q = centered_in_plane(quarter, Scalar::zero());
    assert_eq!(q, Vec3::new(half.negate(), Scalar::from_int(-1), Scalar::zero()));
}

#[test]
fn words_stand_for_values_and_indices() {
    assert_eq!(unit_of_word(0).raw, 0);
    assert_eq!(unit_of_word(65535).raw, 0);
    assert_eq!(unit_of_word(65536).raw, 1);
    assert_eq!(unit_of_word(0x8000_0000).raw, 32768);
    assert_eq!(unit_of_word(u32::MAX).raw, 65535);
    assert_eq!(index_of_word(10, 3), 1);
    assert_eq!(index_of_word(u32::MAX, 256), 255);
    assert_eq!(index_of_word(10, 1), 0);
    assert_eq!(index_of_word(10, 0), 0);
}

#[test]
fn a_uniform_draw_is_what_the_next_word_stands_for() {
    let mut words = Sampler::seeded(21);
    let mut draws = Sampler::seeded(21);
    for _ in 0..200 {
        assert_eq!(draws.uniform(), unit_of_word(words.word()));
    }
    for n in [0u32, 1, 3, 7, 256, 1000] {
        assert_eq!(draws.below(n), index_of_word(words.word(), n));
    }
    // both have moved on by the same number of words
    assert_eq!(draws.word(), words.word());
}

#[test]
fn a_random_vector_takes_three_words_in_order() {
    let mut words = Sampler::seeded(22);
    let mut draws = Sampler::seeded(22);
    for _ in 0..50 {
        let v = Vec3::random(&mut draws);
        assert_eq!(v.x, unit_of_word(words.word()));
        assert_eq!(v.y, unit_of_word(words.word()));
        assert_eq!(v.z, unit_of_word(words.word()));
    }
    assert_eq!(draws.word(), words.word());
}

#[test]
fn the_search_in_the_sphere_takes_the_first_point_inside_however_late() {
    let mut words = Sampler::seeded(23);
    let mut draws = Sampler::seeded(23);
    let mut rejections = 0;
    for _ in 0..300 {
        let found = random_in_unit_sphere(&mut draws);
        let want = loop {
            let p = centered(Vec3::random(&mut words));
            if p.dot(p).raw < 65536 {
                break p;
            }
            rejections += 1;
        };
        assert_eq!(found, want);
    }
    assert!(rejections > 0);
    assert_eq!(draws.word(), words.word());
}

#[test]
fn the_search_in_the_disk_takes_the_first_point_inside() {
    let mut words = Sampler::seeded(24);
    let mut draws = Sampler::seeded(24);
    let mut rejections = 0;
    for _ in 0..300 {
        let found = random_in_unit_disk(&mut draws);
        let want = loop {
            let x = unit_of_word(words.word());
            let y = unit_of_word(words.word());
            let p = centered_in_plane(x, y);
            if p.dot(p).raw < 65536 {
                break p;
            }
            rejections += 1;
        };
        assert_eq!(found, want);
    }
    assert!(rejections > 0);
    assert_eq!(draws.word(), words.word());
}
