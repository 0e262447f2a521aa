use trt_core::hit::bvh::BVHNode;
use trt_core::hit::Hittable;
use trt_core::material::Material;
use trt_core::random::{unit_of_word, Sampler};
use trt_core::ray::Ray;
use trt_core::scalar::Scalar;
use trt_core::scenes::{
    block, cell_edge, cloud_ball, cornell_box, cornell_smoke, diffuse, final_scene, fixed_part, floor_box,
    point, random_scene, rgb, simple_light, small_sphere, smoke, two_perlin_spheres, two_spheres, wall_xy,
    wall_xz, wall_yz, SmallSphereDraws,
};
use trt_core::texture::{ImageTexture, Texture};
use trt_core::vec3::Vec3;

fn sc(x: f64) -> Scalar {
    Scalar { raw: (x * 65536.0).round() as i64 }
}

fn fl(x: Scalar) -> f64 {
    x.raw as f64 / 65536.0
}

fn v(x: f64, y: f64, z: f64) -> Vec3 {
    Vec3::new(sc(x), sc(y), sc(z))
}

fn far() -> Scalar {
    Scalar::max_value()
}

fn image() -> ImageTexture {
    ImageTexture::new(vec![10, 20, 30, 40, 50, 60], 2, 1).unwrap()
}

fn count_leaves(node: &BVHNode) -> usize {
    match node {
        BVHNode::Leaf { .. } => 1,
        BVHNode::Branch { left, right, .. } => count_leaves(left) + count_leaves(right),
    }
}

#[test]
fn points_and_colours() {
    assert_eq!(point(1, -2, 3), v(1.0, -2.0, 3.0));
    assert_eq!(rgb(50, 25, 100), Vec3::new(Scalar::ratio(1, 2), Scalar::ratio(1, 4), Scalar::one()));
    assert_eq!(cell_edge(0), sc(-1000.0));
    assert_eq!(cell_edge(19), sc(900.0));
}

#[test]
fn two_spheres_touch_at_the_origin() {
    let world = two_spheres();
    assert_eq!(world.0.len(), 2);
    match (&world.0[0], &world.0[1]) {
        (Hittable::Sphere(a), Hittable::Sphere(b)) => {
            assert_eq!((a.center, a.radius), (v(0.0, -10.0, 0.0), sc(10.0)));
            assert_eq!((b.center, b.radius), (v(0.0, 10.0, 0.0), sc(10.0)));
            assert!(matches!(&a.material, Material::Lambertian(l) if matches!(l.albedo, Texture::Checker(_))));
        }
        _ => panic!("two spheres"),
    }
}

#[test]
fn walls_face_as_asked() {
    let mut sampler = Sampler::seeded(0);
    let along_x = Ray { origin: v(1.0, 1.0, 1.0), direction: v(1.0, 0.0, 0.0), time: sc(0.0) };
    let plain = wall_yz(0, 5, 0, 5, 3, diffuse(1, 1, 1), false);
    assert_eq!(plain.hit(&along_x, sc(0.001), far(), &mut sampler).unwrap().normal, v(1.0, 0.0, 0.0));
    let flipped = wall_yz(0, 5, 0, 5, 3, diffuse(1, 1, 1), true);
    assert_eq!(flipped.hit(&along_x, sc(0.001), far(), &mut sampler).unwrap().normal, v(-1.0, 0.0, 0.0));
    let along_y = Ray { origin: v(1.0, 1.0, 1.0), direction: v(0.0, 1.0, 0.0), time: sc(0.0) };
    assert_eq!(wall_xz(0, 5, 0, 5, 3, diffuse(1, 1, 1), true).hit(&along_y, sc(0.001), far(), &mut sampler).unwrap().t, sc(2.0));
    let along_z = Ray { origin: v(1.0, 1.0, 1.0), direction: v(0.0, 0.0, 1.0), time: sc(0.0) };
    assert_eq!(wall_xy(0, 5, 0, 5, 3, diffuse(1, 1, 1), false).hit(&along_z, sc(0.001), far(), &mut sampler).unwrap().t, sc(2.0));
}

#[test]
fn cornell_box_holds_six_walls_and_two_blocks() {
    let world = cornell_box();
    assert_eq!(world.0.len(), 8);
    assert!(matches!(&world.0[0], Hittable::FlipNormals(_)));
    assert!(matches!(&world.0[1], Hittable::YZRect(r) if r.k == sc(0.0)));
    assert!(matches!(&world.0[2], Hittable::XZRect(r) if r.k == sc(554.0) && matches!(r.material, Material::DiffuseLight(_))));
    assert!(matches!(&world.0[3], Hittable::FlipNormals(_)));
    assert!(matches!(&world.0[4], Hittable::XZRect(_)));
    assert!(matches!(&world.0[5], Hittable::FlipNormals(_)));
    for (i, offset) in [(6, v(130.0, 0.0, 65.0)), (7, v(265.0, 0.0, 295.0))] {
        match &world.0[i] {
            Hittable::Translate(t) => {
                assert_eq!(t.offset, offset);
                assert!(matches!(&t.hittable, Hittable::RotateY(r) if matches!(r.hittable, Hittable::HitBox(_))));
            }
            _ => panic!("a block"),
        }
    }
}

#[test]
fn cornell_box_is_seen_from_its_opening() {
    let world = Hittable::HitList(cornell_box());
    let mut sampler = Sampler::seeded(0);
    // toward the back wall, above the blocks
    let ray = Ray { origin: v(278.0, 450.0, -800.0), direction: v(0.0, 0.0, 1.0), time: sc(0.0) };
    let rec = world.hit(&ray, sc(0.001), far(), &mut sampler).unwrap();
    assert_eq!(rec.t, sc(1355.0));
    assert_eq!(rec.normal, v(0.0, 0.0, -1.0));
    // toward the tall block
    let low = Ray { origin: v(350.0, 100.0, -800.0), direction: v(0.0, 0.0, 1.0), time: sc(0.0) };
    let rec = world.hit(&low, sc(0.001), far(), &mut sampler).unwrap();
    assert!(1000.0 < fl(rec.t) && fl(rec.t) < 1300.0);
}

#[test]
fn a_block_is_turned_and_moved() {
    let b = block(point(165, 330, 165), 15, point(265, 0, 295));
    let bounds = b.bounding_box(sc(0.0), sc(1.0)).unwrap();
    assert!((fl(bounds.min.y)).abs() < 1e-2 && (fl(bounds.max.y) - 330.0).abs() < 1e-2);
    // the turned square of side 165 spans 165 (cos 15 + sin 15) = 202.1
    assert!((fl(bounds.max.x) - fl(bounds.min.x) - 202.08).abs() < 0.1);
    assert!((fl(bounds.max.z) - fl(bounds.min.z) - 202.08).abs() < 0.1);
}

#[test]
fn cornell_smoke_fills_the_blocks_with_media() {
    let world = cornell_smoke();
    assert_eq!(world.0.len(), 8);
    for i in [6, 7] {
        match &world.0[i] {
            Hittable::ConstantMedium(m) => {
                assert_eq!(m.density, Scalar::ratio(100, 10000));
                assert!(matches!(m.boundary, Hittable::Translate(_)));
                assert!(matches!(m.phase_function, Material::Isotropic(_)));
            }
            _ => panic!("a medium"),
        }
    }
    assert!(matches!(smoke(wall_xy(0, 1, 0, 1, 0, diffuse(1, 1, 1), false), 2000, diffuse(1, 1, 1)),
        Hittable::ConstantMedium(m) if m.density == Scalar::ratio(2000, 10000)));
}

#[test]
fn simple_light_holds_two_marble_balls_and_two_lights() {
    let world = simple_light(&mut Sampler::seeded(1));
    assert_eq!(world.0.len(), 4);
    assert!(matches!(&world.0[0], Hittable::Sphere(s) if s.radius == sc(1000.0)
        && matches!(&s.material, Material::Lambertian(l) if matches!(&l.albedo, Texture::Noise(n) if n.scale == sc(4.0)))));
    assert!(matches!(&world.0[1], Hittable::Sphere(s) if s.center == v(0.0, 2.0, 0.0) && s.radius == sc(2.0)));
    assert!(matches!(&world.0[2], Hittable::Sphere(s) if s.center == v(0.0, 7.0, 0.0)
        && matches!(s.material, Material::DiffuseLight(_))));
    assert!(matches!(&world.0[3], Hittable::XYRect(r) if r.k == sc(-2.0) && r.x0 == sc(3.0) && r.y1 == sc(3.0)));
}

#[test]
fn two_perlin_spheres_show_marble_and_the_image() {
    let world = two_perlin_spheres(&mut Sampler::seeded(1), image());
    assert_eq!(world.0.len(), 2);
    assert!(matches!(&world.0[0], Hittable::Sphere(s)
        if matches!(&s.material, Material::Lambertian(l) if matches!(&l.albedo, Texture::Noise(n) if n.scale == sc(5.0)))));
    match &world.0[1] {
        Hittable::Sphere(s) => match &s.material {
            Material::Lambertian(l) => {
                let c = l.albedo.value(sc(0.9), sc(0.5), v(0.0, 0.0, 0.0));
                assert_eq!(c.x, Scalar::from_int(40).over(Scalar::from_int(255)));
            }
            _ => panic!("a diffuse ball"),
        },
        _ => panic!("a ball"),
    }
}

fn draws(choose_mat: f64, jitter: f64) -> SmallSphereDraws {
    SmallSphereDraws {
        choose_mat: sc(choose_mat),
        jitter_x: sc(jitter),
        jitter_z: sc(jitter),
        first: v(0.5, 0.5, 0.5),
        second: v(0.5, 0.25, 1.0),
        fuzz: sc(0.5),
        lift: sc(0.5),
    }
}

#[test]
fn small_spheres_take_their_material_from_the_draw() {
    let center = Vec3::new(
        Scalar::from_int(-3).plus(Scalar::ratio(9, 10).times(sc(0.5))),
        Scalar::ratio(2, 10),
        Scalar::from_int(2).plus(Scalar::ratio(9, 10).times(sc(0.5))),
    );
    match small_sphere(-3, 2, draws(0.5, 0.5)).unwrap() {
        Hittable::MovingSphere(m) => {
            assert_eq!(m.center0, center);
            assert_eq!(m.center1, center.plus(v(0.0, 0.25, 0.0)));
            assert_eq!(m.radius, Scalar::ratio(2, 10));
            assert_eq!((m.time0, m.time1), (sc(0.0), sc(1.0)));
            assert!(matches!(&m.material, Material::Lambertian(l)
                if l.albedo.value(sc(0.0), sc(0.0), center) == v(0.25, 0.125, 0.5)));
        }
        _ => panic!("a diffuse sphere moves"),
    }
    match small_sphere(-3, 2, draws(0.9, 0.5)).unwrap() {
        Hittable::Sphere(s) => {
            assert_eq!(s.center, center);
            assert!(matches!(s.material, Material::Metal(_)));
        }
        _ => panic!("a metal sphere rests"),
    }
    assert!(matches!(small_sphere(-3, 2, draws(0.97, 0.5)).unwrap(),
        Hittable::Sphere(s) if matches!(s.material, Material::Dielectric(_))));
    // the thresholds themselves belong to the next material
    assert!(matches!(small_sphere(0, 0, SmallSphereDraws { choose_mat: Scalar::ratio(80, 100), ..draws(0.0, 0.0) }).unwrap(),
        Hittable::Sphere(s) if matches!(s.material, Material::Metal(_))));
}

#[test]
fn no_small_sphere_stands_in_the_large_metal_one() {
    assert!(small_sphere(4, 0, draws(0.5, 0.0)).is_none());
    assert!(small_sphere(3, 0, draws(0.5, 0.9)).is_none());
    assert!(small_sphere(3, 0, draws(0.5, 0.0)).is_some());
    assert!(small_sphere(4, 1, draws(0.5, 0.0)).is_some());
}

#[test]
fn random_scene_keeps_its_frame() {
    for seed in 0..5 {
        let world = random_scene(&mut Sampler::seeded(seed));
        let n = world.0.len();
        assert!((4..=204).contains(&n));
        assert!(n > 150);
        assert!(matches!(&world.0[0], Hittable::Sphere(s) if s.radius == sc(1000.0) && s.center == v(0.0, -1000.0, 0.0)));
        assert!(matches!(&world.0[n - 3], Hittable::Sphere(s) if s.center == v(0.0, 1.0, 0.0) && matches!(s.material, Material::Dielectric(_))));
        assert!(matches!(&world.0[n - 2], Hittable::Sphere(s) if s.center == v(-4.0, 1.0, 0.0) && matches!(s.material, Material::Lambertian(_))));
        assert!(matches!(&world.0[n - 1], Hittable::Sphere(s) if s.center == v(4.0, 1.0, 0.0) && matches!(s.material, Material::Metal(_))));
        let large = Vec3::new(Scalar::from_int(4), Scalar::ratio(2, 10), Scalar::zero());
        for h in &world.0[1..n - 3] {
            let (center, radius) = match h {
                Hittable::Sphere(s) => (s.center, s.radius),
                Hittable::MovingSphere(m) => (m.center0, m.radius),
                _ => panic!("a small sphere"),
            };
            assert_eq!(radius, Scalar::ratio(2, 10));
            assert_eq!(center.y, Scalar::ratio(2, 10));
            assert!(-10.0 <= fl(center.x) && fl(center.x) < 10.0);
            assert!(-5.0 <= fl(center.z) && fl(center.z) < 5.0);
            assert!(center.minus(large).len().raw > Scalar::ratio(9, 10).raw);
        }
    }
}

#[test]
fn floor_boxes_and_cloud_balls() {
    match floor_box(3, 7, sc(0.5)) {
        Hittable::HitBox(b) => {
            assert_eq!(b.pmin, v(-700.0, 0.0, -300.0));
            assert_eq!(b.pmax.x, sc(-600.0));
            assert_eq!(b.pmax.z, sc(-200.0));
            assert!((fl(b.pmax.y) - 51.0).abs() < 2e-2);
        }
        _ => panic!("a box"),
    }
    assert!(matches!(cloud_ball(v(0.5, 0.0, 1.0)),
        Hittable::Sphere(s) if s.center == v(82.5, 0.0, 165.0) && s.radius == sc(10.0)));
}

#[test]
fn the_fixed_part_of_the_last_scene() {
    let fixed = fixed_part();
    assert_eq!(fixed.len(), 7);
    assert!(matches!(&fixed[0], Hittable::XZRect(r) if r.x0 == sc(123.0) && r.z1 == sc(412.0) && r.k == sc(554.0)));
    assert!(matches!(&fixed[1], Hittable::MovingSphere(m) if m.center1 == v(430.0, 400.0, 200.0) && m.radius == sc(50.0)));
    assert!(matches!(&fixed[2], Hittable::Sphere(s) if s.center == v(260.0, 150.0, 45.0)));
    assert!(matches!(&fixed[3], Hittable::Sphere(s) if matches!(s.material, Material::Metal(_))));
    assert!(matches!(&fixed[4], Hittable::Sphere(s) if s.radius == sc(70.0)));
    assert!(matches!(&fixed[5], Hittable::ConstantMedium(m) if m.density == Scalar::ratio(2000, 10000)));
    assert!(matches!(&fixed[6], Hittable::ConstantMedium(m) if m.density == Scalar::ratio(1, 10000)
        && matches!(&m.boundary, Hittable::Sphere(s) if s.radius == sc(5000.0))));
}

#[test]
fn the_last_scene_holds_eleven_objects() {
    let world = final_scene(&mut Sampler::seeded(4), image());
    assert_eq!(world.0.len(), 11);
    match &world.0[0] {
        Hittable::BVHNode(node) => assert_eq!(count_leaves(node), 400),
        _ => panic!("the floor is a tree"),
    }
    assert!(matches!(&world.0[1], Hittable::XZRect(_)));
    assert!(matches!(&world.0[7], Hittable::ConstantMedium(_)));
    assert!(matches!(&world.0[8], Hittable::Sphere(s) if s.center == v(400.0, 200.0, 400.0)
        && matches!(&s.material, Material::Lambertian(l) if matches!(l.albedo, Texture::Image(_)))));
    assert!(matches!(&world.0[9], Hittable::Sphere(s) if s.radius == sc(80.0)));
    match &world.0[10] {
        Hittable::Translate(t) => {
            assert_eq!(t.offset, v(-100.0, 270.0, 395.0));
            match &t.hittable {
                Hittable::RotateY(r) => match &r.hittable {
                    Hittable::BVHNode(node) => assert_eq!(count_leaves(node), 1000),
                    _ => panic!("the cloud is a tree"),
                },
                _ => panic!("the cloud is turned"),
            }
        }
        _ => panic!("the cloud is moved"),
    }
    let whole = Hittable::HitList(world);
    let mut sampler = Sampler::seeded(0);
    let down = Ray { origin: v(0.0, 500.0, 0.0), direction: v(0.0, -1.0, 0.0), time: sc(0.0) };
    let bounds = whole.bounding_box(sc(0.0), sc(1.0)).unwrap();
    assert_eq!(bounds.min, v(-5000.0, -5000.0, -5000.0));
    let hits = (0..50).filter(|_| whole.hit(&down, sc(0.001), far(), &mut sampler).is_some()).count();
    assert_eq!(hits, 50);
}

#[test]
fn the_draws_of_a_small_sphere_take_eleven_words_in_order() {
    let mut words = Sampler::seeded(31);
    let mut draws = Sampler::seeded(31);
    for _ in 0..20 {
        let d = SmallSphereDraws::draw(&mut draws);
        let mut next = || unit_of_word(words.word());
        let want = SmallSphereDraws {
            choose_mat: next(),
            jitter_x: next(),
            jitter_z: next(),
            first: Vec3::new(next(), next(), next()),
            second: Vec3::new(next(), next(), next()),
            fuzz: next(),
            lift: next(),
        };
        assert_eq!(d, want);
    }
    assert_eq!(draws.word(), words.word());
}

#[test]
fn every_cell_gives_its_small_sphere_exactly_where_it_has_one() {
    let mut words = Sampler::seeded(71);
    let world = random_scene(&mut Sampler::seeded(71));
    let mut at = 1;
    let mut missing = 0;
    for k in 0..200i32 {
        let d = SmallSphereDraws::draw(&mut words);
        match small_sphere(k / 10 - 10, k % 10 - 5, d) {
            Some(Hittable::Sphere(want)) => {
                assert!(matches!(&world.0[at], Hittable::Sphere(s) if s.center == want.center));
                at += 1;
            }
            Some(Hittable::MovingSphere(want)) => {
                assert!(matches!(&world.0[at], Hittable::MovingSphere(s)
                    if s.center0 == want.center0 && s.center1 == want.center1));
                at += 1;
            }
            Some(_) => panic!("a small sphere"),
            None => missing += 1,
        }
    }
    assert_eq!(at + 3, world.0.len());
    assert!(missing > 0 && missing < 20);
}

#[test]
fn equal_seeds_build_equal_scenes() {
    let a = final_scene(&mut Sampler::seeded(5), image());
    let b = final_scene(&mut Sampler::seeded(5), image());
    let mut sampler = Sampler::seeded(0);
    let mut hits = 0;
    for i in 0..60 {
        let ray = Ray {
            origin: v(278.0, 278.0, -800.0),
            direction: v((i % 8) as f64 * 40.0 - 140.0, (i / 8) as f64 * -30.0, 400.0),
            time: sc(0.5),
        };
        for (x, y) in a.0[..5].iter().zip(b.0[..5].iter()) {
            let p = x.hit(&ray, sc(0.001), far(), &mut sampler).map(|r| (r.t, r.p, r.normal));
            let q = y.hit(&ray, sc(0.001), far(), &mut sampler).map(|r| (r.t, r.p, r.normal));
            assert_eq!(p, q);
            hits += p.is_some() as u32;
        }
    }
    assert!(hits > 0);
}
