use trt_core::aabb::AABB;
use trt_core::hit::bvh::{axis_of, closer, BVHError, BVHNode};
use trt_core::hit::hit_box::HitBox;
use trt_core::hit::hit_list::HitList;
use trt_core::hit::rotate::RotateY;
use trt_core::hit::translate::Translate;
use trt_core::hit::rect::{Axis, XYRect};
use trt_core::hit::sphere::Sphere;
use trt_core::hit::{HitRecord, Hittable};
use trt_core::material::Material;
use trt_core::random::Sampler;
use trt_core::ray::Ray;
use trt_core::scalar::Scalar;
use trt_core::scenes::{diffuse, lamp};
use trt_core::utils::centered;
use trt_core::vec3::Vec3;

fn sc(x: f64) -> Scalar {
    Scalar { raw: (x * 65536.0).round() as i64 }
}

fn v(x: f64, y: f64, z: f64) -> Vec3 {
    Vec3::new(sc(x), sc(y), sc(z))
}

fn far() -> Scalar {
    Scalar::max_value()
}

fn ball(x: f64, y: f64, z: f64, r: f64) -> Hittable {
    Hittable::Sphere(Sphere { center: v(x, y, z), radius: sc(r), material: diffuse(50, 50, 50) })
}

fn random_balls(n: usize, sampler: &mut Sampler) -> Vec<Hittable> {
    (0..n)
        .map(|_| {
            let c = centered(Vec3::random(sampler)).scale(sc(20.0));
            let r = Scalar { raw: 6554 + sampler.uniform().raw };
            Hittable::Sphere(Sphere { center: c, radius: r, material: diffuse(50, 50, 50) })
        })
        .collect()
}

fn count_leaves(node: &BVHNode) -> usize {
    match node {
        BVHNode::Leaf { .. } => 1,
        BVHNode::Branch { left, right, .. } => count_leaves(left) + count_leaves(right),
    }
}

fn depth(node: &BVHNode) -> usize {
    match node {
        BVHNode::Leaf { .. } => 0,
        BVHNode::Branch { left, right, .. } => 1 + depth(left).max(depth(right)),
    }
}

fn boxes_are_merges(node: &BVHNode) -> bool {
    match node {
        BVHNode::Leaf { object, bbox } => object.bounding_box(sc(0.0), sc(1.0)) == Some(*bbox),
        BVHNode::Branch { left, right, bbox } => {
            let l = left.bounding_box(sc(0.0), sc(1.0)).unwrap();
            let r = right.bounding_box(sc(0.0), sc(1.0)).unwrap();
            *bbox == AABB::surrounding_box(l, r) && boxes_are_merges(left) && boxes_are_merges(right)
        }
    }
}

#[test]
fn an_empty_list_is_refused() {
    let mut sampler = Sampler::seeded(0);
    let r = BVHNode::new(vec![], sc(0.0), sc(1.0), &mut sampler);
    assert!(matches!(r, Err(BVHError::Empty)));
}

#[test]
fn an_object_without_a_box_is_refused() {
    let mut sampler = Sampler::seeded(0);
    let objects = vec![ball(0.0, 0.0, 0.0, 1.0), Hittable::HitList(HitList(vec![])), ball(3.0, 0.0, 0.0, 1.0)];
    let r = BVHNode::new(objects, sc(0.0), sc(1.0), &mut sampler);
    assert!(matches!(r, Err(BVHError::Unbounded)));
    let only = vec![Hittable::HitList(HitList(vec![]))];
    assert!(matches!(BVHNode::new(only, sc(0.0), sc(1.0), &mut sampler), Err(BVHError::Unbounded)));
}

#[test]
fn one_object_makes_a_leaf() {
    let mut sampler = Sampler::seeded(0);
    let node = BVHNode::new(vec![ball(1.0, 2.0, 3.0, 1.0)], sc(0.0), sc(1.0), &mut sampler).unwrap();
    match &node {
        BVHNode::Leaf { object, bbox } => {
            assert!(matches!(object, Hittable::Sphere(s) if s.center == v(1.0, 2.0, 3.0)));
            assert_eq!(*bbox, AABB { min: v(0.0, 1.0, 2.0), max: v(2.0, 3.0, 4.0) });
        }
        BVHNode::Branch { .. } => panic!("a single object must not be split"),
    }
}

#[test]
fn two_objects_are_ordered_along_the_axis() {
    for seed in 0..20 {
        let mut sampler = Sampler::seeded(seed);
        let objects = vec![ball(5.0, 5.0, 5.0, 1.0), ball(-5.0, -5.0, -5.0, 1.0)];
        let node = BVHNode::new(objects, sc(0.0), sc(1.0), &mut sampler).unwrap();
        match &node {
            BVHNode::Branch { left, right, bbox } => {
                assert!(matches!(&**left, BVHNode::Leaf { object: Hittable::Sphere(s), .. } if s.center == v(-5.0, -5.0, -5.0)));
                assert!(matches!(&**right, BVHNode::Leaf { object: Hittable::Sphere(s), .. } if s.center == v(5.0, 5.0, 5.0)));
                assert_eq!(*bbox, AABB { min: v(-6.0, -6.0, -6.0), max: v(6.0, 6.0, 6.0) });
            }
            BVHNode::Leaf { .. } => panic!("two objects make a branch"),
        }
    }
}

#[test]
fn the_tree_holds_every_object_and_is_balanced() {
    for n in [1usize, 2, 3, 4, 5, 7, 8, 16, 33, 100] {
        let mut sampler = Sampler::seeded(n as u64);
        let objects = random_balls(n, &mut sampler);
        let node = BVHNode::new(objects, sc(0.0), sc(1.0), &mut sampler).unwrap();
        assert_eq!(count_leaves(&node), n);
        assert!(boxes_are_merges(&node));
        let mut levels = 0;
        while (1usize << levels) < n {
            levels += 1;
        }
        assert_eq!(depth(&node), levels);
    }
}

#[test]
fn the_left_half_holds_half_of_the_objects_rounded_down() {
    let mut sampler = Sampler::seeded(9);
    let objects = random_balls(7, &mut sampler);
    let node = BVHNode::new(objects, sc(0.0), sc(1.0), &mut sampler).unwrap();
    match &node {
        BVHNode::Branch { left, right, .. } => {
            assert_eq!(count_leaves(left), 3);
            assert_eq!(count_leaves(right), 4);
        }
        BVHNode::Leaf { .. } => panic!("seven objects make a branch"),
    }
}

fn parameter(r: &Option<HitRecord>) -> Option<Scalar> {
    r.as_ref().map(|rec| rec.t)
}

#[test]
fn the_tree_agrees_with_brute_force_on_random_spheres() {
    for n in [1usize, 2, 3, 10, 50, 200] {
        let mut sampler = Sampler::seeded(1000 + n as u64);
        let list = HitList(random_balls(n, &mut sampler));
        let mut again = Sampler::seeded(1000 + n as u64);
        let node = BVHNode::new(random_balls(n, &mut again), sc(0.0), sc(1.0), &mut again).unwrap();
        let mut hits = 0;
        for _ in 0..300 {
            let origin = centered(Vec3::random(&mut sampler)).scale(sc(40.0));
            let target = centered(Vec3::random(&mut sampler)).scale(sc(15.0));
            let ray = Ray { origin, direction: target.minus(origin).unit(), time: sc(0.0) };
            let brute = list.hit(&ray, sc(0.001), far(), &mut sampler);
            let tree = node.hit(&ray, sc(0.001), far(), &mut sampler);
            assert_eq!(parameter(&tree), parameter(&brute));
            if let (Some(a), Some(b)) = (&tree, &brute) {
                assert_eq!(a.p, b.p);
                hits += 1;
            }
        }
        if n >= 50 {
            assert!(hits > 0);
        }
    }
}

#[test]
fn no_objects_means_no_hit_and_no_tree() {
    let mut sampler = Sampler::seeded(0);
    let list = HitList(vec![]);
    let ray = Ray { origin: v(0.0, 0.0, -5.0), direction: v(0.0, 0.0, 1.0), time: sc(0.0) };
    assert!(list.hit(&ray, sc(0.001), far(), &mut sampler).is_none());
    assert!(BVHNode::new(vec![], sc(0.0), sc(1.0), &mut sampler).is_err());
}

#[test]
fn the_tree_as_an_object_of_a_scene() {
    let mut sampler = Sampler::seeded(3);
    let node = BVHNode::new(
        vec![ball(0.0, 0.0, 0.0, 1.0), ball(0.0, 0.0, 5.0, 1.0), ball(0.0, 0.0, 10.0, 1.0)],
        sc(0.0),
        sc(1.0),
        &mut sampler,
    )
    .unwrap();
    let world = Hittable::BVHNode(Box::new(node));
    let ray = Ray { origin: v(0.0, 0.0, -5.0), direction: v(0.0, 0.0, 1.0), time: sc(0.0) };
    assert_eq!(world.hit(&ray, sc(0.001), far(), &mut sampler).unwrap().t, sc(4.0));
    assert_eq!(world.hit(&ray, sc(7.0), far(), &mut sampler).unwrap().t, sc(9.0));
    assert_eq!(
        world.bounding_box(sc(0.0), sc(1.0)),
        Some(AABB { min: v(-1.0, -1.0, -1.0), max: v(1.0, 1.0, 11.0) })
    );
    let beside = Ray { origin: v(5.0, 0.0, -5.0), direction: v(0.0, 0.0, 1.0), time: sc(0.0) };
    assert!(world.hit(&beside, sc(0.001), far(), &mut sampler).is_none());
}

#[test]
fn a_box_too_thin_for_the_ray_hides_what_is_in_it() {
    // two rectangles in one plane: their merged box is as thin as the
    // padding, and a ray whose two crossings of it round to one parameter
    // is turned away although it hits a rectangle
    let rect = |x0: f64, x1: f64| {
        Hittable::XYRect(XYRect { x0: sc(x0), x1: sc(x1), y0: sc(-1.0), y1: sc(1.0), k: sc(0.0), material: lamp(1) })
    };
    let mut sampler = Sampler::seeded(0);
    let list = HitList(vec![rect(-1.0, 1.0), rect(2.0, 3.0)]);
    let node = BVHNode::new(vec![rect(-1.0, 1.0), rect(2.0, 3.0)], sc(0.0), sc(1.0), &mut sampler).unwrap();
    let ray = Ray {
        origin: Vec3::new(sc(0.0), sc(0.0), Scalar { raw: -30 }),
        direction: v(0.0, 0.0, 20.0),
        time: sc(0.0),
    };
    let brute = list.hit(&ray, sc(0.0), sc(1.0), &mut sampler);
    assert_eq!(parameter(&brute), Some(Scalar { raw: 1 }));
    assert!(node.hit(&ray, sc(0.0), sc(1.0), &mut sampler).is_none());
}

#[test]
fn closer_prefers_the_smaller_parameter() {
    let m: Material = diffuse(1, 2, 3);
    let rec = |t: f64| HitRecord { t: sc(t), p: v(0.0, 0.0, 0.0), normal: v(0.0, 0.0, 1.0), u: sc(0.0), v: sc(0.0), mat: &m };
    assert_eq!(parameter(&closer(Some(rec(1.0)), Some(rec(2.0)))), Some(sc(1.0)));
    assert_eq!(parameter(&closer(Some(rec(3.0)), Some(rec(2.0)))), Some(sc(2.0)));
    assert_eq!(parameter(&closer(None, Some(rec(2.0)))), Some(sc(2.0)));
    assert_eq!(parameter(&closer(Some(rec(1.0)), None)), Some(sc(1.0)));
    assert_eq!(parameter(&closer(None, None)), None);
}

#[test]
fn draws_select_axes() {
    assert_eq!(axis_of(0), Axis::X);
    assert_eq!(axis_of(1), Axis::Y);
    assert_eq!(axis_of(2), Axis::Z);
}

fn random_solids(n: usize, sampler: &mut Sampler) -> Vec<Hittable> {
    (0..n)
        .map(|i| {
            let at = centered(Vec3::random(sampler)).scale(sc(20.0));
            let size = Vec3::random(sampler).scale(sc(3.0)).plus(v(0.5, 0.5, 0.5));
            let cuboid = Hittable::HitBox(HitBox::new(v(0.0, 0.0, 0.0), size, diffuse(50, 50, 50)));
            match i % 3 {
                0 => Hittable::Translate(Box::new(Translate { hittable: cuboid, offset: at })),
                1 => Hittable::Translate(Box::new(Translate {
                    hittable: Hittable::RotateY(Box::new(RotateY::new(cuboid, sc(10.0 * i as f64)))),
                    offset: at,
                })),
                _ => Hittable::Sphere(Sphere { center: at, radius: size.x, material: diffuse(50, 50, 50) }),
            }
        })
        .collect()
}

#[test]
fn the_tree_agrees_with_brute_force_on_moved_and_turned_solids() {
    for n in [1usize, 5, 40, 120] {
        let mut sampler = Sampler::seeded(77 + n as u64);
        let list = HitList(random_solids(n, &mut sampler));
        let mut again = Sampler::seeded(77 + n as u64);
        let node = BVHNode::new(random_solids(n, &mut again), sc(0.0), sc(1.0), &mut again).unwrap();
        for _ in 0..300 {
            let origin = centered(Vec3::random(&mut sampler)).scale(sc(40.0));
            let target = centered(Vec3::random(&mut sampler)).scale(sc(15.0));
            let ray = Ray { origin, direction: target.minus(origin).unit(), time: sc(0.0) };
            let brute = list.hit(&ray, sc(0.001), far(), &mut sampler);
            let tree = node.hit(&ray, sc(0.001), far(), &mut sampler);
            assert_eq!(parameter(&tree), parameter(&brute));
        }
    }
}

#[test]
fn building_takes_one_word_for_each_branch() {
    for n in [1usize, 2, 3, 8, 33] {
        let mut words = Sampler::seeded(92);
        let mut draws = Sampler::seeded(92);
        let objects: Vec<Hittable> = (0..n).map(|i| ball(i as f64 * 3.0, 0.0, 0.0, 1.0)).collect();
        let node = BVHNode::new(objects, sc(0.0), sc(1.0), &mut draws).unwrap();
        assert_eq!(count_leaves(&node), n);
        for _ in 0..n - 1 {
            let _ = words.word();
        }
        assert_eq!(draws.word(), words.word());
    }
    // a refused list takes no word
    let mut words = Sampler::seeded(93);
    let mut draws = Sampler::seeded(93);
    assert!(BVHNode::new(vec![], sc(0.0), sc(1.0), &mut draws).is_err());
    assert_eq!(draws.word(), words.word());
}

#[test]
fn the_first_word_stands_for_the_axis_of_the_root() {
    // three balls that are ordered differently along each axis
    let objects = || vec![ball(0.0, 9.0, 5.0, 1.0), ball(5.0, 0.0, 9.0, 1.0), ball(9.0, 5.0, 0.0, 1.0)];
    for seed in 0..30 {
        let axis = trt_core::random::index_of_word(Sampler::seeded(seed).word(), 3);
        let node = BVHNode::new(objects(), sc(0.0), sc(1.0), &mut Sampler::seeded(seed)).unwrap();
        let first = match &node {
            BVHNode::Branch { left, .. } => match &**left {
                BVHNode::Leaf { object: Hittable::Sphere(s), .. } => s.center,
                _ => panic!("the left half of three objects is one object"),
            },
            _ => panic!("three objects make a branch"),
        };
        let want = [v(0.0, 9.0, 5.0), v(5.0, 0.0, 9.0), v(9.0, 5.0, 0.0)][axis as usize];
        assert_eq!(first, want);
    }
}
