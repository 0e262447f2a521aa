use trt_core::aabb::AABB;
use trt_core::ray::Ray;
use trt_core::scalar::Scalar;
use trt_core::vec3::Vec3;

fn sc(x: f64) -> Scalar {
    Scalar { raw: (x * 65536.0).round() as i64 }
}

fn v(x: f64, y: f64, z: f64) -> Vec3 {
    Vec3::new(sc(x), sc(y), sc(z))
}

fn boxed(min: Vec3, max: Vec3) -> AABB {
    AABB { min, max }
}

fn contains(b: &AABB, p: Vec3) -> bool {
    b.min.x.raw <= p.x.raw
        && p.x.raw <= b.max.x.raw
        && b.min.y.raw <= p.y.raw
        && p.y.raw <= b.max.y.raw
        && b.min.z.raw <= p.z.raw
        && p.z.raw <= b.max.z.raw
}

#[test]
fn merging_a_box_with_itself_gives_it_back() {
    let a = boxed(v(-1.0, 2.0, -3.5), v(4.0, 2.5, 0.0));
    assert_eq!(AABB::surrounding_box(a, a), a);
    let degenerate = boxed(v(1.0, 1.0, 1.0), v(1.0, 1.0, 1.0));
    assert_eq!(AABB::surrounding_box(degenerate, degenerate), degenerate);
}

#[test]
fn the_merge_contains_all_corners_of_both() {
    let a = boxed(v(-1.0, 2.0, -3.5), v(4.0, 2.5, 0.0));
    let b = boxed(v(0.0, -7.0, -1.0), v(9.0, 2.25, 6.0));
    let m = AABB::surrounding_box(a, b);
    assert_eq!(m, boxed(v(-1.0, -7.0, -3.5), v(9.0, 2.5, 6.0)));
    for ux in [false, true] {
        for uy in [false, true] {
            for uz in [false, true] {
                assert!(contains(&m, a.corner_of(ux, uy, uz)));
                assert!(contains(&m, b.corner_of(ux, uy, uz)));
            }
        }
    }
}

#[test]
fn the_merge_does_not_depend_on_the_order() {
    let a = boxed(v(-1.0, 2.0, -3.5), v(4.0, 2.5, 0.0));
    let b = boxed(v(0.0, -7.0, -1.0), v(9.0, 2.25, 6.0));
    assert_eq!(AABB::surrounding_box(a, b), AABB::surrounding_box(b, a));
}

#[test]
fn corners_pick_faces_by_flag() {
    let a = boxed(v(-1.0, 2.0, -3.5), v(4.0, 2.5, 0.0));
    assert_eq!(a.corner_of(false, false, false), a.min);
    assert_eq!(a.corner_of(true, true, true), a.max);
    assert_eq!(a.corner_of(true, false, true), v(4.0, 2.0, 0.0));
}

#[test]
fn a_ray_through_the_box_hits_it() {
    let b = boxed(v(-1.0, -1.0, -1.0), v(1.0, 1.0, 1.0));
    let ray = Ray { origin: v(0.0, 0.0, -5.0), direction: v(0.0, 0.0, 1.0), time: sc(0.0) };
    assert!(b.hit(&ray, sc(0.001), Scalar::max_value()));
    let slanted = Ray { origin: v(-3.0, -3.0, -3.0), direction: v(1.0, 1.0, 1.0), time: sc(0.0) };
    assert!(b.hit(&slanted, sc(0.001), Scalar::max_value()));
}

#[test]
fn a_ray_beside_the_box_misses_it() {
    let b = boxed(v(-1.0, -1.0, -1.0), v(1.0, 1.0, 1.0));
    let ray = Ray { origin: v(2.0, 0.0, -5.0), direction: v(0.0, 0.0, 1.0), time: sc(0.0) };
    assert!(!b.hit(&ray, sc(0.001), Scalar::max_value()));
    let away = Ray { origin: v(0.0, 0.0, -5.0), direction: v(0.0, 0.0, -1.0), time: sc(0.0) };
    assert!(!b.hit(&away, sc(0.001), Scalar::max_value()));
}

#[test]
fn the_parameter_interval_limits_the_test() {
    let b = boxed(v(-1.0, -1.0, -1.0), v(1.0, 1.0, 1.0));
    let ray = Ray { origin: v(0.0, 0.0, -5.0), direction: v(0.0, 0.0, 1.0), time: sc(0.0) };
    assert!(!b.hit(&ray, sc(0.001), sc(3.9)));
    assert!(b.hit(&ray, sc(0.001), sc(4.5)));
    assert!(!b.hit(&ray, sc(6.0), sc(100.0)));
    assert!(b.hit(&ray, sc(5.0), sc(100.0)));
}

#[test]
fn a_degenerate_box_is_valid_and_never_hit() {
    let point = boxed(v(0.0, 0.0, 0.0), v(0.0, 0.0, 0.0));
    let ray = Ray { origin: v(0.0, 0.0, -5.0), direction: v(0.0, 0.0, 1.0), time: sc(0.0) };
    assert!(!point.hit(&ray, sc(0.001), Scalar::max_value()));
    let sheet = boxed(v(-1.0, -1.0, 0.0), v(1.0, 1.0, 0.0));
    assert!(!sheet.hit(&ray, sc(0.001), Scalar::max_value()));
    let still = Ray { origin: v(0.0, 0.0, 0.0), direction: v(0.0, 0.0, 0.0), time: sc(0.0) };
    assert!(!point.hit(&still, sc(0.001), Scalar::max_value()));
}
