//! Why the hierarchy can stand in for the plain list: on the same objects
//! both report a nearest hit.

use crate::hit::bvh::{closer, BVHNode};
use crate::hit::hit_list::{all_deterministic, closest_hit, closest_so_far, HitList};
use crate::hit::sphere::{spec_root_in_range, spec_sphere_roots};
use crate::hit::hit_box::HitBox;
use crate::hit::{HitRecord, Hittable, Surface};
use crate::ray::Ray;
use crate::scalar::{lemma_over_monotone, lemma_sqrt_is_floor, lemma_square_not_negative, Scalar};
use crate::vec3::Vec3;
use vstd::prelude::*;

verus! {

/// The object is a single solid: a sphere, at rest or moving, a rectangle or
/// a cuboid, as it is or flipped, moved or turned.
pub open spec fn is_solid(h: Hittable) -> bool
    decreases h,
{
    match h {
        Hittable::Sphere(s) => true,
        Hittable::MovingSphere(s) => true,
        Hittable::XYRect(s) => true,
        Hittable::XZRect(s) => true,
        Hittable::YZRect(s) => true,
        Hittable::HitBox(s) => true,
        Hittable::FlipNormals(f) => is_solid(f.hittable),
        Hittable::Translate(f) => is_solid(f.hittable),
        Hittable::RotateX(f) => is_solid(f.hittable),
        Hittable::RotateY(f) => is_solid(f.hittable),
        Hittable::RotateZ(f) => is_solid(f.hittable),
        _ => false,
    }
}

/// The first `n` objects are single solids.
pub open spec fn all_solid(objects: Seq<Hittable>, n: int) -> bool {
    forall|i: int| 0 <= i < n ==> is_solid(#[trigger] objects[i])
}

/// The parameter of a hit, if there is a hit.
pub open spec fn hit_parameter(r: Option<HitRecord>) -> Option<Scalar> {
    match r {
        Some(rec) => Some(rec.t),
        None => None,
    }
}

/// What the object answers to the ray over `(t_min, t_max)`: its hit.
#[verifier::opaque]
pub open spec fn answer(h: Hittable, ray: &Ray, t_min: Scalar, t_max: Scalar) -> Option<HitRecord> {
    h.spec_hit(ray, t_min, t_max)
}

/// The answer of an object is its hit.
pub proof fn lemma_answer_is_hit(h: Hittable, ray: &Ray, t_min: Scalar, t_max: Scalar)
    ensures
        answer(h, ray, t_min, t_max) == h.spec_hit(ray, t_min, t_max),
{
    reveal(answer);
}

/// The hit `r`, as far as it lies strictly below `bound`.
pub open spec fn below<'a>(r: Option<HitRecord<'a>>, bound: Scalar) -> Option<HitRecord<'a>> {
    match r {
        Some(rec) => if rec.t@ < bound@ {
            Some(rec)
        } else {
            None
        },
        None => None,
    }
}

/// `r` is a nearest hit among the first `n` objects over `(t_min, t_max)`:
/// where it is a hit, one of the objects reports exactly that hit and none
/// reports a nearer one; where it is none, no object is hit.
pub open spec fn nearest_of(
    objects: Seq<Hittable>,
    n: int,
    ray: &Ray,
    t_min: Scalar,
    t_max: Scalar,
    r: Option<HitRecord>,
) -> bool {
    match r {
        Some(rec) => {
            &&& exists|i: int|
                0 <= i < n && #[trigger] answer(objects[i], ray, t_min, t_max) == Some(rec)
            &&& forall|j: int|
                0 <= j < n ==> (#[trigger] answer(objects[j], ray, t_min, t_max) matches Some(
                    other,
                ) ==> rec.t@ <= other.t@)
        },
        None => forall|j: int|
            0 <= j < n ==> (#[trigger] answer(objects[j], ray, t_min, t_max)).is_none(),
    }
}

/// Every branch of the tree lets the ray pass whenever one of its two
/// subtrees reports a hit: the boxes are tight enough for this ray.
pub open spec fn boxes_admit(node: BVHNode, ray: &Ray, t_min: Scalar, t_max: Scalar) -> bool
    decreases node,
{
    match node {
        BVHNode::Leaf { object, bbox } => true,
        BVHNode::Branch { left, right, bbox } => {
            &&& boxes_admit(*left, ray, t_min, t_max)
            &&& boxes_admit(*right, ray, t_min, t_max)
            &&& (left.spec_hit(ray, t_min, t_max).is_some() || right.spec_hit(
                ray,
                t_min,
                t_max,
            ).is_some()) ==> bbox.hit(ray, t_min, t_max)
        },
    }
}

/// The dot product of a vector with itself is not negative.
proof fn lemma_dot_self_not_negative(v: Vec3)
    ensures
        v.dot(v)@ >= 0,
{
    lemma_square_not_negative(v.x);
    lemma_square_not_negative(v.y);
    lemma_square_not_negative(v.z);
}

/// Of the two roots of a sphere the first is not above the second.
proof fn lemma_roots_ascend(oc: Vec3, direction: Vec3, radius: Scalar)
    ensures
        spec_sphere_roots(oc, direction, radius) matches Some(roots) ==> roots.0@ <= roots.1@,
{
    let a = direction.dot(direction);
    let b = oc.dot(direction);
    let c = oc.dot(oc).minus(radius.times(radius));
    let discriminant = b.times(b).minus(a.times(c));
    if discriminant@ > 0 {
        let root = discriminant.sqrt();
        lemma_sqrt_is_floor(discriminant);
        lemma_dot_self_not_negative(direction);
        lemma_over_monotone(b.negate().minus(root), b.negate().plus(root), a);
    }
}

/// Narrowing the interval from above either keeps the root that was chosen
/// or leaves none.
proof fn lemma_root_in_range_stable(
    roots: Option<(Scalar, Scalar)>,
    t_min: Scalar,
    t_max: Scalar,
    bound: Scalar,
)
    requires
        bound@ <= t_max@,
        roots matches Some(pair) ==> pair.0@ <= pair.1@,
    ensures
        spec_root_in_range(roots, t_min, bound) == match spec_root_in_range(roots, t_min, t_max) {
            Some(t) => if t@ < bound@ {
                Some(t)
            } else {
                None
            },
            None => None,
        },
{
}

/// The surface `r`, as far as it lies strictly below `bound`.
pub open spec fn surface_below(r: Option<Surface>, bound: Scalar) -> Option<Surface> {
    match r {
        Some(s) => if s.t@ < bound@ {
            Some(s)
        } else {
            None
        },
        None => None,
    }
}

/// A sphere answers a narrower interval as it answers the wider one.
proof fn lemma_sphere_stable(
    oc: Vec3,
    direction: Vec3,
    radius: Scalar,
    t_min: Scalar,
    t_max: Scalar,
    bound: Scalar,
)
    requires
        bound@ <= t_max@,
    ensures
        spec_root_in_range(spec_sphere_roots(oc, direction, radius), t_min, bound)
            == match spec_root_in_range(spec_sphere_roots(oc, direction, radius), t_min, t_max) {
            Some(t) => if t@ < bound@ {
                Some(t)
            } else {
                None
            },
            None => None,
        },
{
    lemma_roots_ascend(oc, direction, radius);
    lemma_root_in_range_stable(spec_sphere_roots(oc, direction, radius), t_min, t_max, bound);
}

/// The first faces of a cuboid answer a narrower interval as they answer the
/// wider one, and their hits lie strictly inside the interval.
proof fn lemma_faces_stable(
    b: HitBox,
    n: nat,
    ray: &Ray,
    t_min: Scalar,
    t_max: Scalar,
    bound: Scalar,
)
    requires
        bound@ <= t_max@,
    ensures
        b.closest_face(n, ray, t_min, bound) == surface_below(
            b.closest_face(n, ray, t_min, t_max),
            bound,
        ),
        b.closest_face(n, ray, t_min, t_max) matches Some(s) ==> t_min@ < s.t@ < t_max@,
    decreases n,
{
    if n > 0 {
        lemma_faces_stable(b, (n - 1) as nat, ray, t_min, t_max, bound);
    }
}

/// A single solid answers a narrower interval as it answers the wider one:
/// it reports the same hit where that hit lies below the new bound, and none
/// otherwise. Its hits lie strictly inside the interval.
pub proof fn lemma_solid_stable(
    h: Hittable,
    ray: &Ray,
    t_min: Scalar,
    t_max: Scalar,
    bound: Scalar,
)
    requires
        is_solid(h),
        bound@ <= t_max@,
    ensures
        h.spec_hit(ray, t_min, bound) == below(h.spec_hit(ray, t_min, t_max), bound),
        h.spec_hit(ray, t_min, t_max) matches Some(rec) ==> t_min@ < rec.t@ < t_max@,
        h.spec_hit(ray, t_min, t_max) == answer(h, ray, t_min, t_max),
    decreases h,
{
    reveal(answer);
    match h {
        Hittable::Sphere(s) => {
            lemma_sphere_stable(
                ray.origin.minus(s.center),
                ray.direction,
                s.radius,
                t_min,
                t_max,
                bound,
            );
        },
        Hittable::MovingSphere(s) => {
            lemma_sphere_stable(
                ray.origin.minus(s.center(ray.time)),
                ray.direction,
                s.radius,
                t_min,
                t_max,
                bound,
            );
        },
        Hittable::HitBox(b) => {
            lemma_faces_stable(b, 6, ray, t_min, t_max, bound);
        },
        Hittable::FlipNormals(f) => {
            lemma_solid_stable(f.hittable, ray, t_min, t_max, bound);
        },
        Hittable::Translate(f) => {
            lemma_solid_stable(f.hittable, &f.spec_local_ray(ray), t_min, t_max, bound);
        },
        Hittable::RotateX(f) => {
            lemma_solid_stable(f.hittable, &f.spec_rotation().local_ray(ray), t_min, t_max, bound);
        },
        Hittable::RotateY(f) => {
            lemma_solid_stable(f.hittable, &f.spec_rotation().local_ray(ray), t_min, t_max, bound);
        },
        Hittable::RotateZ(f) => {
            lemma_solid_stable(f.hittable, &f.spec_rotation().local_ray(ray), t_min, t_max, bound);
        },
        _ => {},
    }
}

/// The list reports a nearest hit among its solids.
pub proof fn lemma_list_reports_nearest(
    objects: Seq<Hittable>,
    n: int,
    ray: &Ray,
    t_min: Scalar,
    t_max: Scalar,
)
    requires
        0 <= n <= objects.len(),
        all_solid(objects, n),
    ensures
        nearest_of(objects, n, ray, t_min, t_max, closest_hit(objects, n, ray, t_min, t_max)),
        closest_hit(objects, n, ray, t_min, t_max) matches Some(rec) ==> t_min@ < rec.t@ < t_max@,
    decreases n,
{
    if n > 0 {
        lemma_list_reports_nearest(objects, n - 1, ray, t_min, t_max);
        let before = closest_hit(objects, n - 1, ray, t_min, t_max);
        lemma_solid_stable(objects[n - 1], ray, t_min, t_max, closest_so_far(before, t_max));
    }
}

/// A tree whose boxes admit the ray reports a nearest hit among its leaves.
pub proof fn lemma_tree_reports_nearest(node: BVHNode, ray: &Ray, t_min: Scalar, t_max: Scalar)
    requires
        boxes_admit(node, ray, t_min, t_max),
    ensures
        nearest_of(
            node.leaves(),
            node.leaves().len() as int,
            ray,
            t_min,
            t_max,
            node.spec_hit(ray, t_min, t_max),
        ),
    decreases node,
{
    match node {
        BVHNode::Leaf { object, bbox } => {
            assert(node.leaves()[0] == object);
            lemma_answer_is_hit(object, ray, t_min, t_max);
        },
        BVHNode::Branch { left, right, bbox } => {
            lemma_tree_reports_nearest(*left, ray, t_min, t_max);
            lemma_tree_reports_nearest(*right, ray, t_min, t_max);
            let l = left.leaves();
            let r = right.leaves();
            let all = node.leaves();
            if let Some(rec) = node.spec_hit(ray, t_min, t_max) {
                if left.spec_hit(ray, t_min, t_max) == Some(rec) {
                    let i = choose|i: int|
                        0 <= i < l.len() && #[trigger] answer(l[i], ray, t_min, t_max) == Some(rec);
                    assert(answer(all[i], ray, t_min, t_max) == Some(rec));
                } else {
                    let i = choose|i: int|
                        0 <= i < r.len() && #[trigger] answer(r[i], ray, t_min, t_max) == Some(rec);
                    assert(answer(all[i + l.len()], ray, t_min, t_max) == Some(rec));
                }
            }
        },
    }
}

/// Two nearest hits among the same objects, in whatever order, have the same
/// parameter, or are both none.
pub proof fn lemma_nearest_is_unique(
    first: Seq<Hittable>,
    second: Seq<Hittable>,
    ray: &Ray,
    t_min: Scalar,
    t_max: Scalar,
    a: Option<HitRecord>,
    b: Option<HitRecord>,
)
    requires
        first.to_multiset() == second.to_multiset(),
        nearest_of(first, first.len() as int, ray, t_min, t_max, a),
        nearest_of(second, second.len() as int, ray, t_min, t_max, b),
    ensures
        hit_parameter(a) == hit_parameter(b),
{
    if let Some(x) = a {
        let i = choose|i: int|
            0 <= i < first.len() && #[trigger] answer(first[i], ray, t_min, t_max) == Some(x);
        let k = lemma_shared_member(first, second, i);
    }
    if let Some(y) = b {
        let i = choose|i: int|
            0 <= i < second.len() && #[trigger] answer(second[i], ray, t_min, t_max) == Some(y);
        let k = lemma_shared_member(second, first, i);
    }
}

/// A member of one of two sequences with the same members is a member of
/// the other.
proof fn lemma_shared_member(first: Seq<Hittable>, second: Seq<Hittable>, i: int) -> (k: int)
    requires
        first.to_multiset() == second.to_multiset(),
        0 <= i < first.len(),
    ensures
        0 <= k < second.len(),
        second[k] == first[i],
{
    vstd::seq_lib::to_multiset_contains(first, first[i]);
    vstd::seq_lib::to_multiset_contains(second, first[i]);
    choose|k: int| 0 <= k < second.len() && second[k] == first[i]
}

/// The hierarchy agrees with brute force. Let a tree hold exactly the
/// objects of a list, in whatever order, let these be single solids, and let
/// the boxes of the tree admit the ray. Then for this ray the tree and the
/// list both report a nearest hit among the objects: both miss, or both hit
/// at the same parameter. Where two objects are hit at that same parameter,
/// the two may report different ones of them.
pub proof fn lemma_bvh_matches_brute_force(
    node: BVHNode,
    list: HitList,
    ray: &Ray,
    t_min: Scalar,
    t_max: Scalar,
)
    requires
        node.leaves().to_multiset() == list.0@.to_multiset(),
        all_solid(list.0@, list.0@.len() as int),
        boxes_admit(node, ray, t_min, t_max),
    ensures
        hit_parameter(node.spec_hit(ray, t_min, t_max)) == hit_parameter(
            list.spec_hit(ray, t_min, t_max),
        ),
        nearest_of(
            list.0@,
            list.0@.len() as int,
            ray,
            t_min,
            t_max,
            list.spec_hit(ray, t_min, t_max),
        ),
        nearest_of(
            node.leaves(),
            node.leaves().len() as int,
            ray,
            t_min,
            t_max,
            node.spec_hit(ray, t_min, t_max),
        ),
{
    lemma_list_reports_nearest(list.0@, list.0@.len() as int, ray, t_min, t_max);
    lemma_tree_reports_nearest(node, ray, t_min, t_max);
    lemma_nearest_is_unique(
        node.leaves(),
        list.0@,
        ray,
        t_min,
        t_max,
        node.spec_hit(ray, t_min, t_max),
        list.spec_hit(ray, t_min, t_max),
    );
}

/// Two answers are hits at the same parameter.
pub open spec fn tied(a: Option<HitRecord>, b: Option<HitRecord>) -> bool {
    a matches Some(x) && b matches Some(y) && x.t == y.t
}

/// No two of the objects are hit at the same parameter.
pub open spec fn no_ties(objects: Seq<Hittable>, ray: &Ray, t_min: Scalar, t_max: Scalar) -> bool {
    forall|i: int, j: int|
        0 <= i < j < objects.len() ==> !tied(
            #[trigger] answer(objects[i], ray, t_min, t_max),
            #[trigger] answer(objects[j], ray, t_min, t_max),
        )
}

/// Where no two objects are hit at the same parameter, the hierarchy and
/// brute force report the same hit, record for record: under the premises of
/// [`lemma_bvh_matches_brute_force`] the tree and the list agree on point,
/// normal and material as well as on the parameter.
pub proof fn lemma_bvh_reports_the_same_hit(
    node: BVHNode,
    list: HitList,
    ray: &Ray,
    t_min: Scalar,
    t_max: Scalar,
)
    requires
        node.leaves().to_multiset() == list.0@.to_multiset(),
        all_solid(list.0@, list.0@.len() as int),
        boxes_admit(node, ray, t_min, t_max),
        no_ties(list.0@, ray, t_min, t_max),
    ensures
        node.spec_hit(ray, t_min, t_max) == list.spec_hit(ray, t_min, t_max),
{
    lemma_bvh_matches_brute_force(node, list, ray, t_min, t_max);
    if let Some(rec) = node.spec_hit(ray, t_min, t_max) {
        let other = list.spec_hit(ray, t_min, t_max).unwrap();
        let i = choose|i: int|
            0 <= i < node.leaves().len() && #[trigger] answer(node.leaves()[i], ray, t_min, t_max)
                == Some(rec);
        let k = lemma_shared_member(node.leaves(), list.0@, i);
        let j = choose|j: int|
            0 <= j < list.0@.len() && #[trigger] answer(list.0@[j], ray, t_min, t_max) == Some(
                other,
            );
        assert(answer(list.0@[k], ray, t_min, t_max) == Some(rec));
        if k < j {
            assert(tied(answer(list.0@[k], ray, t_min, t_max), answer(list.0@[j], ray, t_min, t_max)));
        } else if j < k {
            assert(tied(answer(list.0@[j], ray, t_min, t_max), answer(list.0@[k], ray, t_min, t_max)));
        }
    }
}

/// A single solid draws nothing.
pub proof fn lemma_solid_is_deterministic(h: Hittable)
    requires
        is_solid(h),
    ensures
        h.deterministic(),
    decreases h,
{
    match h {
        Hittable::FlipNormals(f) => lemma_solid_is_deterministic(f.hittable),
        Hittable::Translate(f) => lemma_solid_is_deterministic(f.hittable),
        Hittable::RotateX(f) => lemma_solid_is_deterministic(f.hittable),
        Hittable::RotateY(f) => lemma_solid_is_deterministic(f.hittable),
        Hittable::RotateZ(f) => lemma_solid_is_deterministic(f.hittable),
        _ => {},
    }
}

/// A list of single solids draws nothing.
pub proof fn lemma_solids_are_deterministic(objects: Seq<Hittable>, n: int)
    requires
        0 <= n <= objects.len(),
        all_solid(objects, n),
    ensures
        all_deterministic(objects, n),
    decreases n,
{
    if n > 0 {
        lemma_solids_are_deterministic(objects, n - 1);
        lemma_solid_is_deterministic(objects[n - 1]);
    }
}

/// A tree whose leaves are single solids draws nothing.
pub proof fn lemma_tree_of_solids_is_deterministic(node: BVHNode)
    requires
        all_solid(node.leaves(), node.leaves().len() as int),
    ensures
        node.deterministic(),
    decreases node,
{
    match node {
        BVHNode::Leaf { object, bbox } => {
            assert(node.leaves()[0] == object);
            lemma_solid_is_deterministic(object);
        },
        BVHNode::Branch { left, right, bbox } => {
            let l = left.leaves();
            let r = right.leaves();
            assert forall|i: int| 0 <= i < l.len() implies is_solid(#[trigger] l[i]) by {
                assert(node.leaves()[i] == l[i]);
            }
            assert forall|i: int| 0 <= i < r.len() implies is_solid(#[trigger] r[i]) by {
                assert(node.leaves()[i + l.len()] == r[i]);
            }
            lemma_tree_of_solids_is_deterministic(*left);
            lemma_tree_of_solids_is_deterministic(*right);
        },
    }
}

/// What a tree holds is solid where what it was built from is.
pub proof fn lemma_leaves_are_solid(node: BVHNode, objects: Seq<Hittable>)
    requires
        node.leaves().to_multiset() == objects.to_multiset(),
        all_solid(objects, objects.len() as int),
    ensures
        all_solid(node.leaves(), node.leaves().len() as int),
{
    assert forall|i: int| 0 <= i < node.leaves().len() implies is_solid(
        #[trigger] node.leaves()[i],
    ) by {
        let k = lemma_shared_member(node.leaves(), objects, i);
        assert(is_solid(objects[k]));
    }
}

} // verus!
