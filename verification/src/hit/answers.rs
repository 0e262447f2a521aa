//! An object that draws nothing has one answer only.

use crate::hit::bvh::{spec_closer, BVHNode};
use crate::hit::flip_normals::{flipped_hit, FlipNormals};
use crate::hit::hit_list::{
    all_deterministic, closest_hit, closest_so_far, hit_among, may_hit_among, replaced_by,
};
use crate::random::lemma_skip_none;
use crate::hit::rotate::{world_hit, RotateX, RotateY, RotateZ};
use crate::hit::translate::{moved_hit, Translate};
use crate::hit::{HitRecord, Hittable};
use crate::ray::Ray;
use crate::scalar::Scalar;
use vstd::prelude::*;

verus! {

/// A deterministic object can give no answer but its hit.
pub proof fn lemma_deterministic_answer(
    h: Hittable,
    ray: &Ray,
    t_min: Scalar,
    t_max: Scalar,
    r: Option<HitRecord>,
)
    requires
        h.deterministic(),
        h.may_hit(ray, t_min, t_max, r),
    ensures
        r == h.spec_hit(ray, t_min, t_max),
    decreases h,
{
    match h {
        Hittable::FlipNormals(f) => lemma_deterministic_flipnormals(*f, ray, t_min, t_max, r),
        Hittable::Translate(f) => lemma_deterministic_translate(*f, ray, t_min, t_max, r),
        Hittable::RotateX(f) => lemma_deterministic_rotatex(*f, ray, t_min, t_max, r),
        Hittable::RotateY(f) => lemma_deterministic_rotatey(*f, ray, t_min, t_max, r),
        Hittable::RotateZ(f) => lemma_deterministic_rotatez(*f, ray, t_min, t_max, r),
        Hittable::HitList(l) => lemma_deterministic_among(
            l.0@,
            l.0@.len() as int,
            ray,
            t_min,
            t_max,
            r,
        ),
        Hittable::BVHNode(n) => lemma_deterministic_tree(*n, ray, t_min, t_max, r),
        _ => {},
    }
}

/// A deterministic object that is flipped can give no answer but its hit.
pub proof fn lemma_deterministic_flipnormals(
    f: FlipNormals,
    ray: &Ray,
    t_min: Scalar,
    t_max: Scalar,
    r: Option<HitRecord>,
)
    requires
        f.deterministic(),
        f.may_hit(ray, t_min, t_max, r),
    ensures
        r == f.spec_hit(ray, t_min, t_max),
    decreases f,
{
    let local = *ray;
    let inner = choose|inner: Option<HitRecord>|
        f.hittable.may_hit(&local, t_min, t_max, inner) && r == #[trigger] flipped_hit(inner);
    lemma_deterministic_answer(f.hittable, &local, t_min, t_max, inner);
}

/// A deterministic object that is moved can give no answer but its hit.
pub proof fn lemma_deterministic_translate(
    f: Translate,
    ray: &Ray,
    t_min: Scalar,
    t_max: Scalar,
    r: Option<HitRecord>,
)
    requires
        f.deterministic(),
        f.may_hit(ray, t_min, t_max, r),
    ensures
        r == f.spec_hit(ray, t_min, t_max),
    decreases f,
{
    let local = f.spec_local_ray(ray);
    let inner = choose|inner: Option<HitRecord>|
        f.hittable.may_hit(&local, t_min, t_max, inner) && r == #[trigger] moved_hit(inner, f.offset);
    lemma_deterministic_answer(f.hittable, &local, t_min, t_max, inner);
}

/// A deterministic object that is turned about `x` can give no answer but its hit.
pub proof fn lemma_deterministic_rotatex(
    f: RotateX<Hittable>,
    ray: &Ray,
    t_min: Scalar,
    t_max: Scalar,
    r: Option<HitRecord>,
)
    requires
        f.deterministic(),
        f.may_hit(ray, t_min, t_max, r),
    ensures
        r == f.spec_hit(ray, t_min, t_max),
    decreases f,
{
    let local = f.spec_rotation().local_ray(ray);
    let inner = choose|inner: Option<HitRecord>|
        f.hittable.may_hit(&local, t_min, t_max, inner) && r == #[trigger] world_hit(f.spec_rotation(), inner);
    lemma_deterministic_answer(f.hittable, &local, t_min, t_max, inner);
}

/// A deterministic object that is turned about `y` can give no answer but its hit.
pub proof fn lemma_deterministic_rotatey(
    f: RotateY<Hittable>,
    ray: &Ray,
    t_min: Scalar,
    t_max: Scalar,
    r: Option<HitRecord>,
)
    requires
        f.deterministic(),
        f.may_hit(ray, t_min, t_max, r),
    ensures
        r == f.spec_hit(ray, t_min, t_max),
    decreases f,
{
    let local = f.spec_rotation().local_ray(ray);
    let inner = choose|inner: Option<HitRecord>|
        f.hittable.may_hit(&local, t_min, t_max, inner) && r == #[trigger] world_hit(f.spec_rotation(), inner);
    lemma_deterministic_answer(f.hittable, &local, t_min, t_max, inner);
}

/// A deterministic object that is turned about `z` can give no answer but its hit.
pub proof fn lemma_deterministic_rotatez(
    f: RotateZ<Hittable>,
    ray: &Ray,
    t_min: Scalar,
    t_max: Scalar,
    r: Option<HitRecord>,
)
    requires
        f.deterministic(),
        f.may_hit(ray, t_min, t_max, r),
    ensures
        r == f.spec_hit(ray, t_min, t_max),
    decreases f,
{
    let local = f.spec_rotation().local_ray(ray);
    let inner = choose|inner: Option<HitRecord>|
        f.hittable.may_hit(&local, t_min, t_max, inner) && r == #[trigger] world_hit(f.spec_rotation(), inner);
    lemma_deterministic_answer(f.hittable, &local, t_min, t_max, inner);
}

/// Deterministic objects can give together no answer but their nearest hit.
pub proof fn lemma_deterministic_among(
    objects: Seq<Hittable>,
    n: int,
    ray: &Ray,
    t_min: Scalar,
    t_max: Scalar,
    r: Option<HitRecord>,
)
    requires
        0 <= n <= objects.len(),
        all_deterministic(objects, n),
        may_hit_among(objects, n, ray, t_min, t_max, r),
    ensures
        r == closest_hit(objects, n, ray, t_min, t_max),
    decreases objects, n,
{
    if n > 0 {
        let (before, now) = choose|before: Option<HitRecord>, now: Option<HitRecord>|
            may_hit_among(objects, n - 1, ray, t_min, t_max, before) && objects[n - 1].may_hit(
                ray,
                t_min,
                closest_so_far(before, t_max),
                now,
            ) && r == #[trigger] replaced_by(before, now);
        lemma_deterministic_among(objects, n - 1, ray, t_min, t_max, before);
        lemma_deterministic_answer(
            objects[n - 1],
            ray,
            t_min,
            closest_so_far(before, t_max),
            now,
        );
    }
}

/// A tree of deterministic objects can give no answer but its hit.
pub proof fn lemma_deterministic_tree(
    node: BVHNode,
    ray: &Ray,
    t_min: Scalar,
    t_max: Scalar,
    r: Option<HitRecord>,
)
    requires
        node.deterministic(),
        node.may_hit(ray, t_min, t_max, r),
    ensures
        r == node.spec_hit(ray, t_min, t_max),
    decreases node,
{
    match node {
        BVHNode::Leaf { object, bbox } => {
            lemma_deterministic_answer(object, ray, t_min, t_max, r);
        },
        BVHNode::Branch { left, right, bbox } => {
            if bbox.hit(ray, t_min, t_max) {
                let (near, far) = choose|near: Option<HitRecord>, far: Option<HitRecord>|
                    left.may_hit(ray, t_min, t_max, near) && right.may_hit(ray, t_min, t_max, far)
                        && r == #[trigger] spec_closer(near, far);
                lemma_deterministic_tree(*left, ray, t_min, t_max, near);
                lemma_deterministic_tree(*right, ray, t_min, t_max, far);
            }
        },
    }
}

/// A deterministic object uses no word: its hit from any stream of words is
/// its hit, and the stream is left as it was.
pub proof fn lemma_uses_no_word(
    h: Hittable,
    ray: &Ray,
    t_min: Scalar,
    t_max: Scalar,
    words: spec_fn(nat) -> u32,
)
    requires
        h.deterministic(),
    ensures
        h.hit_from(ray, t_min, t_max, words) == (h.spec_hit(ray, t_min, t_max), 0nat),
    decreases h,
{
    match h {
        Hittable::FlipNormals(f) => lemma_flipped_uses_no_word(*f, ray, t_min, t_max, words),
        Hittable::Translate(f) => lemma_moved_uses_no_word(*f, ray, t_min, t_max, words),
        Hittable::RotateX(f) => lemma_turned_x_uses_no_word(*f, ray, t_min, t_max, words),
        Hittable::RotateY(f) => lemma_turned_y_uses_no_word(*f, ray, t_min, t_max, words),
        Hittable::RotateZ(f) => lemma_turned_z_uses_no_word(*f, ray, t_min, t_max, words),
        Hittable::HitList(l) => lemma_list_uses_no_word(
            l.0@,
            l.0@.len() as int,
            ray,
            t_min,
            t_max,
            words,
        ),
        Hittable::BVHNode(n) => lemma_tree_uses_no_word(*n, ray, t_min, t_max, words),
        _ => {},
    }
}

/// A deterministic object that is flipped uses no word: its hit from any
/// stream is its hit.
pub proof fn lemma_flipped_uses_no_word(
    f: FlipNormals,
    ray: &Ray,
    t_min: Scalar,
    t_max: Scalar,
    words: spec_fn(nat) -> u32,
)
    requires
        f.deterministic(),
    ensures
        f.hit_from(ray, t_min, t_max, words) == (f.spec_hit(ray, t_min, t_max), 0nat),
    decreases f,
{
    lemma_uses_no_word(f.hittable, &*ray, t_min, t_max, words);
}

/// A deterministic object that is moved uses no word: its hit from any
/// stream is its hit.
pub proof fn lemma_moved_uses_no_word(
    f: Translate,
    ray: &Ray,
    t_min: Scalar,
    t_max: Scalar,
    words: spec_fn(nat) -> u32,
)
    requires
        f.deterministic(),
    ensures
        f.hit_from(ray, t_min, t_max, words) == (f.spec_hit(ray, t_min, t_max), 0nat),
    decreases f,
{
    lemma_uses_no_word(f.hittable, &f.spec_local_ray(ray), t_min, t_max, words);
}

/// A deterministic object that is turned about `x` uses no word: its hit from any
/// stream is its hit.
pub proof fn lemma_turned_x_uses_no_word(
    f: RotateX<Hittable>,
    ray: &Ray,
    t_min: Scalar,
    t_max: Scalar,
    words: spec_fn(nat) -> u32,
)
    requires
        f.deterministic(),
    ensures
        f.hit_from(ray, t_min, t_max, words) == (f.spec_hit(ray, t_min, t_max), 0nat),
    decreases f,
{
    lemma_uses_no_word(f.hittable, &f.spec_rotation().local_ray(ray), t_min, t_max, words);
}

/// A deterministic object that is turned about `y` uses no word: its hit from any
/// stream is its hit.
pub proof fn lemma_turned_y_uses_no_word(
    f: RotateY<Hittable>,
    ray: &Ray,
    t_min: Scalar,
    t_max: Scalar,
    words: spec_fn(nat) -> u32,
)
    requires
        f.deterministic(),
    ensures
        f.hit_from(ray, t_min, t_max, words) == (f.spec_hit(ray, t_min, t_max), 0nat),
    decreases f,
{
    lemma_uses_no_word(f.hittable, &f.spec_rotation().local_ray(ray), t_min, t_max, words);
}

/// A deterministic object that is turned about `z` uses no word: its hit from any
/// stream is its hit.
pub proof fn lemma_turned_z_uses_no_word(
    f: RotateZ<Hittable>,
    ray: &Ray,
    t_min: Scalar,
    t_max: Scalar,
    words: spec_fn(nat) -> u32,
)
    requires
        f.deterministic(),
    ensures
        f.hit_from(ray, t_min, t_max, words) == (f.spec_hit(ray, t_min, t_max), 0nat),
    decreases f,
{
    lemma_uses_no_word(f.hittable, &f.spec_rotation().local_ray(ray), t_min, t_max, words);
}

/// Deterministic objects use no word together.
pub proof fn lemma_list_uses_no_word(
    objects: Seq<Hittable>,
    n: int,
    ray: &Ray,
    t_min: Scalar,
    t_max: Scalar,
    words: spec_fn(nat) -> u32,
)
    requires
        0 <= n <= objects.len(),
        all_deterministic(objects, n),
    ensures
        hit_among(objects, n, ray, t_min, t_max, words) == (
            closest_hit(objects, n, ray, t_min, t_max),
            0nat,
        ),
    decreases objects, n,
{
    if n > 0 {
        lemma_list_uses_no_word(objects, n - 1, ray, t_min, t_max, words);
        lemma_skip_none(words);
        lemma_uses_no_word(
            objects[n - 1],
            ray,
            t_min,
            closest_so_far(closest_hit(objects, n - 1, ray, t_min, t_max), t_max),
            words,
        );
    }
}

/// A tree of deterministic objects uses no word.
pub proof fn lemma_tree_uses_no_word(
    node: BVHNode,
    ray: &Ray,
    t_min: Scalar,
    t_max: Scalar,
    words: spec_fn(nat) -> u32,
)
    requires
        node.deterministic(),
    ensures
        node.hit_from(ray, t_min, t_max, words) == (node.spec_hit(ray, t_min, t_max), 0nat),
    decreases node,
{
    match node {
        BVHNode::Leaf { object, bbox } => {
            lemma_uses_no_word(object, ray, t_min, t_max, words);
        },
        BVHNode::Branch { left, right, bbox } => {
            lemma_tree_uses_no_word(*left, ray, t_min, t_max, words);
            lemma_skip_none(words);
            lemma_tree_uses_no_word(*right, ray, t_min, t_max, words);
        },
    }
}

} // verus!
