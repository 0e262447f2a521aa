//! The aggregate of several objects.

use crate::aabb::AABB;
use crate::hit::{HitRecord, Hittable};
use crate::random::{lemma_skip_adds, lemma_skip_none, skip, Sampler};
use crate::ray::Ray;
use crate::scalar::Scalar;
use vstd::prelude::*;

verus! {

/// A collection of objects that is hit where the nearest of them is hit.
pub struct HitList(pub Vec<Hittable>);

/// Whether the first `n` objects are deterministic.
pub open spec fn all_deterministic(objects: Seq<Hittable>, n: int) -> bool
    decreases objects, n,
{
    if n <= 0 || n > objects.len() {
        true
    } else {
        all_deterministic(objects, n - 1) && objects[n - 1].deterministic()
    }
}

/// The upper end of the parameter interval that is left once `found` has been
/// hit: its parameter, or `t_max` where nothing was hit.
pub open spec fn closest_so_far(found: Option<HitRecord>, t_max: Scalar) -> Scalar {
    match found {
        Some(rec) => rec.t,
        None => t_max,
    }
}

/// The nearest hit among the first `n` objects: each object is tested only
/// below the nearest hit found before it, so that a later object replaces an
/// earlier one only where it is strictly nearer.
pub open spec fn closest_hit(
    objects: Seq<Hittable>,
    n: int,
    ray: &Ray,
    t_min: Scalar,
    t_max: Scalar,
) -> Option<HitRecord>
    decreases objects, n,
{
    if n <= 0 || n > objects.len() {
        None
    } else {
        let before = closest_hit(objects, n - 1, ray, t_min, t_max);
        match objects[n - 1].spec_hit(ray, t_min, closest_so_far(before, t_max)) {
            Some(rec) => Some(rec),
            None => before,
        }
    }
}

/// What a list reports once `now` is the answer of its next object: that
/// answer where it is a hit, and what was found before where it is none.
pub open spec fn replaced_by<'a>(before: Option<HitRecord<'a>>, now: Option<HitRecord<'a>>) -> Option<
    HitRecord<'a>,
> {
    match now {
        Some(rec) => Some(rec),
        None => before,
    }
}

/// The hit that a stream of words gives among the first `n` objects, and how
/// many of them it uses: each object is tested below the nearest hit found
/// before it, with the words that the objects before it have left.
pub open spec fn hit_among(
    objects: Seq<Hittable>,
    n: int,
    ray: &Ray,
    t_min: Scalar,
    t_max: Scalar,
    words: spec_fn(nat) -> u32,
) -> (Option<HitRecord>, nat)
    decreases objects, n,
{
    if n <= 0 || n > objects.len() {
        (None, 0)
    } else {
        let (before, used) = hit_among(objects, n - 1, ray, t_min, t_max, words);
        let (now, more) = objects[n - 1].hit_from(
            ray,
            t_min,
            closest_so_far(before, t_max),
            skip(words, used),
        );
        (replaced_by(before, now), used + more)
    }
}

/// `r` is an answer that the first `n` objects can give together: each
/// object answers below the nearest hit found before it.
pub open spec fn may_hit_among(
    objects: Seq<Hittable>,
    n: int,
    ray: &Ray,
    t_min: Scalar,
    t_max: Scalar,
    r: Option<HitRecord>,
) -> bool
    decreases objects, n,
{
    if n <= 0 || n > objects.len() {
        r.is_none()
    } else {
        exists|before: Option<HitRecord>, now: Option<HitRecord>|
            may_hit_among(objects, n - 1, ray, t_min, t_max, before) && objects[n - 1].may_hit(
                ray,
                t_min,
                closest_so_far(before, t_max),
                now,
            ) && r == #[trigger] replaced_by(before, now)
    }
}

/// The merge of the boxes of the first `n` objects; none where one of them
/// has no box, or where `n` is zero.
pub open spec fn merged_box(objects: Seq<Hittable>, n: int, t0: Scalar, t1: Scalar) -> Option<AABB>
    decreases objects, n,
{
    if n <= 0 || n > objects.len() {
        None
    } else if n == 1 {
        objects[0].spec_bounding_box(t0, t1)
    } else {
        match (merged_box(objects, n - 1, t0, t1), objects[n - 1].spec_bounding_box(t0, t1)) {
            (Some(a), Some(b)) => Some(AABB::surrounding_box(a, b)),
            _ => None,
        }
    }
}

impl HitList {
    /// Whether hits depend on the ray alone: nothing inside draws at random.
    pub open spec fn deterministic(&self) -> bool
        decreases self,
    {
        all_deterministic(self.0@, self.0@.len() as int)
    }

    /// Tests every object and keeps the nearest hit.
    pub open spec fn spec_hit(&self, ray: &Ray, t_min: Scalar, t_max: Scalar) -> Option<HitRecord>
        decreases self,
    {
        closest_hit(self.0@, self.0@.len() as int, ray, t_min, t_max)
    }

    /// The hit that a stream of words gives, and how many of them it uses:
    /// that among all objects.
    pub open spec fn hit_from(
        &self,
        ray: &Ray,
        t_min: Scalar,
        t_max: Scalar,
        words: spec_fn(nat) -> u32,
    ) -> (Option<HitRecord>, nat)
        decreases self,
    {
        hit_among(self.0@, self.0@.len() as int, ray, t_min, t_max, words)
    }

    /// `r` is an answer that the objects can give together.
    pub open spec fn may_hit(&self, ray: &Ray, t_min: Scalar, t_max: Scalar, r: Option<HitRecord>) -> bool
        decreases self,
    {
        may_hit_among(self.0@, self.0@.len() as int, ray, t_min, t_max, r)
    }

    /// The merge of the boxes of all objects; none where the list is empty or
    /// an object has no box.
    pub open spec fn spec_bounding_box(&self, t0: Scalar, t1: Scalar) -> Option<AABB>
        decreases self,
    {
        merged_box(self.0@, self.0@.len() as int, t0, t1)
    }

    /// Tests every object and keeps the nearest hit.
    pub fn hit<'a>(
        &'a self,
        ray: &Ray,
        t_min: Scalar,
        t_max: Scalar,
        sampler: &mut Sampler,
    ) -> (r: Option<HitRecord<'a>>)
        ensures
            r == self.hit_from(ray, t_min, t_max, old(sampler).words()).0,
            final(sampler).follows(
                *old(sampler),
                self.hit_from(ray, t_min, t_max, old(sampler).words()).1,
            ),
            self.may_hit(ray, t_min, t_max, r),
            self.deterministic() ==> r == self.spec_hit(ray, t_min, t_max),
            self.deterministic() ==> final(sampler).follows(*old(sampler), 0),
            r matches Some(rec) ==> t_min@ < rec.t@ < t_max@,
        decreases self,
    {
        let mut found: Option<HitRecord<'a>> = None;
        let mut bound = t_max;
        let mut i: usize = 0;
        proof {
            lemma_skip_none(old(sampler).words());
        }
        while i < self.0.len()
            invariant
                i <= self.0.len(),
                bound == closest_so_far(found, t_max),
                found matches Some(rec) ==> t_min@ < rec.t@ < t_max@,
                may_hit_among(self.0@, i as int, ray, t_min, t_max, found),
                found == hit_among(self.0@, i as int, ray, t_min, t_max, old(sampler).words()).0,
                sampler.follows(
                    *old(sampler),
                    hit_among(self.0@, i as int, ray, t_min, t_max, old(sampler).words()).1,
                ),
                all_deterministic(self.0@, i as int) ==> sampler.follows(*old(sampler), 0),
                all_deterministic(self.0@, i as int) ==> found == closest_hit(
                    self.0@,
                    i as int,
                    ray,
                    t_min,
                    t_max,
                ),
            decreases self.0.len() - i,
        {
            let ghost before = found;
            let ghost used = hit_among(self.0@, i as int, ray, t_min, t_max, old(sampler).words()).1;
            let ghost left = sampler.words();
            let now = self.0[i].hit(ray, t_min, bound, sampler);
            proof {
                lemma_skip_adds(
                    old(sampler).words(),
                    used,
                    self.0@[i as int].hit_from(ray, t_min, bound, left).1,
                );
                lemma_skip_adds(old(sampler).words(), 0, 0);
            }
            match now {
                Some(rec) => {
                    bound = rec.t;
                    found = Some(rec);
                },
                None => {},
            }
            assert(found == replaced_by(before, now));
            i = i + 1;
        }
        found
    }

    /// The merge of the boxes of all objects; none where the list is empty or
    /// an object has no box.
    #[verifier::when_used_as_spec(spec_bounding_box)]
    pub fn bounding_box(&self, t0: Scalar, t1: Scalar) -> (r: Option<AABB>)
        ensures
            r == self.spec_bounding_box(t0, t1),
        decreases self,
    {
        if self.0.len() == 0 {
            return None;
        }
        let mut merged: Option<AABB> = self.0[0].bounding_box(t0, t1);
        let mut i: usize = 1;
        while i < self.0.len()
            invariant
                1 <= i <= self.0.len(),
                merged == merged_box(self.0@, i as int, t0, t1),
            decreases self.0.len() - i,
        {
            let next = self.0[i].bounding_box(t0, t1);
            merged = match (merged, next) {
                (Some(a), Some(b)) => Some(AABB::surrounding_box(a, b)),
                _ => None,
            };
            i = i + 1;
        }
        merged
    }
}

} // verus!
