//! A wrapper that moves what it wraps.

use crate::aabb::AABB;
use crate::hit::{HitRecord, Hittable};
use crate::random::Sampler;
use crate::ray::Ray;
use crate::scalar::Scalar;
use crate::vec3::Vec3;
use vstd::prelude::*;

verus! {

/// The wrapped object moved by `offset`.
pub struct Translate {
    pub hittable: Hittable,
    pub offset: Vec3,
}

/// The record with its point moved by `offset` and all else kept.
pub open spec fn spec_moved<'a>(rec: HitRecord<'a>, offset: Vec3) -> HitRecord<'a> {
    HitRecord { p: rec.p.plus(offset), ..rec }
}

/// The record with its point moved by `offset` and all else kept.
#[verifier::when_used_as_spec(spec_moved)]
pub fn moved<'a>(rec: HitRecord<'a>, offset: Vec3) -> (r: HitRecord<'a>)
    ensures
        r == spec_moved(rec, offset),
{
    HitRecord { t: rec.t, p: rec.p.plus(offset), normal: rec.normal, u: rec.u, v: rec.v, mat: rec.mat }
}

/// The hit with its point moved by `offset`, where there is a hit.
pub open spec fn moved_hit<'a>(inner: Option<HitRecord<'a>>, offset: Vec3) -> Option<HitRecord<'a>> {
    match inner {
        Some(rec) => Some(spec_moved(rec, offset)),
        None => None,
    }
}

impl Translate {
    /// Whether hits depend on the ray alone: nothing inside draws at random.
    pub open spec fn deterministic(&self) -> bool
        decreases self,
    {
        self.hittable.deterministic()
    }

    /// The ray as the wrapped object sees it: the origin moved back by the
    /// offset.
    pub open spec fn spec_local_ray(&self, ray: &Ray) -> Ray {
        Ray { origin: ray.origin.minus(self.offset), direction: ray.direction, time: ray.time }
    }

    /// The ray as the wrapped object sees it: the origin moved back by the
    /// offset.
    #[verifier::when_used_as_spec(spec_local_ray)]
    pub fn local_ray(&self, ray: &Ray) -> (r: Ray)
        ensures
            r == self.spec_local_ray(ray),
    {
        Ray { origin: ray.origin.minus(self.offset), direction: ray.direction, time: ray.time }
    }

    /// The hit of the wrapped object with the ray moved back by the offset;
    /// the point of the hit, and not its normal, is moved forward again.
    pub open spec fn spec_hit(&self, ray: &Ray, t_min: Scalar, t_max: Scalar) -> Option<HitRecord>
        decreases self,
    {
        match self.hittable.spec_hit(&self.spec_local_ray(ray), t_min, t_max) {
            Some(rec) => Some(moved(rec, self.offset)),
            None => None,
        }
    }

    /// The hit that a stream of words gives, and how many of them it uses:
    /// the hit of the wrapped object with the ray moved back, with the point
    /// moved forward.
    pub open spec fn hit_from(
        &self,
        ray: &Ray,
        t_min: Scalar,
        t_max: Scalar,
        words: spec_fn(nat) -> u32,
    ) -> (Option<HitRecord>, nat)
        decreases self,
    {
        let (inner, used) = self.hittable.hit_from(&self.spec_local_ray(ray), t_min, t_max, words);
        (moved_hit(inner, self.offset), used)
    }

    /// `r` is an answer of the wrapped object to the ray moved back, with the
    /// point moved forward.
    pub open spec fn may_hit(&self, ray: &Ray, t_min: Scalar, t_max: Scalar, r: Option<HitRecord>) -> bool
        decreases self,
    {
        exists|inner: Option<HitRecord>|
            self.hittable.may_hit(&self.spec_local_ray(ray), t_min, t_max, inner) && r
                == #[trigger] moved_hit(inner, self.offset)
    }

    /// The box of the wrapped object, moved by the offset.
    pub open spec fn spec_bounding_box(&self, t0: Scalar, t1: Scalar) -> Option<AABB>
        decreases self,
    {
        match self.hittable.spec_bounding_box(t0, t1) {
            Some(b) => Some(AABB { min: b.min.plus(self.offset), max: b.max.plus(self.offset) }),
            None => None,
        }
    }

    /// The hit of the wrapped object with the ray moved back by the offset;
    /// the point of the hit, and not its normal, is moved forward again.
    pub fn hit<'a>(
        &'a self,
        ray: &Ray,
        t_min: Scalar,
        t_max: Scalar,
        sampler: &mut Sampler,
    ) -> (r: Option<HitRecord<'a>>)
        ensures
            r == self.hit_from(ray, t_min, t_max, old(sampler).words()).0,
            final(sampler).follows(
                *old(sampler),
                self.hit_from(ray, t_min, t_max, old(sampler).words()).1,
            ),
            self.may_hit(ray, t_min, t_max, r),
            self.deterministic() ==> r == self.spec_hit(ray, t_min, t_max),
            self.deterministic() ==> final(sampler).follows(*old(sampler), 0),
            r matches Some(rec) ==> t_min@ < rec.t@ < t_max@,
        decreases self,
    {
        let local = self.local_ray(ray);
        let inner = self.hittable.hit(&local, t_min, t_max, sampler);
        let r = match inner {
            Some(rec) => Some(moved(rec, self.offset)),
            None => None,
        };
        assert(r == moved_hit(inner, self.offset));
        r
    }

    /// The box of the wrapped object, moved by the offset.
    #[verifier::when_used_as_spec(spec_bounding_box)]
    pub fn bounding_box(&self, t0: Scalar, t1: Scalar) -> (r: Option<AABB>)
        ensures
            r == self.spec_bounding_box(t0, t1),
        decreases self,
    {
        match self.hittable.bounding_box(t0, t1) {
            Some(b) => Some(AABB { min: b.min.plus(self.offset), max: b.max.plus(self.offset) }),
            None => None,
        }
    }
}

} // verus!
