//! A wrapper that turns the normals of what it wraps.

use crate::aabb::AABB;
use crate::hit::{HitRecord, Hittable};
use crate::random::Sampler;
use crate::ray::Ray;
use crate::scalar::Scalar;
use vstd::prelude::*;

verus! {

/// The wrapped object with every normal negated, which makes a rectangle face
/// the other way.
pub struct FlipNormals {
    pub hittable: Hittable,
}

/// The record with its normal negated and all else kept.
pub open spec fn spec_flipped<'a>(rec: HitRecord<'a>) -> HitRecord<'a> {
    HitRecord { normal: rec.normal.negate(), ..rec }
}

/// The record with its normal negated and all else kept.
#[verifier::when_used_as_spec(spec_flipped)]
pub fn flipped<'a>(rec: HitRecord<'a>) -> (r: HitRecord<'a>)
    ensures
        r == spec_flipped(rec),
{
    HitRecord { t: rec.t, p: rec.p, normal: rec.normal.negate(), u: rec.u, v: rec.v, mat: rec.mat }
}

/// The hit with its normal negated, where there is a hit.
pub open spec fn flipped_hit<'a>(inner: Option<HitRecord<'a>>) -> Option<HitRecord<'a>> {
    match inner {
        Some(rec) => Some(spec_flipped(rec)),
        None => None,
    }
}

impl FlipNormals {
    /// Whether hits depend on the ray alone: nothing inside draws at random.
    pub open spec fn deterministic(&self) -> bool
        decreases self,
    {
        self.hittable.deterministic()
    }

    /// The hit of the wrapped object, with the normal negated.
    pub open spec fn spec_hit(&self, ray: &Ray, t_min: Scalar, t_max: Scalar) -> Option<HitRecord>
        decreases self,
    {
        match self.hittable.spec_hit(ray, t_min, t_max) {
            Some(rec) => Some(flipped(rec)),
            None => None,
        }
    }

    /// The hit that a stream of words gives, and how many of them it uses:
    /// the hit of the wrapped object with the normal negated.
    pub open spec fn hit_from(
        &self,
        ray: &Ray,
        t_min: Scalar,
        t_max: Scalar,
        words: spec_fn(nat) -> u32,
    ) -> (Option<HitRecord>, nat)
        decreases self,
    {
        let (inner, used) = self.hittable.hit_from(ray, t_min, t_max, words);
        (flipped_hit(inner), used)
    }

    /// `r` is an answer of the wrapped object with the normal negated.
    pub open spec fn may_hit(&self, ray: &Ray, t_min: Scalar, t_max: Scalar, r: Option<HitRecord>) -> bool
        decreases self,
    {
        exists|inner: Option<HitRecord>|
            self.hittable.may_hit(ray, t_min, t_max, inner) && r == #[trigger] flipped_hit(inner)
    }

    /// The box of the wrapped object.
    pub open spec fn spec_bounding_box(&self, t0: Scalar, t1: Scalar) -> Option<AABB>
        decreases self,
    {
        self.hittable.spec_bounding_box(t0, t1)
    }

    /// The hit of the wrapped object, with the normal negated.
    pub fn hit<'a>(
        &'a self,
        ray: &Ray,
        t_min: Scalar,
        t_max: Scalar,
        sampler: &mut Sampler,
    ) -> (r: Option<HitRecord<'a>>)
        ensures
            r == self.hit_from(ray, t_min, t_max, old(sampler).words()).0,
            final(sampler).follows(
                *old(sampler),
                self.hit_from(ray, t_min, t_max, old(sampler).words()).1,
            ),
            self.may_hit(ray, t_min, t_max, r),
            self.deterministic() ==> r == self.spec_hit(ray, t_min, t_max),
            self.deterministic() ==> final(sampler).follows(*old(sampler), 0),
            r matches Some(rec) ==> t_min@ < rec.t@ < t_max@,
        decreases self,
    {
        let inner = self.hittable.hit(ray, t_min, t_max, sampler);
        let r = match inner {
            Some(rec) => Some(flipped(rec)),
            None => None,
        };
        assert(r == flipped_hit(inner));
        r
    }

    /// The box of the wrapped object.
    #[verifier::when_used_as_spec(spec_bounding_box)]
    pub fn bounding_box(&self, t0: Scalar, t1: Scalar) -> (r: Option<AABB>)
        ensures
            r == self.spec_bounding_box(t0, t1),
        decreases self,
    {
        self.hittable.bounding_box(t0, t1)
    }
}

} // verus!
