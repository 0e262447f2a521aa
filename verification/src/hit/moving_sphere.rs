//! Spheres in linear motion.

use crate::aabb::AABB;
use crate::hit::sphere::{root_in_range, sphere_roots};
use crate::hit::HitRecord;
use crate::material::Material;
use crate::ray::Ray;
use crate::scalar::{lemma_times_zero, Scalar};
use crate::vec3::Vec3;
use vstd::prelude::*;

verus! {

/// A sphere whose centre moves in a straight line, from `center0` at `time0`
/// to `center1` at `time1`.
pub struct MovingSphere<T> {
    pub center0: Vec3,
    pub center1: Vec3,
    pub time0: Scalar,
    pub time1: Scalar,
    pub radius: Scalar,
    pub material: T,
}

impl MovingSphere<Material> {
    /// The centre at `time`:
    /// `center0 + ((time - time0) / (time1 - time0)) (center1 - center0)`.
    pub open spec fn spec_center(&self, time: Scalar) -> Vec3 {
        self.center0.plus(
            self.center1.minus(self.center0).scale(
                time.minus(self.time0).over(self.time1.minus(self.time0)),
            ),
        )
    }

    /// The centre at `time`:
    /// `center0 + ((time - time0) / (time1 - time0)) (center1 - center0)`.
    #[verifier::when_used_as_spec(spec_center)]
    pub fn center(&self, time: Scalar) -> (c: Vec3)
        ensures
            c == self.spec_center(time),
    {
        self.center0.plus(
            self.center1.minus(self.center0).scale(
                time.minus(self.time0).over(self.time1.minus(self.time0)),
            ),
        )
    }

    /// The record of the hit at parameter `t`: the outward normal is the
    /// offset from the centre at the ray's time divided by the radius; the
    /// surface coordinates are zero.
    pub open spec fn record_at(&self, ray: &Ray, t: Scalar) -> HitRecord {
        let p = ray.point_at_parameter(t);
        HitRecord {
            t,
            p,
            normal: p.minus(self.center(ray.time)).shrink(self.radius),
            u: Scalar::zero(),
            v: Scalar::zero(),
            mat: &self.material,
        }
    }

    /// The nearest point at which `ray` meets the sphere, where the sphere is
    /// at the time of the ray, with a parameter strictly between `t_min` and
    /// `t_max`.
    pub open spec fn spec_hit(&self, ray: &Ray, t_min: Scalar, t_max: Scalar) -> Option<HitRecord> {
        match root_in_range(
            sphere_roots(ray.origin.minus(self.center(ray.time)), ray.direction, self.radius),
            t_min,
            t_max,
        ) {
            Some(t) => Some(self.record_at(ray, t)),
            None => None,
        }
    }

    /// The cube of half-width `radius` about the centre at `time`.
    pub open spec fn spec_box_at(&self, time: Scalar) -> AABB {
        AABB {
            min: self.center(time).minus(Vec3::splat(self.radius)),
            max: self.center(time).plus(Vec3::splat(self.radius)),
        }
    }

    /// The cube of half-width `radius` about the centre at `time`.
    #[verifier::when_used_as_spec(spec_box_at)]
    pub fn box_at(&self, time: Scalar) -> (b: AABB)
        ensures
            b == self.spec_box_at(time),
    {
        AABB {
            min: self.center(time).minus(Vec3::splat(self.radius)),
            max: self.center(time).plus(Vec3::splat(self.radius)),
        }
    }

    /// The merge of the boxes of the sphere at the two ends of the interval.
    pub open spec fn spec_bounding_box(&self, t0: Scalar, t1: Scalar) -> Option<AABB> {
        Some(AABB::surrounding_box(self.box_at(t0), self.box_at(t1)))
    }

    /// The nearest point at which `ray` meets the sphere, where the sphere is
    /// at the time of the ray, with a parameter strictly between `t_min` and
    /// `t_max`.
    pub fn hit<'a>(&'a self, ray: &Ray, t_min: Scalar, t_max: Scalar) -> (r: Option<HitRecord<'a>>)
        ensures
            r == self.spec_hit(ray, t_min, t_max),
            r matches Some(rec) ==> t_min@ < rec.t@ < t_max@,
    {
        let center = self.center(ray.time);
        let roots = sphere_roots(ray.origin.minus(center), ray.direction, self.radius);
        match root_in_range(roots, t_min, t_max) {
            Some(t) => {
                let p = ray.point_at_parameter(t);
                Some(
                    HitRecord {
                        t,
                        p,
                        normal: p.minus(center).shrink(self.radius),
                        u: Scalar::zero(),
                        v: Scalar::zero(),
                        mat: &self.material,
                    },
                )
            },
            None => None,
        }
    }

    /// The merge of the boxes of the sphere at the two ends of the interval.
    #[verifier::when_used_as_spec(spec_bounding_box)]
    pub fn bounding_box(&self, t0: Scalar, t1: Scalar) -> (r: Option<AABB>)
        ensures
            r == self.spec_bounding_box(t0, t1),
    {
        Some(AABB::surrounding_box(self.box_at(t0), self.box_at(t1)))
    }
}

/// A sphere whose two centres both lie at the origin rests there at every
/// time, so that it is hit as the sphere at rest is: see
/// [`crate::hit::sphere::lemma_round_trip_through_the_centre`].
pub proof fn lemma_resting_at_the_origin(s: MovingSphere<Material>, time: Scalar)
    requires
        s.center0 == Vec3::splat(Scalar::zero()),
        s.center1 == Vec3::splat(Scalar::zero()),
    ensures
        s.center(time) == Vec3::splat(Scalar::zero()),
{
    lemma_times_zero(time.minus(s.time0).over(s.time1.minus(s.time0)));
}

} // verus!
