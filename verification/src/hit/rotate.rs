//! Wrappers that turn what they wrap about one of the coordinate axes.

use crate::aabb::AABB;
use crate::hit::rect::Axis;
use crate::hit::{HitRecord, Hittable};
use crate::math::{cos, radians, sin};
use crate::random::Sampler;
use crate::ray::Ray;
use crate::scalar::{Scalar, RAW_MAX};
use crate::vec3::Vec3;
use vstd::prelude::*;

verus! {

/// A rotation about `axis` by the angle whose cosine and sine are given. It
/// acts on the two coordinates other than that of the axis.
#[derive(Clone, Copy, Debug, PartialEq, Eq, Structural)]
pub struct Rotation {
    pub axis: Axis,
    pub cos_theta: Scalar,
    pub sin_theta: Scalar,
}

/// The pair `(a, b)` turned by the angle: `(cos a - sin b, sin a + cos b)`.
pub open spec fn spec_turned(a: Scalar, b: Scalar, cos_theta: Scalar, sin_theta: Scalar) -> (Scalar, Scalar) {
    (
        cos_theta.times(a).minus(sin_theta.times(b)),
        sin_theta.times(a).plus(cos_theta.times(b)),
    )
}

/// The pair `(a, b)` turned by the angle: `(cos a - sin b, sin a + cos b)`.
#[verifier::when_used_as_spec(spec_turned)]
pub fn turned(a: Scalar, b: Scalar, cos_theta: Scalar, sin_theta: Scalar) -> (r: (Scalar, Scalar))
    ensures
        r == spec_turned(a, b, cos_theta, sin_theta),
{
    (
        cos_theta.times(a).minus(sin_theta.times(b)),
        sin_theta.times(a).plus(cos_theta.times(b)),
    )
}

/// The pair `(a, b)` turned back by the angle:
/// `(cos a + sin b, -sin a + cos b)`.
pub open spec fn spec_turned_back(a: Scalar, b: Scalar, cos_theta: Scalar, sin_theta: Scalar) -> (Scalar, Scalar) {
    (
        cos_theta.times(a).plus(sin_theta.times(b)),
        sin_theta.negate().times(a).plus(cos_theta.times(b)),
    )
}

/// The pair `(a, b)` turned back by the angle:
/// `(cos a + sin b, -sin a + cos b)`.
#[verifier::when_used_as_spec(spec_turned_back)]
pub fn turned_back(a: Scalar, b: Scalar, cos_theta: Scalar, sin_theta: Scalar) -> (r: (Scalar, Scalar))
    ensures
        r == spec_turned_back(a, b, cos_theta, sin_theta),
{
    (
        cos_theta.times(a).plus(sin_theta.times(b)),
        sin_theta.negate().times(a).plus(cos_theta.times(b)),
    )
}

/// The hit as the world sees it, where there is a hit.
pub open spec fn world_hit<'a>(rotation: Rotation, inner: Option<HitRecord<'a>>) -> Option<
    HitRecord<'a>,
> {
    match inner {
        Some(rec) => Some(rotation.spec_world_record(rec)),
        None => None,
    }
}

impl Rotation {
    /// A vector of the world, as the wrapped object sees it.
    pub open spec fn spec_to_local(&self, v: Vec3) -> Vec3 {
        match self.axis {
            Axis::X => {
                let (y, z) = turned_back(v.y, v.z, self.cos_theta, self.sin_theta);
                Vec3 { x: v.x, y, z }
            },
            Axis::Y => {
                let (x, z) = turned(v.x, v.z, self.cos_theta, self.sin_theta);
                Vec3 { x, y: v.y, z }
            },
            Axis::Z => {
                let (x, y) = turned_back(v.x, v.y, self.cos_theta, self.sin_theta);
                Vec3 { x, y, z: v.z }
            },
        }
    }

    /// A vector of the world, as the wrapped object sees it.
    #[verifier::when_used_as_spec(spec_to_local)]
    pub fn to_local(&self, v: Vec3) -> (r: Vec3)
        ensures
            r == self.spec_to_local(v),
    {
        match self.axis {
            Axis::X => {
                let (y, z) = turned_back(v.y, v.z, self.cos_theta, self.sin_theta);
                Vec3 { x: v.x, y, z }
            },
            Axis::Y => {
                let (x, z) = turned(v.x, v.z, self.cos_theta, self.sin_theta);
                Vec3 { x, y: v.y, z }
            },
            Axis::Z => {
                let (x, y) = turned_back(v.x, v.y, self.cos_theta, self.sin_theta);
                Vec3 { x, y, z: v.z }
            },
        }
    }

    /// A vector of the wrapped object, as the world sees it.
    pub open spec fn spec_to_world(&self, v: Vec3) -> Vec3 {
        match self.axis {
            Axis::X => {
                let (y, z) = turned(v.y, v.z, self.cos_theta, self.sin_theta);
                Vec3 { x: v.x, y, z }
            },
            Axis::Y => {
                let (x, z) = turned_back(v.x, v.z, self.cos_theta, self.sin_theta);
                Vec3 { x, y: v.y, z }
            },
            Axis::Z => {
                let (x, y) = turned(v.x, v.y, self.cos_theta, self.sin_theta);
                Vec3 { x, y, z: v.z }
            },
        }
    }

    /// A vector of the wrapped object, as the world sees it.
    #[verifier::when_used_as_spec(spec_to_world)]
    pub fn to_world(&self, v: Vec3) -> (r: Vec3)
        ensures
            r == self.spec_to_world(v),
    {
        match self.axis {
            Axis::X => {
                let (y, z) = turned(v.y, v.z, self.cos_theta, self.sin_theta);
                Vec3 { x: v.x, y, z }
            },
            Axis::Y => {
                let (x, z) = turned_back(v.x, v.z, self.cos_theta, self.sin_theta);
                Vec3 { x, y: v.y, z }
            },
            Axis::Z => {
                let (x, y) = turned(v.x, v.y, self.cos_theta, self.sin_theta);
                Vec3 { x, y, z: v.z }
            },
        }
    }

    /// The ray as the wrapped object sees it: origin and direction are taken into
    /// its frame, the time is kept.
    pub open spec fn spec_local_ray(&self, ray: &Ray) -> Ray {
        Ray {
            origin: self.to_local(ray.origin),
            direction: self.to_local(ray.direction),
            time: ray.time,
        }
    }

    /// The ray as the wrapped object sees it: origin and direction are taken into
    /// its frame, the time is kept.
    #[verifier::when_used_as_spec(spec_local_ray)]
    pub fn local_ray(&self, ray: &Ray) -> (r: Ray)
        ensures
            r == self.spec_local_ray(ray),
    {
        Ray {
            origin: self.to_local(ray.origin),
            direction: self.to_local(ray.direction),
            time: ray.time,
        }
    }

    /// The record as the world sees it: point and normal are taken back into
    /// the world's frame, all else is kept.
    pub open spec fn spec_world_record<'a>(&self, rec: HitRecord<'a>) -> HitRecord<'a> {
        HitRecord { p: self.to_world(rec.p), normal: self.to_world(rec.normal), ..rec }
    }

    /// The record as the world sees it: point and normal are taken back into
    /// the world's frame, all else is kept.
    #[verifier::when_used_as_spec(spec_world_record)]
    pub fn world_record<'a>(&self, rec: HitRecord<'a>) -> (r: HitRecord<'a>)
        ensures
            r == self.spec_world_record(rec),
    {
        HitRecord {
            t: rec.t,
            p: self.to_world(rec.p),
            normal: self.to_world(rec.normal),
            u: rec.u,
            v: rec.v,
            mat: rec.mat,
        }
    }

    /// Corner `n` of the box, counted from 0 to 7, as the world sees it: the
    /// three lowest bits of `n` pick the upper face along `x`, `y` and `z`.
    pub open spec fn spec_world_corner(&self, bbox: AABB, n: usize) -> Vec3 {
        self.to_world(bbox.corner(n % 2 == 1, (n / 2) % 2 == 1, (n / 4) % 2 == 1))
    }

    /// The smallest box that holds the first `n` corners of `bbox` as the
    /// world sees them.
    pub open spec fn enclosing(&self, bbox: AABB, n: nat) -> AABB
        decreases n,
    {
        if n == 0 {
            AABB {
                min: Vec3::splat(Scalar { raw: RAW_MAX }),
                max: Vec3::splat(Scalar { raw: RAW_MAX }.negate()),
            }
        } else {
            let before = self.enclosing(bbox, (n - 1) as nat);
            let corner = self.spec_world_corner(bbox, (n - 1) as usize);
            AABB { min: corner.min(before.min), max: corner.max(before.max) }
        }
    }

    /// The box of the turned object: the smallest axis-aligned box that holds
    /// all eight corners of the object's own box after they are turned. It
    /// may be loose, but it holds each of them.
    pub open spec fn spec_compute_bbox(&self, bbox: AABB) -> AABB {
        self.enclosing(bbox, 8)
    }

    /// The box of the turned object: the smallest axis-aligned box that holds
    /// all eight corners of the object's own box after they are turned. It
    /// may be loose, but it holds each of them.
    #[verifier::when_used_as_spec(spec_compute_bbox)]
    pub fn compute_bbox(&self, bbox: AABB) -> (r: AABB)
        ensures
            r == self.spec_compute_bbox(bbox),
            forall|upper_x: bool, upper_y: bool, upper_z: bool|
                r.contains(self.to_world(#[trigger] bbox.corner(upper_x, upper_y, upper_z))),
    {
        let mut min = Vec3::splat(Scalar { raw: RAW_MAX });
        let mut max = Vec3::splat(Scalar { raw: RAW_MAX }.negate());
        let mut n: usize = 0;
        while n < 8
            invariant
                n <= 8,
                (AABB { min, max }) == self.enclosing(bbox, n as nat),
            decreases 8 - n,
        {
            let corner = AABB::corner_of(&bbox, n % 2 == 1, (n / 2) % 2 == 1, (n / 4) % 2 == 1);
            let tester = self.to_world(corner);
            max = tester.max(max);
            min = tester.min(min);
            n = n + 1;
        }
        proof {
            self.lemma_enclosing_contains(bbox);
        }
        AABB { min, max }
    }

    /// The box over all eight corners holds every one of the turned corners.
    #[verifier::rlimit(50)]
    proof fn lemma_enclosing_contains(&self, bbox: AABB)
        ensures
            forall|upper_x: bool, upper_y: bool, upper_z: bool|
                self.enclosing(bbox, 8).contains(
                    self.to_world(#[trigger] bbox.corner(upper_x, upper_y, upper_z)),
                ),
    {
        assert forall|upper_x: bool, upper_y: bool, upper_z: bool|
            self.enclosing(bbox, 8).contains(
                self.to_world(#[trigger] bbox.corner(upper_x, upper_y, upper_z)),
            ) by {
            let n: usize = ((if upper_x { 1int } else { 0int }) + (if upper_y { 2int } else { 0int })
                + (if upper_z { 4int } else { 0int })) as usize;
            self.lemma_enclosing_keeps(bbox, n, 8);
        }
    }

    /// A corner that the box over the first `m` corners takes in stays in it.
    proof fn lemma_enclosing_keeps(&self, bbox: AABB, n: usize, m: nat)
        requires
            n < m,
        ensures
            self.enclosing(bbox, m).contains(self.spec_world_corner(bbox, n)),
        decreases m,
    {
        if n + 1 < m {
            self.lemma_enclosing_keeps(bbox, n, (m - 1) as nat);
        }
    }
}

/// The wrapped object turned about the `y` axis. The sine and cosine
/// of the angle and the box of the turned object are computed once, when the
/// wrapper is made.
pub struct RotateY<T> {
    pub hittable: T,
    pub sin_theta: Scalar,
    pub cos_theta: Scalar,
    pub bbox: Option<AABB>,
}

impl RotateY<Hittable> {
    /// The rotation that takes the wrapped object into the world.
    pub open spec fn spec_rotation(&self) -> Rotation {
        Rotation { axis: Axis::Y, cos_theta: self.cos_theta, sin_theta: self.sin_theta }
    }

    /// The rotation that takes the wrapped object into the world.
    #[verifier::when_used_as_spec(spec_rotation)]
    pub fn rotation(&self) -> (r: Rotation)
        ensures
            r == self.spec_rotation(),
    {
        Rotation { axis: Axis::Y, cos_theta: self.cos_theta, sin_theta: self.sin_theta }
    }

    /// Wraps `hittable`, turned by `angle` degrees. The box is computed once,
    /// from the object's box over the time interval `[0, 1]`.
    pub open spec fn spec_new(hittable: Hittable, angle: Scalar) -> Self {
        let sin_theta = sin(radians(angle));
        let cos_theta = cos(radians(angle));
        Self {
            hittable,
            sin_theta,
            cos_theta,
            bbox: match hittable.spec_bounding_box(Scalar::zero(), Scalar::one()) {
                Some(b) => Some(
                    Rotation { axis: Axis::Y, cos_theta, sin_theta }.compute_bbox(b),
                ),
                None => None,
            },
        }
    }

    /// Wraps `hittable`, turned by `angle` degrees. The box is computed once,
    /// from the object's box over the time interval `[0, 1]`.
    #[verifier::when_used_as_spec(spec_new)]
    pub fn new(hittable: Hittable, angle: Scalar) -> (r: Self)
        ensures
            r == Self::spec_new(hittable, angle),
    {
        let theta = radians(angle);
        let sin_theta = sin(theta);
        let cos_theta = cos(theta);
        let rotation = Rotation { axis: Axis::Y, cos_theta, sin_theta };
        let bbox = match hittable.bounding_box(Scalar::zero(), Scalar::one()) {
            Some(b) => Some(rotation.compute_bbox(b)),
            None => None,
        };
        Self { hittable, sin_theta, cos_theta, bbox }
    }

    /// Whether hits depend on the ray alone: nothing inside draws at random.
    pub open spec fn deterministic(&self) -> bool
        decreases self,
    {
        self.hittable.deterministic()
    }

    /// The hit of the wrapped object with the ray taken into its frame; point
    /// and normal of the hit are taken back into the world's frame.
    pub open spec fn spec_hit(&self, ray: &Ray, t_min: Scalar, t_max: Scalar) -> Option<HitRecord>
        decreases self,
    {
        match self.hittable.spec_hit(&self.spec_rotation().local_ray(ray), t_min, t_max) {
            Some(rec) => Some(self.spec_rotation().world_record(rec)),
            None => None,
        }
    }

    /// The hit that a stream of words gives, and how many of them it uses:
    /// the hit of the wrapped object with the ray in its frame, taken back
    /// into the world's frame.
    pub open spec fn hit_from(
        &self,
        ray: &Ray,
        t_min: Scalar,
        t_max: Scalar,
        words: spec_fn(nat) -> u32,
    ) -> (Option<HitRecord>, nat)
        decreases self,
    {
        let (inner, used) = self.hittable.hit_from(
            &self.spec_rotation().local_ray(ray),
            t_min,
            t_max,
            words,
        );
        (world_hit(self.spec_rotation(), inner), used)
    }

    /// `r` is an answer of the wrapped object to the ray in its frame, taken
    /// back into the world's frame.
    pub open spec fn may_hit(&self, ray: &Ray, t_min: Scalar, t_max: Scalar, r: Option<HitRecord>) -> bool
        decreases self,
    {
        exists|inner: Option<HitRecord>|
            self.hittable.may_hit(&self.spec_rotation().local_ray(ray), t_min, t_max, inner) && r
                == #[trigger] world_hit(self.spec_rotation(), inner)
    }

    /// The box that was computed when the wrapper was made, whatever the
    /// time interval.
    pub open spec fn spec_bounding_box(&self, t0: Scalar, t1: Scalar) -> Option<AABB> {
        self.bbox
    }

    /// The hit of the wrapped object with the ray taken into its frame; point
    /// and normal of the hit are taken back into the world's frame.
    pub fn hit<'a>(
        &'a self,
        ray: &Ray,
        t_min: Scalar,
        t_max: Scalar,
        sampler: &mut Sampler,
    ) -> (r: Option<HitRecord<'a>>)
        ensures
            r == self.hit_from(ray, t_min, t_max, old(sampler).words()).0,
            final(sampler).follows(
                *old(sampler),
                self.hit_from(ray, t_min, t_max, old(sampler).words()).1,
            ),
            self.may_hit(ray, t_min, t_max, r),
            self.deterministic() ==> r == self.spec_hit(ray, t_min, t_max),
            self.deterministic() ==> final(sampler).follows(*old(sampler), 0),
            r matches Some(rec) ==> t_min@ < rec.t@ < t_max@,
        decreases self,
    {
        let rotation = self.rotation();
        let rotated_ray = rotation.local_ray(ray);
        let inner = self.hittable.hit(&rotated_ray, t_min, t_max, sampler);
        let r = match inner {
            Some(rec) => Some(rotation.world_record(rec)),
            None => None,
        };
        assert(r == world_hit(rotation, inner));
        r
    }

    /// The box that was computed when the wrapper was made, whatever the
    /// time interval.
    #[verifier::when_used_as_spec(spec_bounding_box)]
    pub fn bounding_box(&self, t0: Scalar, t1: Scalar) -> (r: Option<AABB>)
        ensures
            r == self.spec_bounding_box(t0, t1),
    {
        self.bbox
    }
}

/// The wrapped object turned about the `x` axis. The sine and cosine
/// of the angle and the box of the turned object are computed once, when the
/// wrapper is made.
pub struct RotateX<T> {
    pub hittable: T,
    pub sin_theta: Scalar,
    pub cos_theta: Scalar,
    pub bbox: Option<AABB>,
}

impl RotateX<Hittable> {
    /// The rotation that takes the wrapped object into the world.
    pub open spec fn spec_rotation(&self) -> Rotation {
        Rotation { axis: Axis::X, cos_theta: self.cos_theta, sin_theta: self.sin_theta }
    }

    /// The rotation that takes the wrapped object into the world.
    #[verifier::when_used_as_spec(spec_rotation)]
    pub fn rotation(&self) -> (r: Rotation)
        ensures
            r == self.spec_rotation(),
    {
        Rotation { axis: Axis::X, cos_theta: self.cos_theta, sin_theta: self.sin_theta }
    }

    /// Wraps `hittable`, turned by `angle` degrees. The box is computed once,
    /// from the object's box over the time interval `[0, 1]`.
    pub open spec fn spec_new(hittable: Hittable, angle: Scalar) -> Self {
        let sin_theta = sin(radians(angle));
        let cos_theta = cos(radians(angle));
        Self {
            hittable,
            sin_theta,
            cos_theta,
            bbox: match hittable.spec_bounding_box(Scalar::zero(), Scalar::one()) {
                Some(b) => Some(
                    Rotation { axis: Axis::X, cos_theta, sin_theta }.compute_bbox(b),
                ),
                None => None,
            },
        }
    }

    /// Wraps `hittable`, turned by `angle` degrees. The box is computed once,
    /// from the object's box over the time interval `[0, 1]`.
    #[verifier::when_used_as_spec(spec_new)]
    pub fn new(hittable: Hittable, angle: Scalar) -> (r: Self)
        ensures
            r == Self::spec_new(hittable, angle),
    {
        let theta = radians(angle);
        let sin_theta = sin(theta);
        let cos_theta = cos(theta);
        let rotation = Rotation { axis: Axis::X, cos_theta, sin_theta };
        let bbox = match hittable.bounding_box(Scalar::zero(), Scalar::one()) {
            Some(b) => Some(rotation.compute_bbox(b)),
            None => None,
        };
        Self { hittable, sin_theta, cos_theta, bbox }
    }

    /// Whether hits depend on the ray alone: nothing inside draws at random.
    pub open spec fn deterministic(&self) -> bool
        decreases self,
    {
        self.hittable.deterministic()
    }

    /// The hit of the wrapped object with the ray taken into its frame; point
    /// and normal of the hit are taken back into the world's frame.
    pub open spec fn spec_hit(&self, ray: &Ray, t_min: Scalar, t_max: Scalar) -> Option<HitRecord>
        decreases self,
    {
        match self.hittable.spec_hit(&self.spec_rotation().local_ray(ray), t_min, t_max) {
            Some(rec) => Some(self.spec_rotation().world_record(rec)),
            None => None,
        }
    }

    /// The hit that a stream of words gives, and how many of them it uses:
    /// the hit of the wrapped object with the ray in its frame, taken back
    /// into the world's frame.
    pub open spec fn hit_from(
        &self,
        ray: &Ray,
        t_min: Scalar,
        t_max: Scalar,
        words: spec_fn(nat) -> u32,
    ) -> (Option<HitRecord>, nat)
        decreases self,
    {
        let (inner, used) = self.hittable.hit_from(
            &self.spec_rotation().local_ray(ray),
            t_min,
            t_max,
            words,
        );
        (world_hit(self.spec_rotation(), inner), used)
    }

    /// `r` is an answer of the wrapped object to the ray in its frame, taken
    /// back into the world's frame.
    pub open spec fn may_hit(&self, ray: &Ray, t_min: Scalar, t_max: Scalar, r: Option<HitRecord>) -> bool
        decreases self,
    {
        exists|inner: Option<HitRecord>|
            self.hittable.may_hit(&self.spec_rotation().local_ray(ray), t_min, t_max, inner) && r
                == #[trigger] world_hit(self.spec_rotation(), inner)
    }

    /// The box that was computed when the wrapper was made, whatever the
    /// time interval.
    pub open spec fn spec_bounding_box(&self, t0: Scalar, t1: Scalar) -> Option<AABB> {
        self.bbox
    }

    /// The hit of the wrapped object with the ray taken into its frame; point
    /// and normal of the hit are taken back into the world's frame.
    pub fn hit<'a>(
        &'a self,
        ray: &Ray,
        t_min: Scalar,
        t_max: Scalar,
        sampler: &mut Sampler,
    ) -> (r: Option<HitRecord<'a>>)
        ensures
            r == self.hit_from(ray, t_min, t_max, old(sampler).words()).0,
            final(sampler).follows(
                *old(sampler),
                self.hit_from(ray, t_min, t_max, old(sampler).words()).1,
            ),
            self.may_hit(ray, t_min, t_max, r),
            self.deterministic() ==> r == self.spec_hit(ray, t_min, t_max),
            self.deterministic() ==> final(sampler).follows(*old(sampler), 0),
            r matches Some(rec) ==> t_min@ < rec.t@ < t_max@,
        decreases self,
    {
        let rotation = self.rotation();
        let rotated_ray = rotation.local_ray(ray);
        let inner = self.hittable.hit(&rotated_ray, t_min, t_max, sampler);
        let r = match inner {
            Some(rec) => Some(rotation.world_record(rec)),
            None => None,
        };
        assert(r == world_hit(rotation, inner));
        r
    }

    /// The box that was computed when the wrapper was made, whatever the
    /// time interval.
    #[verifier::when_used_as_spec(spec_bounding_box)]
    pub fn bounding_box(&self, t0: Scalar, t1: Scalar) -> (r: Option<AABB>)
        ensures
            r == self.spec_bounding_box(t0, t1),
    {
        self.bbox
    }
}

/// The wrapped object turned about the `z` axis. The sine and cosine
/// of the angle and the box of the turned object are computed once, when the
/// wrapper is made.
pub struct RotateZ<T> {
    pub hittable: T,
    pub sin_theta: Scalar,
    pub cos_theta: Scalar,
    pub bbox: Option<AABB>,
}

impl RotateZ<Hittable> {
    /// The rotation that takes the wrapped object into the world.
    pub open spec fn spec_rotation(&self) -> Rotation {
        Rotation { axis: Axis::Z, cos_theta: self.cos_theta, sin_theta: self.sin_theta }
    }

    /// The rotation that takes the wrapped object into the world.
    #[verifier::when_used_as_spec(spec_rotation)]
    pub fn rotation(&self) -> (r: Rotation)
        ensures
            r == self.spec_rotation(),
    {
        Rotation { axis: Axis::Z, cos_theta: self.cos_theta, sin_theta: self.sin_theta }
    }

    /// Wraps `hittable`, turned by `angle` degrees. The box is computed once,
    /// from the object's box over the time interval `[0, 1]`.
    pub open spec fn spec_new(hittable: Hittable, angle: Scalar) -> Self {
        let sin_theta = sin(radians(angle));
        let cos_theta = cos(radians(angle));
        Self {
            hittable,
            sin_theta,
            cos_theta,
            bbox: match hittable.spec_bounding_box(Scalar::zero(), Scalar::one()) {
                Some(b) => Some(
                    Rotation { axis: Axis::Z, cos_theta, sin_theta }.compute_bbox(b),
                ),
                None => None,
            },
        }
    }

    /// Wraps `hittable`, turned by `angle` degrees. The box is computed once,
    /// from the object's box over the time interval `[0, 1]`.
    #[verifier::when_used_as_spec(spec_new)]
    pub fn new(hittable: Hittable, angle: Scalar) -> (r: Self)
        ensures
            r == Self::spec_new(hittable, angle),
    {
        let theta = radians(angle);
        let sin_theta = sin(theta);
        let cos_theta = cos(theta);
        let rotation = Rotation { axis: Axis::Z, cos_theta, sin_theta };
        let bbox = match hittable.bounding_box(Scalar::zero(), Scalar::one()) {
            Some(b) => Some(rotation.compute_bbox(b)),
            None => None,
        };
        Self { hittable, sin_theta, cos_theta, bbox }
    }

    /// Whether hits depend on the ray alone: nothing inside draws at random.
    pub open spec fn deterministic(&self) -> bool
        decreases self,
    {
        self.hittable.deterministic()
    }

    /// The hit of the wrapped object with the ray taken into its frame; point
    /// and normal of the hit are taken back into the world's frame.
    pub open spec fn spec_hit(&self, ray: &Ray, t_min: Scalar, t_max: Scalar) -> Option<HitRecord>
        decreases self,
    {
        match self.hittable.spec_hit(&self.spec_rotation().local_ray(ray), t_min, t_max) {
            Some(rec) => Some(self.spec_rotation().world_record(rec)),
            None => None,
        }
    }

    /// The hit that a stream of words gives, and how many of them it uses:
    /// the hit of the wrapped object with the ray in its frame, taken back
    /// into the world's frame.
    pub open spec fn hit_from(
        &self,
        ray: &Ray,
        t_min: Scalar,
        t_max: Scalar,
        words: spec_fn(nat) -> u32,
    ) -> (Option<HitRecord>, nat)
        decreases self,
    {
        let (inner, used) = self.hittable.hit_from(
            &self.spec_rotation().local_ray(ray),
            t_min,
            t_max,
            words,
        );
        (world_hit(self.spec_rotation(), inner), used)
    }

    /// `r` is an answer of the wrapped object to the ray in its frame, taken
    /// back into the world's frame.
    pub open spec fn may_hit(&self, ray: &Ray, t_min: Scalar, t_max: Scalar, r: Option<HitRecord>) -> bool
        decreases self,
    {
        exists|inner: Option<HitRecord>|
            self.hittable.may_hit(&self.spec_rotation().local_ray(ray), t_min, t_max, inner) && r
                == #[trigger] world_hit(self.spec_rotation(), inner)
    }

    /// The box that was computed when the wrapper was made, whatever the
    /// time interval.
    pub open spec fn spec_bounding_box(&self, t0: Scalar, t1: Scalar) -> Option<AABB> {
        self.bbox
    }

    /// The hit of the wrapped object with the ray taken into its frame; point
    /// and normal of the hit are taken back into the world's frame.
    pub fn hit<'a>(
        &'a self,
        ray: &Ray,
        t_min: Scalar,
        t_max: Scalar,
        sampler: &mut Sampler,
    ) -> (r: Option<HitRecord<'a>>)
        ensures
            r == self.hit_from(ray, t_min, t_max, old(sampler).words()).0,
            final(sampler).follows(
                *old(sampler),
                self.hit_from(ray, t_min, t_max, old(sampler).words()).1,
            ),
            self.may_hit(ray, t_min, t_max, r),
            self.deterministic() ==> r == self.spec_hit(ray, t_min, t_max),
            self.deterministic() ==> final(sampler).follows(*old(sampler), 0),
            r matches Some(rec) ==> t_min@ < rec.t@ < t_max@,
        decreases self,
    {
        let rotation = self.rotation();
        let rotated_ray = rotation.local_ray(ray);
        let inner = self.hittable.hit(&rotated_ray, t_min, t_max, sampler);
        let r = match inner {
            Some(rec) => Some(rotation.world_record(rec)),
            None => None,
        };
        assert(r == world_hit(rotation, inner));
        r
    }

    /// The box that was computed when the wrapper was made, whatever the
    /// time interval.
    #[verifier::when_used_as_spec(spec_bounding_box)]
    pub fn bounding_box(&self, t0: Scalar, t1: Scalar) -> (r: Option<AABB>)
        ensures
            r == self.spec_bounding_box(t0, t1),
    {
        self.bbox
    }
}

} // verus!
