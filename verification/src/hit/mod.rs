//! The intersection protocol: what a ray can hit, and what a hit records.

pub mod answers;
pub mod bvh;
pub mod constant_medium;
pub mod equivalence;
pub mod flip_normals;
pub mod hit_box;
pub mod hit_list;
pub mod moving_sphere;
pub mod rect;
pub mod rotate;
pub mod sphere;
pub mod translate;

use crate::aabb::AABB;
use crate::hit::bvh::BVHNode;
use crate::hit::constant_medium::ConstantMedium;
use crate::hit::flip_normals::FlipNormals;
use crate::hit::hit_box::HitBox;
use crate::hit::hit_list::HitList;
use crate::hit::moving_sphere::MovingSphere;
use crate::hit::rect::{XYRect, XZRect, YZRect};
use crate::hit::rotate::{RotateX, RotateY, RotateZ};
use crate::hit::sphere::Sphere;
use crate::hit::translate::Translate;
use crate::material::Material;
use crate::random::{lemma_skip_none, Sampler};
use crate::ray::Ray;
use crate::scalar::Scalar;
use crate::vec3::Vec3;
use vstd::prelude::*;

verus! {

/// What a successful intersection test reports: the ray parameter `t`, the
/// point `p` reached there, the surface normal, the surface coordinates
/// `(u, v)` and the material of the surface.
pub struct HitRecord<'a> {
    pub t: Scalar,
    pub p: Vec3,
    pub normal: Vec3,
    pub u: Scalar,
    pub v: Scalar,
    pub mat: &'a Material,
}

/// The geometry of a hit, before a material is attached to it.
#[derive(Clone, Copy, Debug, PartialEq, Eq, Structural)]
pub struct Surface {
    pub t: Scalar,
    pub p: Vec3,
    pub normal: Vec3,
    pub u: Scalar,
    pub v: Scalar,
}

impl Surface {
    /// The record of a hit on this surface of the given material.
    pub open spec fn spec_on<'a>(self, mat: &'a Material) -> HitRecord<'a> {
        HitRecord { t: self.t, p: self.p, normal: self.normal, u: self.u, v: self.v, mat }
    }

    /// The record of a hit on this surface of the given material.
    #[verifier::when_used_as_spec(spec_on)]
    pub fn on<'a>(self, mat: &'a Material) -> (r: HitRecord<'a>)
        ensures
            r == self.spec_on(mat),
    {
        HitRecord { t: self.t, p: self.p, normal: self.normal, u: self.u, v: self.v, mat }
    }

    /// The surface with its normal negated.
    pub open spec fn spec_flipped(self) -> Surface {
        Surface { normal: self.normal.negate(), ..self }
    }

    /// The surface with its normal negated.
    #[verifier::when_used_as_spec(spec_flipped)]
    pub fn flipped(self) -> (s: Surface)
        ensures
            s == self.spec_flipped(),
    {
        Surface { t: self.t, p: self.p, normal: self.normal.negate(), u: self.u, v: self.v }
    }
}

/// The closed set of things a ray can hit: primitives, and combinators that
/// wrap others.
pub enum Hittable {
    Sphere(Sphere),
    MovingSphere(MovingSphere<Material>),
    XYRect(XYRect),
    XZRect(XZRect),
    YZRect(YZRect),
    HitBox(HitBox),
    FlipNormals(Box<FlipNormals>),
    Translate(Box<Translate>),
    RotateX(Box<RotateX<Hittable>>),
    RotateY(Box<RotateY<Hittable>>),
    RotateZ(Box<RotateZ<Hittable>>),
    ConstantMedium(Box<ConstantMedium>),
    HitList(HitList),
    BVHNode(Box<BVHNode>),
}

impl Hittable {
    /// Whether hits depend on the ray alone. Only a participating medium
    /// draws at random while it is hit.
    pub open spec fn deterministic(&self) -> bool
        decreases self,
    {
        match self {
            Hittable::Sphere(h) => true,
            Hittable::MovingSphere(h) => true,
            Hittable::XYRect(h) => true,
            Hittable::XZRect(h) => true,
            Hittable::YZRect(h) => true,
            Hittable::HitBox(h) => true,
            Hittable::FlipNormals(h) => h.deterministic(),
            Hittable::Translate(h) => h.deterministic(),
            Hittable::RotateX(h) => h.deterministic(),
            Hittable::RotateY(h) => h.deterministic(),
            Hittable::RotateZ(h) => h.deterministic(),
            Hittable::ConstantMedium(h) => false,
            Hittable::HitList(h) => h.deterministic(),
            Hittable::BVHNode(h) => h.deterministic(),
        }
    }

    /// The hit of `ray` with parameter strictly between `t_min` and `t_max`,
    /// if there is one. For objects that are not deterministic this fixes
    /// nothing.
    pub open spec fn spec_hit(&self, ray: &Ray, t_min: Scalar, t_max: Scalar) -> Option<HitRecord>
        decreases self,
    {
        match self {
            Hittable::Sphere(h) => h.spec_hit(ray, t_min, t_max),
            Hittable::MovingSphere(h) => h.spec_hit(ray, t_min, t_max),
            Hittable::XYRect(h) => h.spec_hit(ray, t_min, t_max),
            Hittable::XZRect(h) => h.spec_hit(ray, t_min, t_max),
            Hittable::YZRect(h) => h.spec_hit(ray, t_min, t_max),
            Hittable::HitBox(h) => h.spec_hit(ray, t_min, t_max),
            Hittable::FlipNormals(h) => h.spec_hit(ray, t_min, t_max),
            Hittable::Translate(h) => h.spec_hit(ray, t_min, t_max),
            Hittable::RotateX(h) => h.spec_hit(ray, t_min, t_max),
            Hittable::RotateY(h) => h.spec_hit(ray, t_min, t_max),
            Hittable::RotateZ(h) => h.spec_hit(ray, t_min, t_max),
            Hittable::ConstantMedium(h) => None,
            Hittable::HitList(h) => h.spec_hit(ray, t_min, t_max),
            Hittable::BVHNode(h) => h.spec_hit(ray, t_min, t_max),
        }
    }

    /// The hit that a stream of words gives, and how many of them finding it
    /// uses. A primitive uses none; a participating medium uses one where
    /// the ray enters and leaves it; a wrapper or a collection uses what the
    /// objects that it holds use, each from where the one before has left off.
    pub open spec fn hit_from(
        &self,
        ray: &Ray,
        t_min: Scalar,
        t_max: Scalar,
        words: spec_fn(nat) -> u32,
    ) -> (Option<HitRecord>, nat)
        decreases self,
    {
        match self {
            Hittable::Sphere(h) => (h.spec_hit(ray, t_min, t_max), 0),
            Hittable::MovingSphere(h) => (h.spec_hit(ray, t_min, t_max), 0),
            Hittable::XYRect(h) => (h.spec_hit(ray, t_min, t_max), 0),
            Hittable::XZRect(h) => (h.spec_hit(ray, t_min, t_max), 0),
            Hittable::YZRect(h) => (h.spec_hit(ray, t_min, t_max), 0),
            Hittable::HitBox(h) => (h.spec_hit(ray, t_min, t_max), 0),
            Hittable::FlipNormals(h) => h.hit_from(ray, t_min, t_max, words),
            Hittable::Translate(h) => h.hit_from(ray, t_min, t_max, words),
            Hittable::RotateX(h) => h.hit_from(ray, t_min, t_max, words),
            Hittable::RotateY(h) => h.hit_from(ray, t_min, t_max, words),
            Hittable::RotateZ(h) => h.hit_from(ray, t_min, t_max, words),
            Hittable::ConstantMedium(h) => h.hit_from(ray, t_min, t_max, words),
            Hittable::HitList(h) => h.hit_from(ray, t_min, t_max, words),
            Hittable::BVHNode(h) => h.hit_from(ray, t_min, t_max, words),
        }
    }

    /// `r` is an answer that the object can give to the ray over
    /// `(t_min, t_max)`. A primitive has the one answer that
    /// [`Hittable::spec_hit`] gives; a participating medium has one for each
    /// draw of its free path; a wrapper or a collection has what follows from
    /// the answers of what it holds.
    pub open spec fn may_hit(&self, ray: &Ray, t_min: Scalar, t_max: Scalar, r: Option<HitRecord>) -> bool
        decreases self,
    {
        match self {
            Hittable::Sphere(h) => r == h.spec_hit(ray, t_min, t_max),
            Hittable::MovingSphere(h) => r == h.spec_hit(ray, t_min, t_max),
            Hittable::XYRect(h) => r == h.spec_hit(ray, t_min, t_max),
            Hittable::XZRect(h) => r == h.spec_hit(ray, t_min, t_max),
            Hittable::YZRect(h) => r == h.spec_hit(ray, t_min, t_max),
            Hittable::HitBox(h) => r == h.spec_hit(ray, t_min, t_max),
            Hittable::FlipNormals(h) => h.may_hit(ray, t_min, t_max, r),
            Hittable::Translate(h) => h.may_hit(ray, t_min, t_max, r),
            Hittable::RotateX(h) => h.may_hit(ray, t_min, t_max, r),
            Hittable::RotateY(h) => h.may_hit(ray, t_min, t_max, r),
            Hittable::RotateZ(h) => h.may_hit(ray, t_min, t_max, r),
            Hittable::ConstantMedium(h) => h.may_hit(ray, t_min, t_max, r),
            Hittable::HitList(h) => h.may_hit(ray, t_min, t_max, r),
            Hittable::BVHNode(h) => h.may_hit(ray, t_min, t_max, r),
        }
    }

    /// The box that bounds the object over the time interval `[t0, t1]`, if it
    /// has one.
    pub open spec fn spec_bounding_box(&self, t0: Scalar, t1: Scalar) -> Option<AABB>
        decreases self,
    {
        match self {
            Hittable::Sphere(h) => h.spec_bounding_box(t0, t1),
            Hittable::MovingSphere(h) => h.spec_bounding_box(t0, t1),
            Hittable::XYRect(h) => h.spec_bounding_box(t0, t1),
            Hittable::XZRect(h) => h.spec_bounding_box(t0, t1),
            Hittable::YZRect(h) => h.spec_bounding_box(t0, t1),
            Hittable::HitBox(h) => h.spec_bounding_box(t0, t1),
            Hittable::FlipNormals(h) => h.spec_bounding_box(t0, t1),
            Hittable::Translate(h) => h.spec_bounding_box(t0, t1),
            Hittable::RotateX(h) => h.spec_bounding_box(t0, t1),
            Hittable::RotateY(h) => h.spec_bounding_box(t0, t1),
            Hittable::RotateZ(h) => h.spec_bounding_box(t0, t1),
            Hittable::ConstantMedium(h) => h.spec_bounding_box(t0, t1),
            Hittable::HitList(h) => h.spec_bounding_box(t0, t1),
            Hittable::BVHNode(h) => h.spec_bounding_box(t0, t1),
        }
    }

    /// Intersects `ray` with the object over the open parameter interval
    /// `(t_min, t_max)`.
    pub fn hit<'a>(
        &'a self,
        ray: &Ray,
        t_min: Scalar,
        t_max: Scalar,
        sampler: &mut Sampler,
    ) -> (r: Option<HitRecord<'a>>)
        ensures
            r == self.hit_from(ray, t_min, t_max, old(sampler).words()).0,
            final(sampler).follows(
                *old(sampler),
                self.hit_from(ray, t_min, t_max, old(sampler).words()).1,
            ),
            self.may_hit(ray, t_min, t_max, r),
            self.deterministic() ==> r == self.spec_hit(ray, t_min, t_max),
            self.deterministic() ==> final(sampler).follows(*old(sampler), 0),
            r matches Some(rec) ==> t_min@ < rec.t@ < t_max@,
        decreases self,
    {
        proof {
            lemma_skip_none(old(sampler).words());
        }
        match self {
            Hittable::Sphere(h) => h.hit(ray, t_min, t_max),
            Hittable::MovingSphere(h) => h.hit(ray, t_min, t_max),
            Hittable::XYRect(h) => h.hit(ray, t_min, t_max),
            Hittable::XZRect(h) => h.hit(ray, t_min, t_max),
            Hittable::YZRect(h) => h.hit(ray, t_min, t_max),
            Hittable::HitBox(h) => h.hit(ray, t_min, t_max),
            Hittable::FlipNormals(h) => h.hit(ray, t_min, t_max, sampler),
            Hittable::Translate(h) => h.hit(ray, t_min, t_max, sampler),
            Hittable::RotateX(h) => h.hit(ray, t_min, t_max, sampler),
            Hittable::RotateY(h) => h.hit(ray, t_min, t_max, sampler),
            Hittable::RotateZ(h) => h.hit(ray, t_min, t_max, sampler),
            Hittable::ConstantMedium(h) => h.hit(ray, t_min, t_max, sampler),
            Hittable::HitList(h) => h.hit(ray, t_min, t_max, sampler),
            Hittable::BVHNode(h) => h.hit(ray, t_min, t_max, sampler),
        }
    }

    /// The box that bounds the object over the time interval `[t0, t1]`, if it
    /// has one.
    #[verifier::when_used_as_spec(spec_bounding_box)]
    pub fn bounding_box(&self, t0: Scalar, t1: Scalar) -> (r: Option<AABB>)
        ensures
            r == self.spec_bounding_box(t0, t1),
        decreases self,
    {
        match self {
            Hittable::Sphere(h) => h.bounding_box(t0, t1),
            Hittable::MovingSphere(h) => h.bounding_box(t0, t1),
            Hittable::XYRect(h) => h.bounding_box(t0, t1),
            Hittable::XZRect(h) => h.bounding_box(t0, t1),
            Hittable::YZRect(h) => h.bounding_box(t0, t1),
            Hittable::HitBox(h) => h.bounding_box(t0, t1),
            Hittable::FlipNormals(h) => h.bounding_box(t0, t1),
            Hittable::Translate(h) => h.bounding_box(t0, t1),
            Hittable::RotateX(h) => h.bounding_box(t0, t1),
            Hittable::RotateY(h) => h.bounding_box(t0, t1),
            Hittable::RotateZ(h) => h.bounding_box(t0, t1),
            Hittable::ConstantMedium(h) => h.bounding_box(t0, t1),
            Hittable::HitList(h) => h.bounding_box(t0, t1),
            Hittable::BVHNode(h) => h.bounding_box(t0, t1),
        }
    }
}

} // verus!
