//! The specular material.

use crate::hit::HitRecord;
use crate::random::Sampler;
use crate::ray::Ray;
use crate::scalar::Scalar;
use crate::utils::{in_unit_sphere, random_in_unit_sphere, sphere_point, sphere_words, reflect};
use crate::vec3::Vec3;
use vstd::prelude::*;

verus! {

/// A mirror of colour `albedo`, roughened by `fuzz` in `[0, 1]`.
pub struct Metal {
    albedo: Vec3,
    fuzz: Scalar,
}

impl Metal {
    /// The colour of the mirror.
    pub closed spec fn albedo(&self) -> Vec3 {
        self.albedo
    }

    /// The roughness of the mirror.
    pub closed spec fn fuzz(&self) -> Scalar {
        self.fuzz
    }

    /// A metal of the given colour. The roughness is `fuzz` limited to
    /// `[0, 1]`.
    pub closed spec fn spec_new(albedo: Vec3, fuzz: Scalar) -> Self {
        Self { albedo, fuzz: fuzz.clamp(Scalar::zero(), Scalar::one()) }
    }

    /// A metal of the given colour. The roughness is `fuzz` limited to
    /// `[0, 1]`.
    #[verifier::when_used_as_spec(spec_new)]
    pub fn new(albedo: Vec3, fuzz: Scalar) -> (m: Self)
        ensures
            m == Self::spec_new(albedo, fuzz),
            m.albedo() == albedo,
            m.fuzz() == fuzz.clamp(Scalar::zero(), Scalar::one()),
            0 <= m.fuzz()@ <= 65536,
    {
        Self { albedo, fuzz: fuzz.clamp(Scalar::zero(), Scalar::one()) }
    }

    /// The direction into which the ray is scattered: the mirror direction of
    /// the unit incoming direction, moved by `fuzz` times `offset`.
    pub open spec fn scattered_direction(&self, r_in: &Ray, rec: &HitRecord, offset: Vec3) -> Vec3 {
        reflect(r_in.direction.unit(), rec.normal).plus(offset.scale(self.fuzz()))
    }

    /// Reflects the ray about the normal and moves the result by `fuzz` times
    /// `offset`. The ray is absorbed when that direction does not leave the
    /// surface, that is when its dot product with the normal is not positive.
    /// The scattered ray keeps the time of the incoming ray and is attenuated
    /// by the albedo.
    pub open spec fn spec_scatter_with(&self, r_in: &Ray, rec: &HitRecord, offset: Vec3) -> Option<
        (Ray, Vec3),
    > {
        let direction = self.scattered_direction(r_in, rec, offset);
        if direction.dot(rec.normal)@ > 0 {
            Some((Ray { origin: rec.p, direction, time: r_in.time }, self.albedo()))
        } else {
            None
        }
    }

    /// Reflects the ray about the normal and moves the result by `fuzz` times
    /// `offset`. The ray is absorbed when that direction does not leave the
    /// surface, that is when its dot product with the normal is not positive.
    /// The scattered ray keeps the time of the incoming ray and is attenuated
    /// by the albedo.
    #[verifier::when_used_as_spec(spec_scatter_with)]
    pub fn scatter_with(&self, r_in: &Ray, rec: &HitRecord, offset: Vec3) -> (r: Option<
        (Ray, Vec3),
    >)
        ensures
            r == self.spec_scatter_with(r_in, rec, offset),
            r.is_some() <==> self.scattered_direction(r_in, rec, offset).dot(rec.normal)@ > 0,
    {
        let reflected = reflect(r_in.direction.unit(), rec.normal);
        let direction = reflected.plus(offset.scale(self.fuzz));
        if direction.dot(rec.normal).raw > 0 {
            Some((Ray { origin: rec.p, direction, time: r_in.time }, self.albedo))
        } else {
            None
        }
    }

    /// Scatters with an offset drawn from the unit sphere: the point that the
    /// sampler's words give, as [`sphere_point`] says.
    pub fn scatter(&self, r_in: &Ray, rec: &HitRecord, sampler: &mut Sampler) -> (r: Option<
        (Ray, Vec3),
    >)
        ensures
            r == self.scatter_with(r_in, rec, sphere_point(old(sampler).words())),
            final(sampler).follows(*old(sampler), sphere_words(old(sampler).words())),
            exists|offset: Vec3|
                in_unit_sphere(offset) && r == #[trigger] self.scatter_with(r_in, rec, offset),
    {
        let offset = random_in_unit_sphere(sampler);
        self.scatter_with(r_in, rec, offset)
    }
}

} // verus!
