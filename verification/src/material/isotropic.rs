//! The phase function of a participating medium.

use crate::hit::HitRecord;
use crate::random::Sampler;
use crate::ray::Ray;
use crate::texture::Texture;
use crate::utils::{in_unit_sphere, random_in_unit_sphere, sphere_point, sphere_words};
use crate::vec3::Vec3;
use vstd::prelude::*;

verus! {

/// A medium that scatters into every direction alike.
pub struct Isotropic<T> {
    pub albedo: T,
}

impl Isotropic<Texture> {
    /// Scatters from the hit point into the direction `offset`, whatever the
    /// incoming direction, at the time of the incoming ray; the attenuation is
    /// the albedo at the hit point.
    pub open spec fn spec_scatter_with(&self, r_in: &Ray, rec: &HitRecord, offset: Vec3) -> Option<
        (Ray, Vec3),
    > {
        Some(
            (
                Ray { origin: rec.p, direction: offset, time: r_in.time },
                self.albedo.value(rec.u, rec.v, rec.p),
            ),
        )
    }

    /// Scatters from the hit point into the direction `offset`, whatever the
    /// incoming direction, at the time of the incoming ray; the attenuation is
    /// the albedo at the hit point.
    #[verifier::when_used_as_spec(spec_scatter_with)]
    pub fn scatter_with(&self, r_in: &Ray, rec: &HitRecord, offset: Vec3) -> (r: Option<
        (Ray, Vec3),
    >)
        ensures
            r == self.spec_scatter_with(r_in, rec, offset),
            r.is_some(),
    {
        let scattered = Ray { origin: rec.p, direction: offset, time: r_in.time };
        let attenuation = self.albedo.value(rec.u, rec.v, rec.p);
        Some((scattered, attenuation))
    }

    /// Scatters into a direction drawn from the unit sphere: the point that
    /// the sampler's words give, as [`sphere_point`] says.
    pub fn scatter(&self, r_in: &Ray, rec: &HitRecord, sampler: &mut Sampler) -> (r: Option<
        (Ray, Vec3),
    >)
        ensures
            r == self.scatter_with(r_in, rec, sphere_point(old(sampler).words())),
            final(sampler).follows(*old(sampler), sphere_words(old(sampler).words())),
            exists|offset: Vec3|
                in_unit_sphere(offset) && r == #[trigger] self.scatter_with(r_in, rec, offset),
            r.is_some(),
    {
        let offset = random_in_unit_sphere(sampler);
        self.scatter_with(r_in, rec, offset)
    }
}

} // verus!
