//! The diffuse material.

use crate::hit::HitRecord;
use crate::random::Sampler;
use crate::ray::Ray;
use crate::texture::Texture;
use crate::utils::{in_unit_sphere, random_in_unit_sphere, sphere_point, sphere_words};
use crate::vec3::Vec3;
use vstd::prelude::*;

verus! {

/// A diffuse surface whose colour is the texture `albedo`.
pub struct Lambertian<T> {
    pub albedo: T,
}

impl<T> Lambertian<T> {
    /// The diffuse material with the given albedo.
    pub open spec fn spec_new(albedo: T) -> Self {
        Self { albedo }
    }

    /// The diffuse material with the given albedo.
    #[verifier::when_used_as_spec(spec_new)]
    pub fn new(albedo: T) -> (m: Self)
        ensures
            m == Self::spec_new(albedo),
            m.albedo == albedo,
    {
        Self { albedo }
    }
}

impl Lambertian<Texture> {
    /// Scatters toward the point one normal and one `offset` away from the
    /// hit point, at the time of the incoming ray; the attenuation is the
    /// albedo there. A diffuse surface always scatters.
    pub open spec fn spec_scatter_with(&self, r_in: &Ray, rec: &HitRecord, offset: Vec3) -> Option<
        (Ray, Vec3),
    > {
        Some(
            (
                Ray {
                    origin: rec.p,
                    direction: rec.p.plus(rec.normal).plus(offset).minus(rec.p),
                    time: r_in.time,
                },
                self.albedo.value(rec.u, rec.v, rec.p),
            ),
        )
    }

    /// Scatters toward the point one normal and one `offset` away from the
    /// hit point, at the time of the incoming ray; the attenuation is the
    /// albedo there. A diffuse surface always scatters.
    #[verifier::when_used_as_spec(spec_scatter_with)]
    pub fn scatter_with(&self, r_in: &Ray, rec: &HitRecord, offset: Vec3) -> (r: Option<
        (Ray, Vec3),
    >)
        ensures
            r == self.spec_scatter_with(r_in, rec, offset),
            r.is_some(),
    {
        let target = rec.p.plus(rec.normal).plus(offset);
        let scattered = Ray { origin: rec.p, direction: target.minus(rec.p), time: r_in.time };
        let attenuation = self.albedo.value(rec.u, rec.v, rec.p);
        Some((scattered, attenuation))
    }

    /// Scatters with an offset drawn from the unit sphere: the point that the
    /// sampler's words give, as [`sphere_point`] says.
    pub fn scatter(&self, r_in: &Ray, rec: &HitRecord, sampler: &mut Sampler) -> (r: Option<
        (Ray, Vec3),
    >)
        ensures
            r == self.scatter_with(r_in, rec, sphere_point(old(sampler).words())),
            final(sampler).follows(*old(sampler), sphere_words(old(sampler).words())),
            exists|offset: Vec3|
                in_unit_sphere(offset) && r == #[trigger] self.scatter_with(r_in, rec, offset),
            r.is_some(),
    {
        let offset = random_in_unit_sphere(sampler);
        self.scatter_with(r_in, rec, offset)
    }
}

} // verus!
