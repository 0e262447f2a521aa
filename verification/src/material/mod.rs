//! Materials: how a surface scatters an incoming ray and what it emits.

pub mod dielectric;
pub mod diffuse_light;
pub mod isotropic;
pub mod lambertian;
pub mod metal;

use crate::hit::HitRecord;
use crate::material::dielectric::Dielectric;
use crate::material::diffuse_light::DiffuseLight;
use crate::material::isotropic::Isotropic;
use crate::material::lambertian::Lambertian;
use crate::material::metal::Metal;
use crate::random::{lemma_skip_adds, unit_of_word, Sampler};
use crate::ray::Ray;
use crate::scalar::Scalar;
use crate::texture::Texture;
use crate::utils::{in_unit_sphere, random_in_unit_sphere, sphere_point, sphere_words};
use crate::vec3::Vec3;
use vstd::prelude::*;

verus! {

/// The closed set of material kinds.
pub enum Material {
    Lambertian(Lambertian<Texture>),
    Metal(Metal),
    Dielectric(Dielectric),
    DiffuseLight(DiffuseLight),
    Isotropic(Isotropic<Texture>),
}

impl Material {
    /// The scattered ray and its attenuation, given the two random draws a
    /// material may use: a point `offset` in the unit sphere and a `chance`
    /// in `[0, 1)`.
    pub open spec fn spec_scatter_with(
        &self,
        r_in: &Ray,
        rec: &HitRecord,
        offset: Vec3,
        chance: Scalar,
    ) -> Option<(Ray, Vec3)> {
        match self {
            Material::Lambertian(m) => m.spec_scatter_with(r_in, rec, offset),
            Material::Metal(m) => m.spec_scatter_with(r_in, rec, offset),
            Material::Dielectric(m) => m.spec_scatter_with(r_in, rec, chance),
            Material::DiffuseLight(m) => None,
            Material::Isotropic(m) => m.spec_scatter_with(r_in, rec, offset),
        }
    }

    /// The scattered ray and its attenuation, given the two random draws a
    /// material may use: a point `offset` in the unit sphere and a `chance`
    /// in `[0, 1)`. A light never scatters.
    #[verifier::when_used_as_spec(spec_scatter_with)]
    pub fn scatter_with(&self, r_in: &Ray, rec: &HitRecord, offset: Vec3, chance: Scalar) -> (r:
        Option<(Ray, Vec3)>)
        ensures
            r == self.spec_scatter_with(r_in, rec, offset, chance),
    {
        match self {
            Material::Lambertian(m) => m.scatter_with(r_in, rec, offset),
            Material::Metal(m) => m.scatter_with(r_in, rec, offset),
            Material::Dielectric(m) => m.scatter_with(r_in, rec, chance),
            Material::DiffuseLight(m) => None,
            Material::Isotropic(m) => m.scatter_with(r_in, rec, offset),
        }
    }

    /// What the material makes of a stream of words, and how many of them it
    /// uses: the offset is the point in the unit sphere that the words give,
    /// the chance is what the word after those stands for.
    pub open spec fn scatter_from(
        &self,
        r_in: &Ray,
        rec: &HitRecord,
        words: spec_fn(nat) -> u32,
    ) -> (Option<(Ray, Vec3)>, nat) {
        (
            self.spec_scatter_with(
                r_in,
                rec,
                sphere_point(words),
                unit_of_word(words(sphere_words(words))),
            ),
            sphere_words(words) + 1,
        )
    }

    /// Whether the material can scatter at all: every kind but a light.
    pub open spec fn scatters(&self) -> bool {
        !(self is DiffuseLight)
    }

    /// Scatters the ray `r_in` that hit the surface at `rec`, drawing from
    /// `sampler`. The result is what [`Material::scatter_with`] gives for some
    /// point of the unit sphere and some chance in `[0, 1)`.
    pub fn scatter(&self, r_in: &Ray, rec: &HitRecord, sampler: &mut Sampler) -> (r: Option<
        (Ray, Vec3),
    >)
        ensures
            r == self.scatter_from(r_in, rec, old(sampler).words()).0,
            final(sampler).follows(*old(sampler), self.scatter_from(r_in, rec, old(sampler).words()).1),
            exists|offset: Vec3, chance: Scalar|
                in_unit_sphere(offset) && 0 <= chance@ < 65536 && r == #[trigger] self.scatter_with(
                    r_in,
                    rec,
                    offset,
                    chance,
                ),
            !self.scatters() ==> r.is_none(),
    {
        let offset = random_in_unit_sphere(sampler);
        let chance = sampler.uniform();
        proof {
            lemma_skip_adds(old(sampler).words(), sphere_words(old(sampler).words()), 1);
        }
        self.scatter_with(r_in, rec, offset, chance)
    }

    /// The light the surface emits at `(u, v, p)`: black for every kind but a
    /// light.
    pub open spec fn spec_emitted(&self, u: Scalar, v: Scalar, p: Vec3) -> Vec3 {
        match self {
            Material::DiffuseLight(m) => m.spec_emitted(u, v, p),
            _ => Vec3::splat(Scalar::zero()),
        }
    }

    /// The light the surface emits at `(u, v, p)`: black for every kind but a
    /// light.
    #[verifier::when_used_as_spec(spec_emitted)]
    pub fn emitted(&self, u: Scalar, v: Scalar, p: Vec3) -> (c: Vec3)
        ensures
            c == self.spec_emitted(u, v, p),
    {
        match self {
            Material::DiffuseLight(m) => m.emitted(u, v, p),
            _ => Vec3::splat(Scalar::zero()),
        }
    }
}

} // verus!
