//! The refractive material.

use crate::hit::HitRecord;
use crate::random::{unit_of_word, Sampler};
use crate::ray::Ray;
use crate::scalar::Scalar;
use crate::utils::{reflect, refract, schlick};
use crate::vec3::Vec3;
use vstd::prelude::*;

verus! {

/// A clear material, such as glass, with refractive index `ref_idx`.
pub struct Dielectric {
    pub ref_idx: Scalar,
}

/// How a ray meets the surface of a dielectric: the normal turned against the
/// ray, the ratio of the refractive indices along the ray, and the cosine of
/// the angle of incidence that Schlick's formula takes.
pub struct Incidence {
    pub outward_normal: Vec3,
    pub ni_over_nt: Scalar,
    pub cosine: Scalar,
}

impl Dielectric {
    /// Whether the ray leaves the material, where its direction has a positive
    /// dot product with the normal, or enters it; the normal, the index ratio
    /// and the cosine follow from that.
    pub open spec fn spec_incidence(&self, r_in: &Ray, rec: &HitRecord) -> Incidence {
        let along = r_in.direction.dot(rec.normal);
        if along@ > 0 {
            Incidence {
                outward_normal: rec.normal.negate(),
                ni_over_nt: self.ref_idx,
                cosine: self.ref_idx.times(along).over(r_in.direction.len()),
            }
        } else {
            Incidence {
                outward_normal: rec.normal,
                ni_over_nt: Scalar::one().over(self.ref_idx),
                cosine: along.negate().over(r_in.direction.len()),
            }
        }
    }

    /// Whether the ray leaves the material, where its direction has a positive
    /// dot product with the normal, or enters it; the normal, the index ratio
    /// and the cosine follow from that.
    #[verifier::when_used_as_spec(spec_incidence)]
    pub fn incidence(&self, r_in: &Ray, rec: &HitRecord) -> (i: Incidence)
        ensures
            i == self.spec_incidence(r_in, rec),
    {
        let along = r_in.direction.dot(rec.normal);
        if along.raw > 0 {
            Incidence {
                outward_normal: rec.normal.negate(),
                ni_over_nt: self.ref_idx,
                cosine: self.ref_idx.times(along).over(r_in.direction.len()),
            }
        } else {
            Incidence {
                outward_normal: rec.normal,
                ni_over_nt: Scalar::one().over(self.ref_idx),
                cosine: along.negate().over(r_in.direction.len()),
            }
        }
    }

    /// The probability with which the ray is reflected: one where there is no
    /// refracted direction, else Schlick's reflectance.
    pub open spec fn reflect_probability(&self, r_in: &Ray, rec: &HitRecord) -> Scalar {
        let i = self.incidence(r_in, rec);
        match refract(r_in.direction, i.outward_normal, i.ni_over_nt) {
            Some(refracted) => schlick(i.cosine, self.ref_idx),
            None => Scalar::one(),
        }
    }

    /// Reflects or refracts the ray. Under total internal reflection the ray
    /// is reflected; otherwise it is reflected when `chance` is below
    /// Schlick's reflectance and refracted when it is not. The attenuation is
    /// always white: a dielectric absorbs nothing.
    pub open spec fn spec_scatter_with(&self, r_in: &Ray, rec: &HitRecord, chance: Scalar) -> Option<
        (Ray, Vec3),
    > {
        let i = self.incidence(r_in, rec);
        let direction = match refract(r_in.direction, i.outward_normal, i.ni_over_nt) {
            Some(refracted) => if chance@ < schlick(i.cosine, self.ref_idx)@ {
                reflect(r_in.direction, rec.normal)
            } else {
                refracted
            },
            None => reflect(r_in.direction, rec.normal),
        };
        Some((Ray { origin: rec.p, direction, time: r_in.time }, Vec3::splat(Scalar::one())))
    }

    /// Reflects or refracts the ray. Under total internal reflection the ray
    /// is reflected; otherwise it is reflected when `chance` is below
    /// Schlick's reflectance and refracted when it is not. The attenuation is
    /// always white: a dielectric absorbs nothing.
    #[verifier::when_used_as_spec(spec_scatter_with)]
    pub fn scatter_with(&self, r_in: &Ray, rec: &HitRecord, chance: Scalar) -> (r: Option<
        (Ray, Vec3),
    >)
        ensures
            r == self.spec_scatter_with(r_in, rec, chance),
            r matches Some(s) && s.1 == Vec3::splat(Scalar::one()) && s.0.origin == rec.p,
    {
        let i = self.incidence(r_in, rec);
        let direction = match refract(r_in.direction, i.outward_normal, i.ni_over_nt) {
            Some(refracted) => if chance.raw < schlick(i.cosine, self.ref_idx).raw {
                reflect(r_in.direction, rec.normal)
            } else {
                refracted
            },
            None => reflect(r_in.direction, rec.normal),
        };
        Some((Ray { origin: rec.p, direction, time: r_in.time }, Vec3::splat(Scalar::one())))
    }

    /// Scatters with a chance drawn uniformly from `[0, 1)`: what the next
    /// word of the sampler stands for.
    pub fn scatter(&self, r_in: &Ray, rec: &HitRecord, sampler: &mut Sampler) -> (r: Option<
        (Ray, Vec3),
    >)
        ensures
            r == self.scatter_with(r_in, rec, unit_of_word(old(sampler).upcoming(0))),
            final(sampler).follows(*old(sampler), 1),
            exists|chance: Scalar|
                0 <= chance@ < 65536 && r == #[trigger] self.scatter_with(r_in, rec, chance),
            r.is_some(),
    {
        let chance = sampler.uniform();
        self.scatter_with(r_in, rec, chance)
    }
}

} // verus!
