//! Homogeneous participating media such as smoke and fog.

use crate::aabb::AABB;
use crate::hit::rect::PAD_RAW;
use crate::hit::{HitRecord, Hittable};
use crate::material::Material;
use crate::math::ln;
use crate::random::{lemma_skip_adds, lemma_skip_none, skip, unit_of_word, Sampler};
use crate::ray::Ray;
use crate::scalar::{Scalar, RAW_MAX};
use crate::vec3::Vec3;
use vstd::prelude::*;

verus! {

/// A medium of constant `density` that fills the inside of `boundary` and
/// scatters as `phase_function` says.
pub struct ConstantMedium {
    pub boundary: Hittable,
    pub density: Scalar,
    pub phase_function: Material,
}

impl ConstantMedium {
    /// The free path that belongs to the uniform draw `draw`:
    /// `-ln(draw) / density`, so that the mean free path is `1 / density`.
    pub open spec fn spec_free_path(&self, draw: Scalar) -> Scalar {
        Scalar::one().over(self.density).negate().times(ln(draw))
    }

    /// The free path that belongs to the uniform draw `draw`:
    /// `-ln(draw) / density`, so that the mean free path is `1 / density`.
    #[verifier::when_used_as_spec(spec_free_path)]
    pub fn free_path(&self, draw: Scalar) -> (d: Scalar)
        ensures
            d == self.spec_free_path(draw),
    {
        Scalar::one().over(self.density).negate().times(ln(draw))
    }

    /// The part of the ray inside the boundary, from `entry` to `exit`,
    /// limited to `[t_min, t_max]` and to parameters that are not negative;
    /// none where nothing is left.
    pub open spec fn spec_segment(entry: Scalar, exit: Scalar, t_min: Scalar, t_max: Scalar) -> Option<
        (Scalar, Scalar),
    > {
        let from = entry.max(t_min);
        let to = exit.min(t_max);
        if from@ >= to@ {
            None
        } else {
            Some((from.max(Scalar::zero()), to))
        }
    }

    /// The part of the ray inside the boundary, from `entry` to `exit`,
    /// limited to `[t_min, t_max]` and to parameters that are not negative;
    /// none where nothing is left.
    #[verifier::when_used_as_spec(spec_segment)]
    pub fn segment(entry: Scalar, exit: Scalar, t_min: Scalar, t_max: Scalar) -> (r: Option<
        (Scalar, Scalar),
    >)
        ensures
            r == Self::spec_segment(entry, exit, t_min, t_max),
    {
        let from = entry.max(t_min);
        let to = exit.min(t_max);
        if from.raw >= to.raw {
            None
        } else {
            Some((from.max(Scalar::zero()), to))
        }
    }

    /// The scattering event on a ray that is inside the boundary between the
    /// parameters `entry` and `exit`, for the uniform draw `draw`. The ray
    /// scatters where the free path is shorter than the way through the
    /// medium and the point reached lies strictly between `t_min` and
    /// `t_max`. The normal of the event is arbitrary: the unit vector
    /// along `x`.
    #[verifier::opaque]
    pub open spec fn spec_event(
        &self,
        ray: &Ray,
        t_min: Scalar,
        t_max: Scalar,
        entry: Scalar,
        exit: Scalar,
        draw: Scalar,
    ) -> Option<HitRecord> {
        match Self::spec_segment(entry, exit, t_min, t_max) {
            Some((from, to)) => {
                let speed = ray.direction.len();
                let distance_inside = to.minus(from).times(speed);
                let hit_distance = self.free_path(draw);
                let t = from.plus(hit_distance.over(speed));
                if hit_distance@ < distance_inside@ && t_min@ < t@ < t_max@ {
                    Some(
                        HitRecord {
                            t,
                            p: ray.point_at_parameter(t),
                            normal: Vec3 { x: Scalar::one(), y: Scalar::zero(), z: Scalar::zero() },
                            u: Scalar::zero(),
                            v: Scalar::zero(),
                            mat: &self.phase_function,
                        },
                    )
                } else {
                    None
                }
            },
            None => None,
        }
    }

    /// The scattering event on a ray that is inside the boundary between the
    /// parameters `entry` and `exit`, for the uniform draw `draw`.
    #[verifier::when_used_as_spec(spec_event)]
    pub fn event<'a>(
        &'a self,
        ray: &Ray,
        t_min: Scalar,
        t_max: Scalar,
        entry: Scalar,
        exit: Scalar,
        draw: Scalar,
    ) -> (r: Option<HitRecord<'a>>)
        ensures
            r == self.spec_event(ray, t_min, t_max, entry, exit, draw),
            r matches Some(rec) ==> t_min@ < rec.t@ < t_max@ && rec.mat == &self.phase_function,
    {
        reveal(ConstantMedium::spec_event);
        match Self::segment(entry, exit, t_min, t_max) {
            Some((from, to)) => {
                let speed = ray.direction.len();
                let distance_inside = to.minus(from).times(speed);
                let hit_distance = self.free_path(draw);
                let t = from.plus(hit_distance.over(speed));
                if hit_distance.raw < distance_inside.raw && t_min.raw < t.raw && t.raw
                    < t_max.raw {
                    Some(
                        HitRecord {
                            t,
                            p: ray.point_at_parameter(t),
                            normal: Vec3 { x: Scalar::one(), y: Scalar::zero(), z: Scalar::zero() },
                            u: Scalar::zero(),
                            v: Scalar::zero(),
                            mat: &self.phase_function,
                        },
                    )
                } else {
                    None
                }
            },
            None => None,
        }
    }

    /// Where a deterministic boundary is crossed by the ray: the parameter
    /// of its first hit anywhere along the line, and that of the next hit
    /// beyond it; none where the ray does not enter or does not leave.
    pub open spec fn spec_crossing(&self, ray: &Ray) -> Option<(Scalar, Scalar)> {
        match self.boundary.spec_hit(ray, Scalar { raw: RAW_MAX }.negate(), Scalar { raw: RAW_MAX }) {
            Some(rec1) => match self.boundary.spec_hit(
                ray,
                rec1.t.plus(Scalar { raw: PAD_RAW }),
                Scalar { raw: RAW_MAX },
            ) {
                Some(rec2) => Some((rec1.t, rec2.t)),
                None => None,
            },
            None => None,
        }
    }

    /// Whether the ray enters a deterministic boundary somewhere along its
    /// line and leaves it beyond that.
    pub open spec fn enters_and_leaves(&self, ray: &Ray) -> bool {
        self.spec_crossing(ray) is Some
    }

    /// Where the boundary is deterministic, the hit for the uniform draw
    /// `draw`: the event between the two parameters at which the ray crosses
    /// the boundary, as [`ConstantMedium::event`] says; none where it does
    /// not cross it.
    pub open spec fn spec_hit_with(&self, ray: &Ray, t_min: Scalar, t_max: Scalar, draw: Scalar) -> Option<
        HitRecord,
    > {
        match self.spec_crossing(ray) {
            Some((entry, exit)) => self.spec_event(ray, t_min, t_max, entry, exit, draw),
            None => None,
        }
    }

    /// Where a stream of words has the ray cross the boundary, and how many
    /// of them finding that uses. The boundary is asked where the ray enters
    /// it, anywhere along the line, and then where it leaves it beyond that,
    /// with the words that the first question has left.
    pub open spec fn crossing_from(&self, ray: &Ray, words: spec_fn(nat) -> u32) -> (
        Option<(Scalar, Scalar)>,
        nat,
    )
        decreases self, 0nat,
    {
        let (entering, used) = self.boundary.hit_from(
            ray,
            Scalar { raw: RAW_MAX }.negate(),
            Scalar { raw: RAW_MAX },
            words,
        );
        match entering {
            Some(rec1) => {
                let (leaving, more) = self.boundary.hit_from(
                    ray,
                    rec1.t.plus(Scalar { raw: PAD_RAW }),
                    Scalar { raw: RAW_MAX },
                    skip(words, used),
                );
                match leaving {
                    Some(rec2) => (Some((rec1.t, rec2.t)), used + more),
                    None => (None, used + more),
                }
            },
            None => (None, used),
        }
    }

    /// The hit that a stream of words gives, and how many of them it uses.
    /// Where the words have the ray cross the boundary, the word after those
    /// stands for the draw of the free path, and the hit is the event of
    /// that draw; otherwise there is none.
    pub open spec fn hit_from(
        &self,
        ray: &Ray,
        t_min: Scalar,
        t_max: Scalar,
        words: spec_fn(nat) -> u32,
    ) -> (Option<HitRecord>, nat)
        decreases self, 1nat,
    {
        let (crossing, used) = self.crossing_from(ray, words);
        match crossing {
            Some((entry, exit)) => (
                self.spec_event(ray, t_min, t_max, entry, exit, unit_of_word(words(used))),
                used + 1,
            ),
            None => (None, used),
        }
    }

    /// `r` is an answer that the medium can give: the hit that some stream
    /// of words gives.
    pub open spec fn may_hit(&self, ray: &Ray, t_min: Scalar, t_max: Scalar, r: Option<HitRecord>) -> bool {
        exists|words: spec_fn(nat) -> u32| r == (#[trigger] self.hit_from(ray, t_min, t_max, words)).0
    }

    /// The box of the boundary.
    pub open spec fn spec_bounding_box(&self, t0: Scalar, t1: Scalar) -> Option<AABB>
        decreases self,
    {
        self.boundary.spec_bounding_box(t0, t1)
    }

    /// Asks the boundary where the ray enters it and where it leaves it.
    fn crossing(&self, ray: &Ray, sampler: &mut Sampler) -> (c: Option<(Scalar, Scalar)>)
        ensures
            c == self.crossing_from(ray, old(sampler).words()).0,
            final(sampler).follows(*old(sampler), self.crossing_from(ray, old(sampler).words()).1),
            self.boundary.deterministic() ==> c == self.spec_crossing(ray),
            self.boundary.deterministic() ==> final(sampler).follows(*old(sampler), 0),
        decreases self, 0nat,
    {
        let far = Scalar { raw: RAW_MAX };
        let ghost start = old(sampler).words();
        proof {
            lemma_skip_none(start);
        }
        match self.boundary.hit(ray, far.negate(), far, sampler) {
            Some(rec1) => {
                let ghost used = self.boundary.hit_from(ray, far.negate(), far, start).1;
                let ghost left = sampler.words();
                let leaving = self.boundary.hit(
                    ray,
                    rec1.t.plus(Scalar { raw: PAD_RAW }),
                    far,
                    sampler,
                );
                proof {
                    lemma_skip_adds(
                        start,
                        used,
                        self.boundary.hit_from(ray, rec1.t.plus(Scalar { raw: PAD_RAW }), far, left).1,
                    );
                }
                match leaving {
                    Some(rec2) => Some((rec1.t, rec2.t)),
                    None => None,
                }
            },
            None => None,
        }
    }

    /// Whether the ray scatters inside the medium between `t_min` and
    /// `t_max`: the hit that the sampler's words give, as
    /// [`ConstantMedium::hit_from`] says. Where the boundary is deterministic
    /// that is the event of the draw that the next word stands for, and the
    /// sampler moves on by that one word where the ray crosses the boundary
    /// and by none where it does not.
    pub fn hit<'a>(
        &'a self,
        ray: &Ray,
        t_min: Scalar,
        t_max: Scalar,
        sampler: &mut Sampler,
    ) -> (r: Option<HitRecord<'a>>)
        ensures
            r == self.hit_from(ray, t_min, t_max, old(sampler).words()).0,
            final(sampler).follows(
                *old(sampler),
                self.hit_from(ray, t_min, t_max, old(sampler).words()).1,
            ),
            self.boundary.deterministic() ==> r == self.spec_hit_with(
                ray,
                t_min,
                t_max,
                unit_of_word(old(sampler).upcoming(0)),
            ),
            self.boundary.deterministic() ==> final(sampler).follows(
                *old(sampler),
                if self.enters_and_leaves(ray) {
                    1nat
                } else {
                    0nat
                },
            ),
            self.may_hit(ray, t_min, t_max, r),
            r matches Some(rec) ==> t_min@ < rec.t@ < t_max@ && rec.mat == &self.phase_function,
        decreases self, 1nat,
    {
        let ghost start = old(sampler).words();
        proof {
            lemma_skip_none(start);
        }
        match self.crossing(ray, sampler) {
            Some((entry, exit)) => {
                let draw = sampler.uniform();
                proof {
                    lemma_skip_adds(start, self.crossing_from(ray, start).1, 1);
                }
                self.event(ray, t_min, t_max, entry, exit, draw)
            },
            None => None,
        }
    }

    /// The box of the boundary.
    #[verifier::when_used_as_spec(spec_bounding_box)]
    pub fn bounding_box(&self, t0: Scalar, t1: Scalar) -> (r: Option<AABB>)
        ensures
            r == self.spec_bounding_box(t0, t1),
        decreases self,
    {
        self.boundary.bounding_box(t0, t1)
    }
}

} // verus!
