//! The camera: from a point of the image to a ray into the scene.

use crate::math::{radians, tan};
use crate::random::{lemma_skip_adds, unit_of_word, Sampler};
use crate::ray::Ray;
use crate::scalar::Scalar;
use crate::utils::{disk_point, disk_words, in_unit_disk, random_in_unit_disk};
use crate::vec3::Vec3;
use vstd::prelude::*;

verus! {

/// A thin-lens camera with a shutter that is open from `time0` to `time1`.
#[derive(Clone, Copy, Debug, PartialEq, Eq, Structural)]
pub struct Camera {
    pub origin: Vec3,
    pub lower_left_corner: Vec3,
    pub horizontal: Vec3,
    pub vertical: Vec3,
    pub u: Vec3,
    pub v: Vec3,
    pub w: Vec3,
    pub lens_radius: Scalar,
    pub time0: Scalar,
    pub time1: Scalar,
}

impl Camera {
    /// The camera at `look_from` that looks at `look_at` with `vup` pointing up.
    /// `vfov` is the vertical field of view in degrees, `aspect` the ratio of width
    /// to height, `aperture` the diameter of the lens and `focus_dist` the distance
    /// of the plane that is in focus.
    ///
    /// The basis is `w = unit(look_from - look_at)`, `u = unit(vup x w)`,
    /// `v = w x u`; the half height of the viewport is `tan(vfov / 2)`. The three
    /// vectors must not be degenerate: `look_from` differs from `look_at` and `vup`
    /// is not parallel to the viewing direction.
    pub open spec fn spec_new(look_from: Vec3, look_at: Vec3, vup: Vec3, vfov: Scalar, aspect: Scalar, aperture: Scalar, focus_dist: Scalar, time0: Scalar, time1: Scalar) -> Camera {
        let half_height = tan(radians(vfov).over(Scalar::from_int(2)));
        let half_width = aspect.times(half_height);
        let w = look_from.minus(look_at).unit();
        let u = vup.cross(w).unit();
        let v = w.cross(u);
        Camera {
            origin: look_from,
            lower_left_corner: look_from.minus(u.scale(half_width.times(focus_dist))).minus(
                v.scale(half_height.times(focus_dist)),
            ).minus(w.scale(focus_dist)),
            horizontal: u.scale(Scalar::from_int(2).times(half_width).times(focus_dist)),
            vertical: v.scale(Scalar::from_int(2).times(half_height).times(focus_dist)),
            u,
            v,
            w,
            lens_radius: aperture.over(Scalar::from_int(2)),
            time0,
            time1,
        }
    }

    /// The camera at `look_from` that looks at `look_at` with `vup` pointing up.
    /// `vfov` is the vertical field of view in degrees, `aspect` the ratio of width
    /// to height, `aperture` the diameter of the lens and `focus_dist` the distance
    /// of the plane that is in focus.
    ///
    /// The basis is `w = unit(look_from - look_at)`, `u = unit(vup x w)`,
    /// `v = w x u`; the half height of the viewport is `tan(vfov / 2)`. The three
    /// vectors must not be degenerate: `look_from` differs from `look_at` and `vup`
    /// is not parallel to the viewing direction.
    #[verifier::when_used_as_spec(spec_new)]
    pub fn new(look_from: Vec3, look_at: Vec3, vup: Vec3, vfov: Scalar, aspect: Scalar, aperture: Scalar, focus_dist: Scalar, time0: Scalar, time1: Scalar) -> (c: Camera)
        ensures
            c == Self::spec_new(look_from, look_at, vup, vfov, aspect, aperture, focus_dist, time0, time1),
    {
        let half_height = tan(radians(vfov).over(Scalar::from_int(2)));
        let half_width = aspect.times(half_height);
        let w = look_from.minus(look_at).unit();
        let u = vup.cross(w).unit();
        let v = w.cross(u);
        Camera {
            origin: look_from,
            lower_left_corner: look_from.minus(u.scale(half_width.times(focus_dist))).minus(
                v.scale(half_height.times(focus_dist)),
            ).minus(w.scale(focus_dist)),
            horizontal: u.scale(Scalar::from_int(2).times(half_width).times(focus_dist)),
            vertical: v.scale(Scalar::from_int(2).times(half_height).times(focus_dist)),
            u,
            v,
            w,
            lens_radius: aperture.over(Scalar::from_int(2)),
            time0,
            time1,
        }
    }

    /// The ray through the point `(s, t)` of the image, both in `[0, 1]`, that leaves
    /// the lens at the point `lens` of the unit disk at the fraction `shutter` of the
    /// shutter interval.
    pub open spec fn spec_get_ray_with(&self, s: Scalar, t: Scalar, lens: Vec3, shutter: Scalar) -> Ray {
        let rd = lens.scale(self.lens_radius);
        let offset = self.u.scale(rd.x).plus(self.v.scale(rd.y));
        Ray {
            origin: self.origin.plus(offset),
            direction: self.lower_left_corner.plus(self.horizontal.scale(s)).plus(
                self.vertical.scale(t),
            ).minus(self.origin).minus(offset),
            time: self.time0.plus(shutter.times(self.time1.minus(self.time0))),
        }
    }

    /// The ray through the point `(s, t)` of the image, both in `[0, 1]`, that leaves
    /// the lens at the point `lens` of the unit disk at the fraction `shutter` of the
    /// shutter interval.
    #[verifier::when_used_as_spec(spec_get_ray_with)]
    pub fn get_ray_with(&self, s: Scalar, t: Scalar, lens: Vec3, shutter: Scalar) -> (r: Ray)
        ensures
            r == self.spec_get_ray_with(s, t, lens, shutter),
    {
        let rd = lens.scale(self.lens_radius);
        let offset = self.u.scale(rd.x).plus(self.v.scale(rd.y));
        Ray {
            origin: self.origin.plus(offset),
            direction: self.lower_left_corner.plus(self.horizontal.scale(s)).plus(
                self.vertical.scale(t),
            ).minus(self.origin).minus(offset),
            time: self.time0.plus(shutter.times(self.time1.minus(self.time0))),
        }
    }

    /// The ray through `(s, t)` that a stream of words gives, and how many
    /// of them it uses: the point of the lens is the point in the unit disk
    /// that the words give, the place in the shutter interval is what the
    /// word after those stands for.
    pub open spec fn get_ray_from(&self, s: Scalar, t: Scalar, words: spec_fn(nat) -> u32) -> (
        Ray,
        nat,
    ) {
        (
            self.spec_get_ray_with(
                s,
                t,
                disk_point(words),
                unit_of_word(words(disk_words(words))),
            ),
            disk_words(words) + 1,
        )
    }

    /// A ray through the point `(s, t)` of the image: the point of the lens
    /// is drawn from the unit disk and the time from the shutter interval, as
    /// [`Camera::get_ray_from`] says of the sampler's words.
    pub fn get_ray(&self, s: Scalar, t: Scalar, sampler: &mut Sampler) -> (r: Ray)
        ensures
            r == self.get_ray_from(s, t, old(sampler).words()).0,
            final(sampler).follows(*old(sampler), self.get_ray_from(s, t, old(sampler).words()).1),
            exists|lens: Vec3, shutter: Scalar|
                in_unit_disk(lens) && 0 <= shutter@ < 65536 && r == #[trigger] self.get_ray_with(
                    s,
                    t,
                    lens,
                    shutter,
                ),
    {
        let lens = random_in_unit_disk(sampler);
        let shutter = sampler.uniform();
        proof {
            lemma_skip_adds(old(sampler).words(), disk_words(old(sampler).words()), 1);
        }
        self.get_ray_with(s, t, lens, shutter)
    }
}

} // verus!
