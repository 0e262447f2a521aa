//! Axis-aligned cuboids.

use crate::aabb::AABB;
use crate::hit::rect::{Axis, Face};
use crate::hit::{HitRecord, Surface};
use crate::material::Material;
use crate::ray::Ray;
use crate::scalar::Scalar;
use crate::vec3::Vec3;
use vstd::prelude::*;

verus! {

/// The cuboid between the corners `pmin` and `pmax`: six rectangles, one per
/// face, of one material.
pub struct HitBox {
    pub pmin: Vec3,
    pub pmax: Vec3,
    pub material: Material,
}

/// The upper end of the parameter interval that is left once `found` has been
/// hit.
pub open spec fn face_bound(found: Option<Surface>, t_max: Scalar) -> Scalar {
    match found {
        Some(s) => s.t,
        None => t_max,
    }
}

impl HitBox {
    /// The cuboid between `p0` and `p1`.
    pub open spec fn spec_new(p0: Vec3, p1: Vec3, material: Material) -> HitBox {
        HitBox { pmin: p0, pmax: p1, material }
    }

    /// The cuboid between `p0` and `p1`.
    #[verifier::when_used_as_spec(spec_new)]
    pub fn new(p0: Vec3, p1: Vec3, material: Material) -> (b: HitBox)
        ensures
            b == Self::spec_new(p0, p1, material),
    {
        HitBox { pmin: p0, pmax: p1, material }
    }

    /// Face `i` of the six, and whether its normal is turned to point out of
    /// the cuboid: for each of `z`, `y`, `x` in turn the face at the upper
    /// corner, which faces along the axis, and the face at the lower corner,
    /// which is turned.
    pub open spec fn spec_face(&self, i: usize) -> (Face, bool) {
        let lo = self.pmin;
        let hi = self.pmax;
        if i == 0 {
            (Face { axis: Axis::Z, a0: lo.x, a1: hi.x, b0: lo.y, b1: hi.y, k: hi.z }, false)
        } else if i == 1 {
            (Face { axis: Axis::Z, a0: lo.x, a1: hi.x, b0: lo.y, b1: hi.y, k: lo.z }, true)
        } else if i == 2 {
            (Face { axis: Axis::Y, a0: lo.x, a1: hi.x, b0: lo.z, b1: hi.z, k: hi.y }, false)
        } else if i == 3 {
            (Face { axis: Axis::Y, a0: lo.x, a1: hi.x, b0: lo.z, b1: hi.z, k: lo.y }, true)
        } else if i == 4 {
            (Face { axis: Axis::X, a0: lo.y, a1: hi.y, b0: lo.z, b1: hi.z, k: hi.x }, false)
        } else {
            (Face { axis: Axis::X, a0: lo.y, a1: hi.y, b0: lo.z, b1: hi.z, k: lo.x }, true)
        }
    }

    /// Face `i` of the six, and whether its normal is turned.
    pub fn face(&self, i: usize) -> (f: (Face, bool))
        ensures
            f == self.spec_face(i),
    {
        let lo = self.pmin;
        let hi = self.pmax;
        if i == 0 {
            (Face { axis: Axis::Z, a0: lo.x, a1: hi.x, b0: lo.y, b1: hi.y, k: hi.z }, false)
        } else if i == 1 {
            (Face { axis: Axis::Z, a0: lo.x, a1: hi.x, b0: lo.y, b1: hi.y, k: lo.z }, true)
        } else if i == 2 {
            (Face { axis: Axis::Y, a0: lo.x, a1: hi.x, b0: lo.z, b1: hi.z, k: hi.y }, false)
        } else if i == 3 {
            (Face { axis: Axis::Y, a0: lo.x, a1: hi.x, b0: lo.z, b1: hi.z, k: lo.y }, true)
        } else if i == 4 {
            (Face { axis: Axis::X, a0: lo.y, a1: hi.y, b0: lo.z, b1: hi.z, k: hi.x }, false)
        } else {
            (Face { axis: Axis::X, a0: lo.y, a1: hi.y, b0: lo.z, b1: hi.z, k: lo.x }, true)
        }
    }

    /// The hit of face `i`, with the normal turned where the face is.
    pub open spec fn face_hit(&self, i: usize, ray: &Ray, t_min: Scalar, t_max: Scalar) -> Option<
        Surface,
    > {
        let (face, turned) = self.spec_face(i);
        match face.hit(ray, t_min, t_max) {
            Some(s) => Some(if turned { s.flipped() } else { s }),
            None => None,
        }
    }

    /// The nearest hit among the first `n` faces, found as a list of objects
    /// finds it.
    pub open spec fn closest_face(&self, n: nat, ray: &Ray, t_min: Scalar, t_max: Scalar) -> Option<
        Surface,
    >
        decreases n,
    {
        if n == 0 {
            None
        } else {
            let before = self.closest_face((n - 1) as nat, ray, t_min, t_max);
            match self.face_hit((n - 1) as usize, ray, t_min, face_bound(before, t_max)) {
                Some(s) => Some(s),
                None => before,
            }
        }
    }

    /// The nearest point at which `ray` crosses one of the six faces with a
    /// parameter strictly between `t_min` and `t_max`.
    pub open spec fn spec_hit(&self, ray: &Ray, t_min: Scalar, t_max: Scalar) -> Option<HitRecord> {
        match self.closest_face(6, ray, t_min, t_max) {
            Some(s) => Some(s.on(&self.material)),
            None => None,
        }
    }

    /// The cuboid itself, whatever the time.
    pub open spec fn spec_bounding_box(&self, t0: Scalar, t1: Scalar) -> Option<AABB> {
        Some(AABB { min: self.pmin, max: self.pmax })
    }

    /// The nearest point at which `ray` crosses one of the six faces with a
    /// parameter strictly between `t_min` and `t_max`.
    pub fn hit<'a>(&'a self, ray: &Ray, t_min: Scalar, t_max: Scalar) -> (r: Option<HitRecord<'a>>)
        ensures
            r == self.spec_hit(ray, t_min, t_max),
            r matches Some(rec) ==> t_min@ < rec.t@ < t_max@,
    {
        let mut found: Option<Surface> = None;
        let mut bound = t_max;
        let mut i: usize = 0;
        while i < 6
            invariant
                i <= 6,
                bound == face_bound(found, t_max),
                found matches Some(s) ==> t_min@ < s.t@ < t_max@,
                found == self.closest_face(i as nat, ray, t_min, t_max),
            decreases 6 - i,
        {
            let (face, turned) = self.face(i);
            match face.hit(ray, t_min, bound) {
                Some(s) => {
                    let s = if turned { s.flipped() } else { s };
                    bound = s.t;
                    found = Some(s);
                },
                None => {},
            }
            i = i + 1;
        }
        match found {
            Some(s) => Some(s.on(&self.material)),
            None => None,
        }
    }

    /// The cuboid itself, whatever the time.
    #[verifier::when_used_as_spec(spec_bounding_box)]
    pub fn bounding_box(&self, t0: Scalar, t1: Scalar) -> (r: Option<AABB>)
        ensures
            r == self.spec_bounding_box(t0, t1),
    {
        Some(AABB { min: self.pmin, max: self.pmax })
    }
}

} // verus!
