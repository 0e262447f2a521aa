//! Axis-aligned bounding boxes: the merge of two boxes and the slab test that
//! every spatial query starts with.

use crate::ray::Ray;
use crate::scalar::Scalar;
use crate::vec3::Vec3;
use vstd::prelude::*;

verus! {

/// The box of all points between the corners `min` and `max`.
#[derive(Clone, Copy, Debug, PartialEq, Eq, Structural)]
pub struct AABB {
    pub min: Vec3,
    pub max: Vec3,
}

/// The part of the parameter interval `(t_min, t_max)` in which a ray with
/// origin coordinate `origin` and direction coordinate `direction` lies
/// between the planes at `lo` and `hi`.
pub open spec fn slab_interval(
    lo: Scalar,
    hi: Scalar,
    origin: Scalar,
    direction: Scalar,
    t_min: Scalar,
    t_max: Scalar,
) -> (Scalar, Scalar) {
    let a = lo.minus(origin).over(direction);
    let b = hi.minus(origin).over(direction);
    let t0 = if direction@ < 0 { b } else { a };
    let t1 = if direction@ < 0 { a } else { b };
    (t0.max(t_min), t1.min(t_max))
}

/// Exec counterpart of [`slab_interval`].
fn clip_to_slab(
    lo: Scalar,
    hi: Scalar,
    origin: Scalar,
    direction: Scalar,
    t_min: Scalar,
    t_max: Scalar,
) -> (r: (Scalar, Scalar))
    ensures
        r == slab_interval(lo, hi, origin, direction, t_min, t_max),
{
    let a = lo.minus(origin).over(direction);
    let b = hi.minus(origin).over(direction);
    let t0 = if direction.raw < 0 { b } else { a };
    let t1 = if direction.raw < 0 { a } else { b };
    (t0.max(t_min), t1.min(t_max))
}

impl AABB {
    /// Along every axis the lower corner is not above the upper one.
    pub open spec fn wf(&self) -> bool {
        &&& self.min.x@ <= self.max.x@
        &&& self.min.y@ <= self.max.y@
        &&& self.min.z@ <= self.max.z@
    }

    /// The point `p` lies in the box, faces included.
    pub open spec fn contains(&self, p: Vec3) -> bool {
        &&& self.min.x@ <= p.x@ <= self.max.x@
        &&& self.min.y@ <= p.y@ <= self.max.y@
        &&& self.min.z@ <= p.z@ <= self.max.z@
    }

    /// One of the eight corners: each flag picks the upper face of its axis.
    pub open spec fn corner(&self, upper_x: bool, upper_y: bool, upper_z: bool) -> Vec3 {
        Vec3 {
            x: if upper_x { self.max.x } else { self.min.x },
            y: if upper_y { self.max.y } else { self.min.y },
            z: if upper_z { self.max.z } else { self.min.z },
        }
    }

    /// One of the eight corners: each flag picks the upper face of its axis.
    pub fn corner_of(&self, upper_x: bool, upper_y: bool, upper_z: bool) -> (c: Vec3)
        ensures
            c == self.corner(upper_x, upper_y, upper_z),
    {
        Vec3 {
            x: if upper_x { self.max.x } else { self.min.x },
            y: if upper_y { self.max.y } else { self.min.y },
            z: if upper_z { self.max.z } else { self.min.z },
        }
    }

    /// The box `other` lies inside this one.
    pub open spec fn encloses(&self, other: AABB) -> bool {
        &&& self.min.x@ <= other.min.x@ && other.max.x@ <= self.max.x@
        &&& self.min.y@ <= other.min.y@ && other.max.y@ <= self.max.y@
        &&& self.min.z@ <= other.min.z@ && other.max.z@ <= self.max.z@
    }

    /// The tightest box that holds both `a` and `b`.
    pub open spec fn spec_surrounding_box(a: AABB, b: AABB) -> AABB {
        AABB { min: a.min.min(b.min), max: a.max.max(b.max) }
    }

    /// Whether some parameter strictly inside `(t_min, t_max)` puts the ray
    /// between all three pairs of faces: the interval is clipped axis by axis
    /// and the test fails as soon as it is empty.
    pub open spec fn spec_hit(&self, ray: &Ray, t_min: Scalar, t_max: Scalar) -> bool {
        let (x0, x1) = slab_interval(
            self.min.x,
            self.max.x,
            ray.origin.x,
            ray.direction.x,
            t_min,
            t_max,
        );
        let (y0, y1) = slab_interval(self.min.y, self.max.y, ray.origin.y, ray.direction.y, x0, x1);
        let (z0, z1) = slab_interval(self.min.z, self.max.z, ray.origin.z, ray.direction.z, y0, y1);
        x0@ < x1@ && y0@ < y1@ && z0@ < z1@
    }

    /// The tightest box that holds both `a` and `b`.
    #[verifier::when_used_as_spec(spec_surrounding_box)]
    pub fn surrounding_box(a: AABB, b: AABB) -> (r: AABB)
        ensures
            r == Self::spec_surrounding_box(a, b),
            a.wf() && b.wf() ==> r.wf() && r.encloses(a) && r.encloses(b),
            a == b ==> r == a,
    {
        AABB { min: a.min.min(b.min), max: a.max.max(b.max) }
    }

    /// The slab test. A box of no thickness along an axis is never hit, since
    /// the clipped interval must keep a positive length.
    #[verifier::when_used_as_spec(spec_hit)]
    pub fn hit(&self, ray: &Ray, t_min: Scalar, t_max: Scalar) -> (b: bool)
        ensures
            b == self.spec_hit(ray, t_min, t_max),
    {
        let (x0, x1) = clip_to_slab(
            self.min.x,
            self.max.x,
            ray.origin.x,
            ray.direction.x,
            t_min,
            t_max,
        );
        if x1.raw <= x0.raw {
            return false;
        }
        let (y0, y1) = clip_to_slab(self.min.y, self.max.y, ray.origin.y, ray.direction.y, x0, x1);
        if y1.raw <= y0.raw {
            return false;
        }
        let (z0, z1) = clip_to_slab(self.min.z, self.max.z, ray.origin.z, ray.direction.z, y0, y1);
        z0.raw < z1.raw
    }
}

/// Merging a box with itself gives the box back.
pub proof fn lemma_surrounding_box_idempotent(a: AABB)
    ensures
        AABB::surrounding_box(a, a) == a,
{
}

/// The merge of two boxes contains all eight corners of each of them.
pub proof fn lemma_surrounding_box_contains_corners(
    a: AABB,
    b: AABB,
    upper_x: bool,
    upper_y: bool,
    upper_z: bool,
)
    requires
        a.wf(),
        b.wf(),
    ensures
        AABB::surrounding_box(a, b).contains(a.corner(upper_x, upper_y, upper_z)),
        AABB::surrounding_box(a, b).contains(b.corner(upper_x, upper_y, upper_z)),
{
}

/// The merge is the tightest such box: every box that encloses both `a` and
/// `b` encloses their merge.
pub proof fn lemma_surrounding_box_tightest(a: AABB, b: AABB, c: AABB)
    requires
        c.encloses(a),
        c.encloses(b),
    ensures
        c.encloses(AABB::surrounding_box(a, b)),
{
}

/// Merging does not depend on the order of the two boxes.
pub proof fn lemma_surrounding_box_commutes(a: AABB, b: AABB)
    ensures
        AABB::surrounding_box(a, b) == AABB::surrounding_box(b, a),
{
}

} // verus!
