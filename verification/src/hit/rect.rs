//! Axis-aligned rectangles.

use crate::aabb::AABB;
use crate::hit::{HitRecord, Surface};
use crate::material::Material;
use crate::ray::Ray;
use crate::scalar::Scalar;
use crate::vec3::Vec3;
use vstd::prelude::*;

verus! {

/// Half the thickness that the bounding box of a rectangle has across its
/// plane: about a ten-thousandth.
pub const PAD_RAW: i64 = 7;

/// One of the three coordinate axes.
#[derive(Clone, Copy, Debug, PartialEq, Eq, Structural)]
pub enum Axis {
    X,
    Y,
    Z,
}

impl Axis {
    /// The coordinate of `v` along the axis.
    pub open spec fn spec_of(self, v: Vec3) -> Scalar {
        match self {
            Axis::X => v.x,
            Axis::Y => v.y,
            Axis::Z => v.z,
        }
    }

    /// The coordinate of `v` along the axis.
    #[verifier::when_used_as_spec(spec_of)]
    pub fn of(self, v: Vec3) -> (s: Scalar)
        ensures
            s == self.spec_of(v),
    {
        match self {
            Axis::X => v.x,
            Axis::Y => v.y,
            Axis::Z => v.z,
        }
    }

    /// The unit vector along the axis.
    pub open spec fn spec_unit(self) -> Vec3 {
        match self {
            Axis::X => Vec3 { x: Scalar::one(), y: Scalar::zero(), z: Scalar::zero() },
            Axis::Y => Vec3 { x: Scalar::zero(), y: Scalar::one(), z: Scalar::zero() },
            Axis::Z => Vec3 { x: Scalar::zero(), y: Scalar::zero(), z: Scalar::one() },
        }
    }

    /// The unit vector along the axis.
    #[verifier::when_used_as_spec(spec_unit)]
    pub fn unit(self) -> (v: Vec3)
        ensures
            v == self.spec_unit(),
    {
        match self {
            Axis::X => Vec3 { x: Scalar::one(), y: Scalar::zero(), z: Scalar::zero() },
            Axis::Y => Vec3 { x: Scalar::zero(), y: Scalar::one(), z: Scalar::zero() },
            Axis::Z => Vec3 { x: Scalar::zero(), y: Scalar::zero(), z: Scalar::one() },
        }
    }

    /// The first of the two other axes, in the order `x`, `y`, `z`.
    pub open spec fn spec_first(self) -> Axis {
        match self {
            Axis::X => Axis::Y,
            Axis::Y => Axis::X,
            Axis::Z => Axis::X,
        }
    }

    /// The first of the two other axes, in the order `x`, `y`, `z`.
    #[verifier::when_used_as_spec(spec_first)]
    pub fn first(self) -> (a: Axis)
        ensures
            a == self.spec_first(),
    {
        match self {
            Axis::X => Axis::Y,
            Axis::Y => Axis::X,
            Axis::Z => Axis::X,
        }
    }

    /// The second of the two other axes, in the order `x`, `y`, `z`.
    pub open spec fn spec_second(self) -> Axis {
        match self {
            Axis::X => Axis::Z,
            Axis::Y => Axis::Z,
            Axis::Z => Axis::Y,
        }
    }

    /// The second of the two other axes, in the order `x`, `y`, `z`.
    #[verifier::when_used_as_spec(spec_second)]
    pub fn second(self) -> (a: Axis)
        ensures
            a == self.spec_second(),
    {
        match self {
            Axis::X => Axis::Z,
            Axis::Y => Axis::Z,
            Axis::Z => Axis::Y,
        }
    }

    /// The point with coordinate `k` along the axis and coordinates `a`, `b`
    /// along the first and second of the other two.
    pub open spec fn spec_point(self, a: Scalar, b: Scalar, k: Scalar) -> Vec3 {
        match self {
            Axis::X => Vec3 { x: k, y: a, z: b },
            Axis::Y => Vec3 { x: a, y: k, z: b },
            Axis::Z => Vec3 { x: a, y: b, z: k },
        }
    }

    /// The point with coordinate `k` along the axis and coordinates `a`, `b`
    /// along the first and second of the other two.
    #[verifier::when_used_as_spec(spec_point)]
    pub fn point(self, a: Scalar, b: Scalar, k: Scalar) -> (p: Vec3)
        ensures
            p == self.spec_point(a, b, k),
    {
        match self {
            Axis::X => Vec3 { x: k, y: a, z: b },
            Axis::Y => Vec3 { x: a, y: k, z: b },
            Axis::Z => Vec3 { x: a, y: b, z: k },
        }
    }
}

/// The geometry of a rectangle in the plane where the coordinate along
/// `axis` is `k`: it spans `[a0, a1]` along the first of the two other axes
/// and `[b0, b1]` along the second.
#[derive(Clone, Copy, Debug, PartialEq, Eq, Structural)]
pub struct Face {
    pub axis: Axis,
    pub a0: Scalar,
    pub a1: Scalar,
    pub b0: Scalar,
    pub b1: Scalar,
    pub k: Scalar,
}

impl Face {
    /// The parameter at which the ray crosses the plane of the face.
    pub open spec fn spec_crossing(&self, ray: &Ray) -> Scalar {
        self.k.minus(self.axis.of(ray.origin)).over(self.axis.of(ray.direction))
    }

    /// Where the ray crosses the plane of the face with a parameter strictly
    /// between `t_min` and `t_max` and the crossing lies within both ranges,
    /// the surface there: the normal is the unit vector of the axis and
    /// `(u, v)` is the position within the ranges, each from 0 to 1.
    pub open spec fn spec_hit(&self, ray: &Ray, t_min: Scalar, t_max: Scalar) -> Option<Surface> {
        let t = self.spec_crossing(ray);
        let a = self.axis.first().of(ray.origin).plus(
            self.axis.first().of(ray.direction).times(t),
        );
        let b = self.axis.second().of(ray.origin).plus(
            self.axis.second().of(ray.direction).times(t),
        );
        if t@ <= t_min@ || t@ >= t_max@ {
            None
        } else if a@ < self.a0@ || a@ > self.a1@ || b@ < self.b0@ || b@ > self.b1@ {
            None
        } else {
            Some(
                Surface {
                    t,
                    p: ray.point_at_parameter(t),
                    normal: self.axis.unit(),
                    u: a.minus(self.a0).over(self.a1.minus(self.a0)),
                    v: b.minus(self.b0).over(self.b1.minus(self.b0)),
                },
            )
        }
    }

    /// Where the ray crosses the plane of the face with a parameter strictly
    /// between `t_min` and `t_max` and the crossing lies within both ranges,
    /// the surface there: the normal is the unit vector of the axis and
    /// `(u, v)` is the position within the ranges, each from 0 to 1.
    #[verifier::when_used_as_spec(spec_hit)]
    pub fn hit(&self, ray: &Ray, t_min: Scalar, t_max: Scalar) -> (r: Option<Surface>)
        ensures
            r == self.spec_hit(ray, t_min, t_max),
            r matches Some(s) ==> t_min@ < s.t@ < t_max@,
    {
        let t = self.k.minus(self.axis.of(ray.origin)).over(self.axis.of(ray.direction));
        let a = self.axis.first().of(ray.origin).plus(
            self.axis.first().of(ray.direction).times(t),
        );
        let b = self.axis.second().of(ray.origin).plus(
            self.axis.second().of(ray.direction).times(t),
        );
        if t.raw <= t_min.raw || t.raw >= t_max.raw {
            None
        } else if a.raw < self.a0.raw || a.raw > self.a1.raw || b.raw < self.b0.raw || b.raw
            > self.b1.raw {
            None
        } else {
            Some(
                Surface {
                    t,
                    p: ray.point_at_parameter(t),
                    normal: self.axis.unit(),
                    u: a.minus(self.a0).over(self.a1.minus(self.a0)),
                    v: b.minus(self.b0).over(self.b1.minus(self.b0)),
                },
            )
        }
    }

    /// The box of the face: the rectangle itself, thickened by the padding on
    /// either side of its plane so that the slab test can meet it.
    pub open spec fn spec_bounding_box(&self) -> AABB {
        AABB {
            min: self.axis.point(self.a0, self.b0, self.k.minus(Scalar { raw: PAD_RAW })),
            max: self.axis.point(self.a1, self.b1, self.k.plus(Scalar { raw: PAD_RAW })),
        }
    }

    /// The box of the face: the rectangle itself, thickened by the padding on
    /// either side of its plane so that the slab test can meet it.
    #[verifier::when_used_as_spec(spec_bounding_box)]
    pub fn bounding_box(&self) -> (b: AABB)
        ensures
            b == self.spec_bounding_box(),
    {
        AABB {
            min: self.axis.point(self.a0, self.b0, self.k.minus(Scalar { raw: PAD_RAW })),
            max: self.axis.point(self.a1, self.b1, self.k.plus(Scalar { raw: PAD_RAW })),
        }
    }
}

/// A rectangle in the plane `z = k`, facing along `z`.
pub struct XYRect {
    pub x0: Scalar,
    pub x1: Scalar,
    pub y0: Scalar,
    pub y1: Scalar,
    pub k: Scalar,
    pub material: Material,
}

/// A rectangle in the plane `y = k`, facing along `y`.
pub struct XZRect {
    pub x0: Scalar,
    pub x1: Scalar,
    pub z0: Scalar,
    pub z1: Scalar,
    pub k: Scalar,
    pub material: Material,
}

/// A rectangle in the plane `x = k`, facing along `x`.
pub struct YZRect {
    pub y0: Scalar,
    pub y1: Scalar,
    pub z0: Scalar,
    pub z1: Scalar,
    pub k: Scalar,
    pub material: Material,
}

impl XYRect {
    /// The geometry of the rectangle.
    pub open spec fn spec_face(&self) -> Face {
        Face { axis: Axis::Z, a0: self.x0, a1: self.x1, b0: self.y0, b1: self.y1, k: self.k }
    }

    /// The geometry of the rectangle.
    #[verifier::when_used_as_spec(spec_face)]
    pub fn face(&self) -> (f: Face)
        ensures
            f == self.spec_face(),
    {
        Face { axis: Axis::Z, a0: self.x0, a1: self.x1, b0: self.y0, b1: self.y1, k: self.k }
    }

    /// Where the ray crosses the plane of the face with a parameter strictly
    /// between `t_min` and `t_max` and the crossing lies within both ranges,
    /// the surface there: the normal is the unit vector of the axis and
    /// `(u, v)` is the position within the ranges, each from 0 to 1.
    pub open spec fn spec_hit(&self, ray: &Ray, t_min: Scalar, t_max: Scalar) -> Option<HitRecord> {
        match self.face().hit(ray, t_min, t_max) {
            Some(s) => Some(s.on(&self.material)),
            None => None,
        }
    }

    /// The box of the face: the rectangle itself, thickened by the padding on
    /// either side of its plane so that the slab test can meet it.
    pub open spec fn spec_bounding_box(&self, t0: Scalar, t1: Scalar) -> Option<AABB> {
        Some(self.face().bounding_box())
    }

    /// The point at which `ray` crosses the rectangle with a parameter
    /// strictly between `t_min` and `t_max`.
    pub fn hit<'a>(&'a self, ray: &Ray, t_min: Scalar, t_max: Scalar) -> (r: Option<HitRecord<'a>>)
        ensures
            r == self.spec_hit(ray, t_min, t_max),
            r matches Some(rec) ==> t_min@ < rec.t@ < t_max@,
    {
        match self.face().hit(ray, t_min, t_max) {
            Some(s) => Some(s.on(&self.material)),
            None => None,
        }
    }

    /// The padded box of the rectangle, whatever the time.
    #[verifier::when_used_as_spec(spec_bounding_box)]
    pub fn bounding_box(&self, t0: Scalar, t1: Scalar) -> (r: Option<AABB>)
        ensures
            r == self.spec_bounding_box(t0, t1),
    {
        Some(self.face().bounding_box())
    }
}

impl XZRect {
    /// The geometry of the rectangle.
    pub open spec fn spec_face(&self) -> Face {
        Face { axis: Axis::Y, a0: self.x0, a1: self.x1, b0: self.z0, b1: self.z1, k: self.k }
    }

    /// The geometry of the rectangle.
    #[verifier::when_used_as_spec(spec_face)]
    pub fn face(&self) -> (f: Face)
        ensures
            f == self.spec_face(),
    {
        Face { axis: Axis::Y, a0: self.x0, a1: self.x1, b0: self.z0, b1: self.z1, k: self.k }
    }

    /// Where the ray crosses the plane of the face with a parameter strictly
    /// between `t_min` and `t_max` and the crossing lies within both ranges,
    /// the surface there: the normal is the unit vector of the axis and
    /// `(u, v)` is the position within the ranges, each from 0 to 1.
    pub open spec fn spec_hit(&self, ray: &Ray, t_min: Scalar, t_max: Scalar) -> Option<HitRecord> {
        match self.face().hit(ray, t_min, t_max) {
            Some(s) => Some(s.on(&self.material)),
            None => None,
        }
    }

    /// The box of the face: the rectangle itself, thickened by the padding on
    /// either side of its plane so that the slab test can meet it.
    pub open spec fn spec_bounding_box(&self, t0: Scalar, t1: Scalar) -> Option<AABB> {
        Some(self.face().bounding_box())
    }

    /// The point at which `ray` crosses the rectangle with a parameter
    /// strictly between `t_min` and `t_max`.
    pub fn hit<'a>(&'a self, ray: &Ray, t_min: Scalar, t_max: Scalar) -> (r: Option<HitRecord<'a>>)
        ensures
            r == self.spec_hit(ray, t_min, t_max),
            r matches Some(rec) ==> t_min@ < rec.t@ < t_max@,
    {
        match self.face().hit(ray, t_min, t_max) {
            Some(s) => Some(s.on(&self.material)),
            None => None,
        }
    }

    /// The padded box of the rectangle, whatever the time.
    #[verifier::when_used_as_spec(spec_bounding_box)]
    pub fn bounding_box(&self, t0: Scalar, t1: Scalar) -> (r: Option<AABB>)
        ensures
            r == self.spec_bounding_box(t0, t1),
    {
        Some(self.face().bounding_box())
    }
}

impl YZRect {
    /// The geometry of the rectangle.
    pub open spec fn spec_face(&self) -> Face {
        Face { axis: Axis::X, a0: self.y0, a1: self.y1, b0: self.z0, b1: self.z1, k: self.k }
    }

    /// The geometry of the rectangle.
    #[verifier::when_used_as_spec(spec_face)]
    pub fn face(&self) -> (f: Face)
        ensures
            f == self.spec_face(),
    {
        Face { axis: Axis::X, a0: self.y0, a1: self.y1, b0: self.z0, b1: self.z1, k: self.k }
    }

    /// Where the ray crosses the plane of the face with a parameter strictly
    /// between `t_min` and `t_max` and the crossing lies within both ranges,
    /// the surface there: the normal is the unit vector of the axis and
    /// `(u, v)` is the position within the ranges, each from 0 to 1.
    pub open spec fn spec_hit(&self, ray: &Ray, t_min: Scalar, t_max: Scalar) -> Option<HitRecord> {
        match self.face().hit(ray, t_min, t_max) {
            Some(s) => Some(s.on(&self.material)),
            None => None,
        }
    }

    /// The box of the face: the rectangle itself, thickened by the padding on
    /// either side of its plane so that the slab test can meet it.
    pub open spec fn spec_bounding_box(&self, t0: Scalar, t1: Scalar) -> Option<AABB> {
        Some(self.face().bounding_box())
    }

    /// The point at which `ray` crosses the rectangle with a parameter
    /// strictly between `t_min` and `t_max`.
    pub fn hit<'a>(&'a self, ray: &Ray, t_min: Scalar, t_max: Scalar) -> (r: Option<HitRecord<'a>>)
        ensures
            r == self.spec_hit(ray, t_min, t_max),
            r matches Some(rec) ==> t_min@ < rec.t@ < t_max@,
    {
        match self.face().hit(ray, t_min, t_max) {
            Some(s) => Some(s.on(&self.material)),
            None => None,
        }
    }

    /// The padded box of the rectangle, whatever the time.
    #[verifier::when_used_as_spec(spec_bounding_box)]
    pub fn bounding_box(&self, t0: Scalar, t1: Scalar) -> (r: Option<AABB>)
        ensures
            r == self.spec_bounding_box(t0, t1),
    {
        Some(self.face().bounding_box())
    }
}

} // verus!
