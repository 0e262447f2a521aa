//! Spheres at rest.

use crate::aabb::AABB;
use crate::hit::HitRecord;
use crate::material::Material;
use crate::ray::Ray;
use crate::scalar::{is_floor_sqrt, lemma_floor_sqrt_unique, lemma_sqrt_is_floor, Scalar};
use crate::utils::get_sphere_uv;
use crate::vec3::Vec3;
use vstd::prelude::*;

verus! {

/// The two parameters at which a ray meets a sphere of the given radius,
/// nearer one first, where `oc` leads from the centre to the ray's origin.
/// They solve `a t^2 + 2 b t + c = 0` with `a = d . d`, `b = oc . d`,
/// `c = oc . oc - r^2`, and exist where the discriminant `b^2 - a c` is
/// positive.
pub open spec fn spec_sphere_roots(oc: Vec3, direction: Vec3, radius: Scalar) -> Option<
    (Scalar, Scalar),
> {
    let a = direction.dot(direction);
    let b = oc.dot(direction);
    let c = oc.dot(oc).minus(radius.times(radius));
    let discriminant = b.times(b).minus(a.times(c));
    if discriminant@ > 0 {
        let root = discriminant.sqrt();
        Some((b.negate().minus(root).over(a), b.negate().plus(root).over(a)))
    } else {
        None
    }
}

/// The two parameters at which a ray meets a sphere, nearer one first; none
/// where the ray misses or only touches it.
#[verifier::when_used_as_spec(spec_sphere_roots)]
pub fn sphere_roots(oc: Vec3, direction: Vec3, radius: Scalar) -> (r: Option<(Scalar, Scalar)>)
    ensures
        r == spec_sphere_roots(oc, direction, radius),
{
    let a = direction.dot(direction);
    let b = oc.dot(direction);
    let c = oc.dot(oc).minus(radius.times(radius));
    let discriminant = b.times(b).minus(a.times(c));
    if discriminant.raw > 0 {
        let root = discriminant.sqrt();
        Some((b.negate().minus(root).over(a), b.negate().plus(root).over(a)))
    } else {
        None
    }
}

/// The first of the two roots that lies strictly between `t_min` and `t_max`.
pub open spec fn spec_root_in_range(
    roots: Option<(Scalar, Scalar)>,
    t_min: Scalar,
    t_max: Scalar,
) -> Option<Scalar> {
    match roots {
        Some((near, far)) => if t_min@ < near@ < t_max@ {
            Some(near)
        } else if t_min@ < far@ < t_max@ {
            Some(far)
        } else {
            None
        },
        None => None,
    }
}

/// The first of the two roots that lies strictly between `t_min` and `t_max`:
/// the nearer one is preferred.
#[verifier::when_used_as_spec(spec_root_in_range)]
pub fn root_in_range(roots: Option<(Scalar, Scalar)>, t_min: Scalar, t_max: Scalar) -> (r: Option<
    Scalar,
>)
    ensures
        r == spec_root_in_range(roots, t_min, t_max),
        r matches Some(t) ==> t_min@ < t@ < t_max@,
{
    match roots {
        Some((near, far)) => if t_min.raw < near.raw && near.raw < t_max.raw {
            Some(near)
        } else if t_min.raw < far.raw && far.raw < t_max.raw {
            Some(far)
        } else {
            None
        },
        None => None,
    }
}

/// A sphere.
pub struct Sphere {
    pub center: Vec3,
    pub radius: Scalar,
    pub material: Material,
}

impl Sphere {
    /// The record of the hit at parameter `t`: the outward normal is the
    /// offset from the centre divided by the radius, and the surface
    /// coordinates are those of the normal on the unit sphere.
    pub open spec fn record_at(&self, ray: &Ray, t: Scalar) -> HitRecord {
        let p = ray.point_at_parameter(t);
        let normal = p.minus(self.center).shrink(self.radius);
        let (u, v) = get_sphere_uv(normal);
        HitRecord { t, p, normal, u, v, mat: &self.material }
    }

    /// The nearest point at which `ray` meets the sphere with a parameter
    /// strictly between `t_min` and `t_max`.
    pub open spec fn spec_hit(&self, ray: &Ray, t_min: Scalar, t_max: Scalar) -> Option<HitRecord> {
        match root_in_range(
            sphere_roots(ray.origin.minus(self.center), ray.direction, self.radius),
            t_min,
            t_max,
        ) {
            Some(t) => Some(self.record_at(ray, t)),
            None => None,
        }
    }

    /// The cube of half-width `radius` about the centre, whatever the time.
    pub open spec fn spec_bounding_box(&self, t0: Scalar, t1: Scalar) -> Option<AABB> {
        Some(
            AABB {
                min: self.center.minus(Vec3::splat(self.radius)),
                max: self.center.plus(Vec3::splat(self.radius)),
            },
        )
    }

    /// The nearest point at which `ray` meets the sphere with a parameter
    /// strictly between `t_min` and `t_max`.
    pub fn hit<'a>(&'a self, ray: &Ray, t_min: Scalar, t_max: Scalar) -> (r: Option<HitRecord<'a>>)
        ensures
            r == self.spec_hit(ray, t_min, t_max),
            r matches Some(rec) ==> t_min@ < rec.t@ < t_max@,
    {
        let roots = sphere_roots(ray.origin.minus(self.center), ray.direction, self.radius);
        match root_in_range(roots, t_min, t_max) {
            Some(t) => {
                let p = ray.point_at_parameter(t);
                let normal = p.minus(self.center).shrink(self.radius);
                let (u, v) = get_sphere_uv(normal);
                Some(HitRecord { t, p, normal, u, v, mat: &self.material })
            },
            None => None,
        }
    }

    /// The cube of half-width `radius` about the centre, whatever the time.
    #[verifier::when_used_as_spec(spec_bounding_box)]
    pub fn bounding_box(&self, t0: Scalar, t1: Scalar) -> (r: Option<AABB>)
        ensures
            r == self.spec_bounding_box(t0, t1),
    {
        Some(
            AABB {
                min: self.center.minus(Vec3::splat(self.radius)),
                max: self.center.plus(Vec3::splat(self.radius)),
            },
        )
    }
}

/// A ray along the `z` axis that is aimed through the centre of a sphere from
/// outside meets it at the distance to the centre less the radius, and
/// leaves it at the distance plus the radius. Here the sphere has the whole
/// radius `r`, and the ray starts at the whole distance `d` from the centre
/// and has unit direction; for such numbers the arithmetic is exact.
pub proof fn lemma_roots_through_the_centre(d: i32, r: i32)
    requires
        0 < r < d <= 0x10_0000,
    ensures
        spec_sphere_roots(
            Vec3::new(Scalar::zero(), Scalar::zero(), Scalar::from_int(d).negate()),
            Vec3::new(Scalar::zero(), Scalar::zero(), Scalar::one()),
            Scalar::from_int(r),
        ) == Some((Scalar::from_int((d - r) as i32), Scalar::from_int((d + r) as i32))),
{
    let oc = Vec3::new(Scalar::zero(), Scalar::zero(), Scalar::from_int(d).negate());
    let direction = Vec3::new(Scalar::zero(), Scalar::zero(), Scalar::one());
    let radius = Scalar::from_int(r);
    let dd = d as int;
    let rr = r as int;
    assert(0 * 0 == 0int);
    assert(65536 * 65536 / 65536 == 65536int);
    let a = direction.dot(direction);
    assert(a@ == 65536);
    assert((-(dd * 65536)) * 65536 == -(dd * 65536 * 65536)) by (nonlinear_arith);
    assert((dd * 65536 * 65536) / 65536 == dd * 65536) by (nonlinear_arith);
    let b = oc.dot(direction);
    assert(b@ == -(dd * 65536));
    assert((-(dd * 65536)) * (-(dd * 65536)) == dd * dd * 65536 * 65536) by (nonlinear_arith);
    assert((dd * dd * 65536 * 65536) / 65536 == dd * dd * 65536) by (nonlinear_arith);
    assert(0 <= dd * dd <= 0x10_0000 * 0x10_0000) by (nonlinear_arith)
        requires
            0 <= dd <= 0x10_0000,
    ;
    assert((rr * 65536) * (rr * 65536) == rr * rr * 65536 * 65536) by (nonlinear_arith);
    assert((rr * rr * 65536 * 65536) / 65536 == rr * rr * 65536) by (nonlinear_arith);
    assert(0 < rr * rr < dd * dd) by (nonlinear_arith)
        requires
            0 < rr < dd,
    ;
    let c = oc.dot(oc).minus(radius.times(radius));
    assert(c@ == (dd * dd - rr * rr) * 65536) by (nonlinear_arith)
        requires
            c@ == dd * dd * 65536 - rr * rr * 65536,
    ;
    assert(65536 * ((dd * dd - rr * rr) * 65536) / 65536 == (dd * dd - rr * rr) * 65536)
        by (nonlinear_arith);
    let discriminant = b.times(b).minus(a.times(c));
    assert(discriminant@ == rr * rr * 65536) by (nonlinear_arith)
        requires
            discriminant@ == dd * dd * 65536 - (dd * dd - rr * rr) * 65536,
    ;
    lemma_sqrt_is_floor(discriminant);
    assert(is_floor_sqrt(rr * rr * 65536 * 65536, rr * 65536)) by (nonlinear_arith)
        requires
            0 < rr,
    ;
    lemma_floor_sqrt_unique(discriminant@ * 65536, discriminant.sqrt()@, rr * 65536);
    let root = discriminant.sqrt();
    assert(root@ == rr * 65536);
    assert(((dd - rr) * 65536) * 65536 / 65536 == (dd - rr) * 65536) by (nonlinear_arith);
    assert(((dd + rr) * 65536) * 65536 / 65536 == (dd + rr) * 65536) by (nonlinear_arith);
}

/// The ray that starts at the whole distance `d` below the origin on the `z`
/// axis and runs up the axis with unit speed.
pub open spec fn ray_up_the_axis(d: i32, time: Scalar) -> Ray {
    Ray {
        origin: Vec3::new(Scalar::zero(), Scalar::zero(), Scalar::from_int(d).negate()),
        direction: Vec3::new(Scalar::zero(), Scalar::zero(), Scalar::one()),
        time,
    }
}

/// What a sphere of whole radius `r` about a centre that lies at the origin
/// reports for the ray up the axis from the whole distance `d` outside it:
/// the hit at the distance less the radius, at the lowest point of the
/// sphere, with the normal of unit length that points down against the ray.
pub proof fn lemma_round_trip_through_the_centre(
    center: Vec3,
    radius: Scalar,
    d: i32,
    r: i32,
    time: Scalar,
    t_min: Scalar,
    t_max: Scalar,
)
    requires
        center == Vec3::splat(Scalar::zero()),
        radius == Scalar::from_int(r),
        0 < r < d <= 0x10_0000,
        t_min@ < (d - r) * 65536 < t_max@,
    ensures
        ({
            let ray = ray_up_the_axis(d, time);
            let roots = spec_sphere_roots(ray.origin.minus(center), ray.direction, radius);
            let t = Scalar::from_int((d - r) as i32);
            let p = ray.point_at_parameter(t);
            let normal = p.minus(center).shrink(radius);
            &&& spec_root_in_range(roots, t_min, t_max) == Some(t)
            &&& p == Vec3::new(Scalar::zero(), Scalar::zero(), Scalar::from_int(r).negate())
            &&& normal == Vec3::new(Scalar::zero(), Scalar::zero(), Scalar::one().negate())
            &&& normal.len() == Scalar::one()
            &&& normal.dot(ray.direction)@ < 0
        }),
{
    lemma_roots_through_the_centre(d, r);
    let dd = d as int;
    let rr = r as int;
    let ray = ray_up_the_axis(d, time);
    let t = Scalar::from_int((d - r) as i32);
    assert(0 * ((dd - rr) * 65536) / 65536 == 0int) by (nonlinear_arith);
    assert(65536 * ((dd - rr) * 65536) / 65536 == (dd - rr) * 65536) by (nonlinear_arith);
    let p = ray.point_at_parameter(t);
    assert(p.z@ == -(rr * 65536));
    assert(0int * 65536 / (rr * 65536) == 0) by (nonlinear_arith)
        requires
            rr > 0,
    ;
    assert((rr * 65536) * 65536 / (rr * 65536) == 65536) by (nonlinear_arith)
        requires
            rr > 0,
    ;
    let normal = p.minus(center).shrink(radius);
    assert(normal.z@ == -65536);
    assert(0int * 0 / 65536 == 0);
    assert((-65536int) * (-65536) / 65536 == 65536);
    assert(65536int * 65536 / 65536 == 65536);
    let squared = normal.dot(normal);
    assert(squared@ == 65536);
    lemma_sqrt_is_floor(squared);
    assert(is_floor_sqrt(65536int * 65536, 65536)) by (nonlinear_arith);
    lemma_floor_sqrt_unique(65536int * 65536, squared.sqrt()@, 65536);
}

} // verus!
