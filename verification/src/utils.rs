//! Helpers shared by materials and primitives: rejection sampling, mirror
//! reflection, Snell refraction, Schlick's reflectance and the spherical
//! surface coordinates.

use crate::math::{asin, atan2, HALF_PI_RAW, PI_RAW};
use crate::random::{lemma_skip_adds, skip, unit_of_word, Sampler};
use crate::scalar::{
    is_floor_sqrt, lemma_floor_sqrt_unique, lemma_sqrt_is_floor, lemma_times_zero, lemma_zero_over,
    Scalar,
};
use crate::vec3::Vec3;
use vstd::prelude::*;

verus! {

/// How often a rejection sampler may draw: the full range of its counter. A
/// candidate is accepted with a chance above a half, so that no run comes
/// near this bound; beyond it the sampler would settle for the origin.
pub const MAX_DRAWS: u32 = 0xffff_ffff;

/// The point lies strictly inside the unit sphere about the origin.
pub open spec fn in_unit_sphere(p: Vec3) -> bool {
    p.dot(p)@ < 65536
}

/// A point of the unit square `[0, 1)^2` of the plane `z = 0` mapped to the
/// square `[-1, 1)^2`.
pub open spec fn spec_centered_in_plane(x: Scalar, y: Scalar) -> Vec3 {
    Vec3::new(x, y, Scalar::zero()).scale(Scalar::from_int(2)).minus(
        Vec3::new(Scalar::one(), Scalar::one(), Scalar::zero()),
    )
}

/// A point of the unit square `[0, 1)^2` of the plane `z = 0` mapped to the
/// square `[-1, 1)^2`: twice the point, less one in both coordinates.
#[verifier::when_used_as_spec(spec_centered_in_plane)]
pub fn centered_in_plane(x: Scalar, y: Scalar) -> (p: Vec3)
    ensures
        p == spec_centered_in_plane(x, y),
        p.z == Scalar::zero(),
{
    proof {
        lemma_times_zero(Scalar::from_int(2));
    }
    Vec3::new(x, y, Scalar::zero()).scale(Scalar::from_int(2)).minus(
        Vec3::new(Scalar::one(), Scalar::one(), Scalar::zero()),
    )
}

/// The point lies in the plane `z = 0`, strictly inside the unit circle.
pub open spec fn in_unit_disk(p: Vec3) -> bool {
    p.dot(p)@ < 65536 && p.z@ == 0
}

/// A point of the unit cube `[0, 1)^3` mapped to the cube `[-1, 1)^3`: twice the
/// point, less one in every coordinate.
pub open spec fn spec_centered(draw: Vec3) -> Vec3 {
    draw.scale(Scalar::from_int(2)).minus(Vec3::splat(Scalar::one()))
}

/// A point of the unit cube `[0, 1)^3` mapped to the cube `[-1, 1)^3`: twice the
/// point, less one in every coordinate.
#[verifier::when_used_as_spec(spec_centered)]
pub fn centered(draw: Vec3) -> (p: Vec3)
    ensures
        p == spec_centered(draw),
{
    draw.scale(Scalar::from_int(2)).minus(Vec3::splat(Scalar::one()))
}

/// What rejection sampling in the unit sphere finds in a stream of words with
/// `tries` tries left, and how many words it uses. Each try takes three words
/// for a point of the cube `[-1, 1)^3` and ends the search where the point
/// lies strictly inside the sphere; when no try is left the search settles
/// for the origin.
pub open spec fn sphere_search(words: spec_fn(nat) -> u32, tries: nat) -> (Vec3, nat)
    decreases tries,
{
    if tries == 0 {
        (Vec3::splat(Scalar::zero()), 0)
    } else {
        let p = centered(Vec3::drawn(words));
        if in_unit_sphere(p) {
            (p, 3)
        } else {
            let (found, used) = sphere_search(skip(words, 3), (tries - 1) as nat);
            (found, used + 3)
        }
    }
}

/// The point strictly inside the unit sphere that a stream of words gives.
pub open spec fn sphere_point(words: spec_fn(nat) -> u32) -> Vec3 {
    sphere_search(words, MAX_DRAWS as nat).0
}

/// The number of words that finding [`sphere_point`] uses.
pub open spec fn sphere_words(words: spec_fn(nat) -> u32) -> nat {
    sphere_search(words, MAX_DRAWS as nat).1
}

/// A random point strictly inside the unit sphere: points of the enclosing
/// cube are drawn until one falls inside. The result and the number of words
/// that the sampler moves on by are those of [`sphere_search`].
pub fn random_in_unit_sphere(sampler: &mut Sampler) -> (p: Vec3)
    ensures
        p == sphere_point(old(sampler).words()),
        final(sampler).follows(*old(sampler), sphere_words(old(sampler).words())),
        in_unit_sphere(p),
        p == Vec3::splat(Scalar::zero()) || exists|draw: Vec3|
            draw.in_unit_cube() && p == #[trigger] centered(draw),
{
    let ghost start = sampler.words();
    let mut draws: u32 = 0;
    while draws < MAX_DRAWS
        invariant
            draws <= MAX_DRAWS,
            start == old(sampler).words(),
            sampler.words() == skip(start, 3 * draws as nat),
            sphere_search(start, MAX_DRAWS as nat).0 == sphere_search(
                sampler.words(),
                (MAX_DRAWS - draws) as nat,
            ).0,
            sphere_search(start, MAX_DRAWS as nat).1 == sphere_search(
                sampler.words(),
                (MAX_DRAWS - draws) as nat,
            ).1 + 3 * draws,
        decreases MAX_DRAWS - draws,
    {
        let p = centered(Vec3::random(sampler));
        proof {
            lemma_skip_adds(start, 3 * draws as nat, 3);
        }
        if p.dot(p).raw < 65536 {
            return p;
        }
        draws = draws + 1;
    }
    proof {
        lemma_times_zero(Scalar::zero());
    }
    Vec3::splat(Scalar::zero())
}

/// What rejection sampling in the unit disk finds in a stream of words with
/// `tries` tries left, and how many words it uses. Each try takes two words
/// for a point of the square `[-1, 1)^2` and ends the search where the point
/// lies strictly inside the circle; when no try is left the search settles
/// for the origin.
pub open spec fn disk_search(words: spec_fn(nat) -> u32, tries: nat) -> (Vec3, nat)
    decreases tries,
{
    if tries == 0 {
        (Vec3::splat(Scalar::zero()), 0)
    } else {
        let p = centered_in_plane(unit_of_word(words(0)), unit_of_word(words(1)));
        if in_unit_disk(p) {
            (p, 2)
        } else {
            let (found, used) = disk_search(skip(words, 2), (tries - 1) as nat);
            (found, used + 2)
        }
    }
}

/// The point strictly inside the unit circle that a stream of words gives.
pub open spec fn disk_point(words: spec_fn(nat) -> u32) -> Vec3 {
    disk_search(words, MAX_DRAWS as nat).0
}

/// The number of words that finding [`disk_point`] uses.
pub open spec fn disk_words(words: spec_fn(nat) -> u32) -> nat {
    disk_search(words, MAX_DRAWS as nat).1
}

/// A random point strictly inside the unit circle of the plane `z = 0`, drawn
/// by rejection like [`random_in_unit_sphere`]. The result and the number of
/// words that the sampler moves on by are those of [`disk_search`].
pub fn random_in_unit_disk(sampler: &mut Sampler) -> (p: Vec3)
    ensures
        p == disk_point(old(sampler).words()),
        final(sampler).follows(*old(sampler), disk_words(old(sampler).words())),
        in_unit_disk(p),
        p == Vec3::splat(Scalar::zero()) || exists|x: Scalar, y: Scalar|
            0 <= x@ < 65536 && 0 <= y@ < 65536 && p == #[trigger] centered_in_plane(x, y),
{
    let ghost start = sampler.words();
    let mut draws: u32 = 0;
    while draws < MAX_DRAWS
        invariant
            draws <= MAX_DRAWS,
            start == old(sampler).words(),
            sampler.words() == skip(start, 2 * draws as nat),
            disk_search(start, MAX_DRAWS as nat).0 == disk_search(
                sampler.words(),
                (MAX_DRAWS - draws) as nat,
            ).0,
            disk_search(start, MAX_DRAWS as nat).1 == disk_search(
                sampler.words(),
                (MAX_DRAWS - draws) as nat,
            ).1 + 2 * draws,
        decreases MAX_DRAWS - draws,
    {
        let ghost before = sampler.words();
        let x = sampler.uniform();
        let y = sampler.uniform();
        let p = centered_in_plane(x, y);
        proof {
            lemma_skip_adds(before, 1, 1);
            lemma_skip_adds(start, 2 * draws as nat, 2);
        }
        if p.dot(p).raw < 65536 {
            return p;
        }
        draws = draws + 1;
    }
    proof {
        lemma_times_zero(Scalar::zero());
    }
    Vec3::splat(Scalar::zero())
}

/// The direction `v` mirrored at a surface with normal `n`: `v - 2 (v . n) n`.
pub open spec fn spec_reflect(v: Vec3, n: Vec3) -> Vec3 {
    v.minus(n.scale(Scalar::from_int(2).times(v.dot(n))))
}

/// The direction `v` mirrored at a surface with normal `n`: `v - 2 (v . n) n`.
#[verifier::when_used_as_spec(spec_reflect)]
pub fn reflect(v: Vec3, n: Vec3) -> (r: Vec3)
    ensures
        r == spec_reflect(v, n),
{
    v.minus(n.scale(Scalar::from_int(2).times(v.dot(n))))
}

/// The discriminant of Snell's law for a unit direction whose dot product with
/// the normal is `dt`: `1 - ratio^2 (1 - dt^2)`. Refraction exists where it is
/// not negative.
pub open spec fn spec_refraction_discriminant(dt: Scalar, ni_over_nt: Scalar) -> Scalar {
    Scalar::one().minus(ni_over_nt.times(ni_over_nt).times(Scalar::one().minus(dt.times(dt))))
}

/// The discriminant of Snell's law for a unit direction whose dot product with
/// the normal is `dt`: `1 - ratio^2 (1 - dt^2)`. Refraction exists where it is
/// not negative.
#[verifier::when_used_as_spec(spec_refraction_discriminant)]
pub fn refraction_discriminant(dt: Scalar, ni_over_nt: Scalar) -> (r: Scalar)
    ensures
        r == spec_refraction_discriminant(dt, ni_over_nt),
{
    Scalar::one().minus(ni_over_nt.times(ni_over_nt).times(Scalar::one().minus(dt.times(dt))))
}

/// The direction `v` refracted at a surface with normal `n`, where
/// `ni_over_nt` is the ratio of the refractive indices. There is none when the
/// discriminant is negative: total internal reflection.
pub open spec fn spec_refract(v: Vec3, n: Vec3, ni_over_nt: Scalar) -> Option<Vec3> {
    let uv = v.unit();
    let dt = uv.dot(n);
    let discriminant = refraction_discriminant(dt, ni_over_nt);
    if discriminant.raw >= 0 {
        Some(uv.minus(n.scale(dt)).scale(ni_over_nt).minus(n.scale(discriminant.sqrt())))
    } else {
        None
    }
}

/// The direction `v` refracted at a surface with normal `n`, where
/// `ni_over_nt` is the ratio of the refractive indices. There is none when the
/// discriminant is negative: total internal reflection.
#[verifier::when_used_as_spec(spec_refract)]
pub fn refract(v: Vec3, n: Vec3, ni_over_nt: Scalar) -> (r: Option<Vec3>)
    ensures
        r == spec_refract(v, n, ni_over_nt),
        r.is_some() <==> refraction_discriminant(v.unit().dot(n), ni_over_nt)@ >= 0,
{
    let uv = v.unit();
    let dt = uv.dot(n);
    let discriminant = refraction_discriminant(dt, ni_over_nt);
    if discriminant.raw >= 0 {
        Some(uv.minus(n.scale(dt)).scale(ni_over_nt).minus(n.scale(discriminant.sqrt())))
    } else {
        None
    }
}

/// The reflectance at normal incidence: `((1 - n) / (1 + n))^2`.
pub open spec fn spec_normal_reflectance(ref_idx: Scalar) -> Scalar {
    let r = Scalar::one().minus(ref_idx).over(Scalar::one().plus(ref_idx));
    r.times(r)
}

/// The reflectance at normal incidence: `((1 - n) / (1 + n))^2`.
#[verifier::when_used_as_spec(spec_normal_reflectance)]
pub fn normal_reflectance(ref_idx: Scalar) -> (r: Scalar)
    ensures
        r == spec_normal_reflectance(ref_idx),
{
    let r = Scalar::one().minus(ref_idx).over(Scalar::one().plus(ref_idx));
    r.times(r)
}

/// The fifth power.
pub open spec fn spec_fifth_power(x: Scalar) -> Scalar {
    let x2 = x.times(x);
    x2.times(x2).times(x)
}

/// The fifth power.
#[verifier::when_used_as_spec(spec_fifth_power)]
pub fn fifth_power(x: Scalar) -> (r: Scalar)
    ensures
        r == spec_fifth_power(x),
{
    let x2 = x.times(x);
    x2.times(x2).times(x)
}

/// Schlick's approximation of the reflectance of a dielectric:
/// `r0 + (1 - r0) (1 - cosine)^5`, where `r0` is the reflectance at normal
/// incidence.
pub open spec fn spec_schlick(cosine: Scalar, ref_idx: Scalar) -> Scalar {
    let r0 = normal_reflectance(ref_idx);
    r0.plus(Scalar::one().minus(r0).times(fifth_power(Scalar::one().minus(cosine))))
}

/// Schlick's approximation of the reflectance of a dielectric:
/// `r0 + (1 - r0) (1 - cosine)^5`, where `r0` is the reflectance at normal
/// incidence.
#[verifier::when_used_as_spec(spec_schlick)]
pub fn schlick(cosine: Scalar, ref_idx: Scalar) -> (r: Scalar)
    ensures
        r == spec_schlick(cosine, ref_idx),
{
    let r0 = normal_reflectance(ref_idx);
    r0.plus(Scalar::one().minus(r0).times(fifth_power(Scalar::one().minus(cosine))))
}

/// The surface coordinates of a point `p` of the unit sphere: `u` from the
/// azimuth about the `y` axis, `v` from the polar angle, both in `[0, 1]`.
pub open spec fn spec_get_sphere_uv(p: Vec3) -> (Scalar, Scalar) {
    let phi = atan2(p.z, p.x);
    let theta = asin(p.y);
    let turn = Scalar { raw: PI_RAW }.plus(Scalar { raw: PI_RAW });
    let half_turn = Scalar { raw: HALF_PI_RAW }.plus(Scalar { raw: HALF_PI_RAW });
    let u = Scalar::one().minus(phi.plus(Scalar { raw: PI_RAW }).over(turn));
    let v = theta.plus(Scalar { raw: HALF_PI_RAW }).over(half_turn);
    (u, v)
}

/// The surface coordinates of a point `p` of the unit sphere: `u` from the
/// azimuth about the `y` axis, `v` from the polar angle, both in `[0, 1]`.
#[verifier::when_used_as_spec(spec_get_sphere_uv)]
pub fn get_sphere_uv(p: Vec3) -> (r: (Scalar, Scalar))
    ensures
        r == spec_get_sphere_uv(p),
        0 <= r.0@ <= 65536,
        0 <= r.1@ <= 65536,
{
    let phi = atan2(p.z, p.x);
    let theta = asin(p.y);
    let turn = Scalar { raw: PI_RAW }.plus(Scalar { raw: PI_RAW });
    let half_turn = Scalar { raw: HALF_PI_RAW }.plus(Scalar { raw: HALF_PI_RAW });
    assert(turn@ == 411774 && half_turn@ == 205888);
    let u = Scalar::one().minus(phi.plus(Scalar { raw: PI_RAW }).over(turn));
    let v = theta.plus(Scalar { raw: HALF_PI_RAW }).over(half_turn);
    (u, v)
}

/// The smaller of two numbers; the second when they are equal.
pub open spec fn spec_ffmin(a: Scalar, b: Scalar) -> Scalar {
    if a.raw < b.raw { a } else { b }
}

/// The smaller of two numbers; the second when they are equal.
#[verifier::when_used_as_spec(spec_ffmin)]
pub fn ffmin(a: Scalar, b: Scalar) -> (r: Scalar)
    ensures
        r == spec_ffmin(a, b),
{
    if a.raw < b.raw { a } else { b }
}

/// The larger of two numbers; the second when they are equal.
pub open spec fn spec_ffmax(a: Scalar, b: Scalar) -> Scalar {
    if a.raw > b.raw { a } else { b }
}

/// The larger of two numbers; the second when they are equal.
#[verifier::when_used_as_spec(spec_ffmax)]
pub fn ffmax(a: Scalar, b: Scalar) -> (r: Scalar)
    ensures
        r == spec_ffmax(a, b),
{
    if a.raw > b.raw { a } else { b }
}

/// Multiplying by a number that is not negative keeps the order.
pub proof fn lemma_times_monotone(a: Scalar, b: Scalar, c: Scalar)
    requires
        a@ <= b@,
        c@ >= 0,
    ensures
        a.times(c)@ <= b.times(c)@,
        c.times(a)@ <= c.times(b)@,
{
    assert(a@ * c@ <= b@ * c@ && c@ * a@ == a@ * c@ && c@ * b@ == b@ * c@) by (nonlinear_arith)
        requires
            a@ <= b@,
            c@ >= 0,
    ;
}

/// The product of two numbers in `[0, 1]` lies in `[0, 1]` and is not above
/// either of them.
pub proof fn lemma_times_unit_interval(a: Scalar, b: Scalar)
    requires
        0 <= a@ <= 65536,
        0 <= b@ <= 65536,
    ensures
        0 <= a.times(b)@ <= a@,
        a.times(b)@ <= b@,
{
    assert(0 <= a@ * b@ <= a@ * 65536 && a@ * b@ <= 65536 * b@) by (nonlinear_arith)
        requires
            0 <= a@ <= 65536,
            0 <= b@ <= 65536,
    ;
}

/// The fifth power keeps the order of numbers in `[0, 1]`, and stays there.
pub proof fn lemma_fifth_power_monotone(x: Scalar, y: Scalar)
    requires
        0 <= x@ <= y@ <= 65536,
    ensures
        0 <= fifth_power(x)@ <= fifth_power(y)@ <= 65536,
{
    let x2 = x.times(x);
    let y2 = y.times(y);
    lemma_times_unit_interval(x, x);
    lemma_times_unit_interval(y, y);
    lemma_times_monotone(x, y, x);
    lemma_times_monotone(x, y, y);
    let x4 = x2.times(x2);
    let y4 = y2.times(y2);
    lemma_times_unit_interval(x2, x2);
    lemma_times_unit_interval(y2, y2);
    lemma_times_monotone(x2, y2, x2);
    lemma_times_monotone(x2, y2, y2);
    lemma_times_unit_interval(x4, x);
    lemma_times_unit_interval(y4, y);
    lemma_times_monotone(x4, y4, x);
    lemma_times_monotone(x, y, y4);
}

/// For a refractive index that is not negative, the reflectance at normal
/// incidence lies in `[0, 1]`.
pub proof fn lemma_normal_reflectance_bounds(ref_idx: Scalar)
    requires
        ref_idx@ >= 0,
    ensures
        0 <= normal_reflectance(ref_idx)@ <= 65536,
{
    let num = Scalar::one().minus(ref_idx);
    let den = Scalar::one().plus(ref_idx);
    let r = num.over(den);
    assert(-65536 <= r@ <= 65536) by {
        if num@ >= 0 {
            assert((num@ * 65536) / den@ <= 65536) by (nonlinear_arith)
                requires
                    0 <= num@ * 65536 <= den@ * 65536,
                    den@ > 0,
            ;
            assert(0 <= (num@ * 65536) / den@) by (nonlinear_arith)
                requires
                    0 <= num@ * 65536,
                    den@ > 0,
            ;
        } else {
            assert((-(num@ * 65536)) / den@ <= 65536) by (nonlinear_arith)
                requires
                    0 <= -(num@ * 65536) <= den@ * 65536,
                    den@ > 0,
            ;
            assert(0 <= (-(num@ * 65536)) / den@) by (nonlinear_arith)
                requires
                    0 <= -(num@ * 65536),
                    den@ > 0,
            ;
        }
    }
    assert(0 <= r@ * r@ <= 65536 * 65536) by (nonlinear_arith)
        requires
            -65536 <= r@ <= 65536,
    ;
}

/// At normal incidence, where the cosine is one, Schlick's formula gives the
/// reflectance at normal incidence itself; for a refractive index of one that
/// is zero.
pub proof fn lemma_schlick_normal_incidence(ref_idx: Scalar)
    requires
        ref_idx@ >= 0,
    ensures
        schlick(Scalar::one(), ref_idx) == normal_reflectance(ref_idx),
        schlick(Scalar::one(), Scalar::one()) == Scalar::zero(),
{
    lemma_normal_reflectance_bounds(ref_idx);
    lemma_normal_reflectance_bounds(Scalar::one());
    lemma_times_zero(Scalar::zero());
    lemma_times_zero(Scalar::one().minus(normal_reflectance(ref_idx)));
    lemma_times_zero(Scalar::one().minus(normal_reflectance(Scalar::one())));
    lemma_zero_over(Scalar::one().plus(Scalar::one()));
}

/// Schlick's reflectance grows with the angle of incidence: of two cosines in
/// `[0, 1]` the smaller one, which belongs to the larger angle, has the
/// reflectance that is not smaller.
pub proof fn lemma_schlick_monotone(steep: Scalar, shallow: Scalar, ref_idx: Scalar)
    requires
        0 <= shallow@ <= steep@ <= 65536,
        ref_idx@ >= 0,
    ensures
        schlick(steep, ref_idx)@ <= schlick(shallow, ref_idx)@,
{
    lemma_normal_reflectance_bounds(ref_idx);
    let r0 = normal_reflectance(ref_idx);
    let rest = Scalar::one().minus(r0);
    let x = Scalar::one().minus(steep);
    let y = Scalar::one().minus(shallow);
    lemma_fifth_power_monotone(x, y);
    lemma_times_monotone(fifth_power(x), fifth_power(y), rest);
}

/// Passing into a medium that is optically as dense or denser, where the
/// ratio of the indices lies in `[0, 1]`, never reflects totally: whatever
/// the direction and the normal, there is a refracted direction.
pub proof fn lemma_refract_into_denser(v: Vec3, n: Vec3, ni_over_nt: Scalar)
    requires
        0 <= ni_over_nt@ <= 65536,
    ensures
        refract(v, n, ni_over_nt).is_some(),
{
    let dt = v.unit().dot(n);
    let ratio2 = ni_over_nt.times(ni_over_nt);
    assert(0 <= ni_over_nt@ * ni_over_nt@ <= 65536 * 65536) by (nonlinear_arith)
        requires
            0 <= ni_over_nt@ <= 65536,
    ;
    assert(dt@ * dt@ >= 0) by (nonlinear_arith);
    let w = Scalar::one().minus(dt.times(dt));
    if w@ >= 0 {
        lemma_times_unit_interval(ratio2, w);
    } else {
        assert(ratio2@ * w@ <= 0) by (nonlinear_arith)
            requires
                ratio2@ >= 0,
                w@ < 0,
        ;
    }
}

/// At normal incidence, where the unit direction is opposite to the normal,
/// there is a refracted direction whatever the ratio of the indices.
pub proof fn lemma_refract_normal_incidence(v: Vec3, n: Vec3, ni_over_nt: Scalar)
    requires
        v.unit().dot(n) == Scalar::one().negate(),
    ensures
        refract(v, n, ni_over_nt).is_some(),
{
    let dt = v.unit().dot(n);
    assert(dt@ * dt@ == 65536 * 65536) by (nonlinear_arith)
        requires
            dt@ == -65536,
    ;
    lemma_times_zero(ni_over_nt.times(ni_over_nt));
}

/// At normal incidence the ray passes straight on, whatever the ratio of the
/// indices. Here the normal is the unit vector along `y` and the ray comes
/// down the axis with the whole speed `k`; for such numbers the arithmetic
/// is exact, the unit direction is opposite to the normal, and the refracted
/// direction is that unit direction again.
pub proof fn lemma_refract_straight_on(k: i32, ni_over_nt: Scalar)
    requires
        0 < k <= 0x10_0000,
    ensures
        refract(
            Vec3::new(Scalar::zero(), Scalar::from_int(k).negate(), Scalar::zero()),
            Vec3::new(Scalar::zero(), Scalar::one(), Scalar::zero()),
            ni_over_nt,
        ) == Some(Vec3::new(Scalar::zero(), Scalar::one().negate(), Scalar::zero())),
{
    let v = Vec3::new(Scalar::zero(), Scalar::from_int(k).negate(), Scalar::zero());
    let n = Vec3::new(Scalar::zero(), Scalar::one(), Scalar::zero());
    let kk = k as int;
    assert(0int * 0 / 65536 == 0);
    assert((-(kk * 65536)) * (-(kk * 65536)) == kk * kk * 65536 * 65536) by (nonlinear_arith);
    assert((kk * kk * 65536 * 65536) / 65536 == kk * kk * 65536) by (nonlinear_arith);
    assert(0 < kk * kk <= 0x10_0000 * 0x10_0000) by (nonlinear_arith)
        requires
            0 < kk <= 0x10_0000,
    ;
    let squared = v.dot(v);
    assert(squared@ == kk * kk * 65536);
    lemma_sqrt_is_floor(squared);
    assert(is_floor_sqrt(kk * kk * 65536 * 65536, kk * 65536)) by (nonlinear_arith)
        requires
            0 < kk,
    ;
    lemma_floor_sqrt_unique(squared@ * 65536, squared.sqrt()@, kk * 65536);
    assert(v.len()@ == kk * 65536);
    assert(0int * 65536 / (kk * 65536) == 0) by (nonlinear_arith)
        requires
            kk > 0,
    ;
    assert((kk * 65536) * 65536 / (kk * 65536) == 65536) by (nonlinear_arith)
        requires
            kk > 0,
    ;
    let uv = v.unit();
    assert(uv == Vec3::new(Scalar::zero(), Scalar::one().negate(), Scalar::zero()));
    assert((-65536int) * 65536 == -(65536 * 65536));
    assert(65536int * 65536 / 65536 == 65536);
    let dt = uv.dot(n);
    assert(dt == Scalar::one().negate());
    assert((-65536int) * (-65536) / 65536 == 65536);
    assert(dt.times(dt) == Scalar::one());
    let ratio2 = ni_over_nt.times(ni_over_nt);
    lemma_times_zero(ratio2);
    let discriminant = refraction_discriminant(dt, ni_over_nt);
    assert(discriminant == Scalar::one());
    lemma_sqrt_is_floor(discriminant);
    assert(is_floor_sqrt(65536int * 65536, 65536)) by (nonlinear_arith);
    lemma_floor_sqrt_unique(65536int * 65536, discriminant.sqrt()@, 65536);
    lemma_times_zero(ni_over_nt);
    assert(uv.minus(n.scale(dt)) == Vec3::splat(Scalar::zero()));
}

} // verus!
