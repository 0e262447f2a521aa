//! The light-transport integrator and the driver that turns a scene into
//! pixels.

use crate::camera::Camera;
use crate::hit::answers::{lemma_deterministic_answer, lemma_uses_no_word};
use crate::hit::bvh::BVHNode;
use crate::hit::equivalence::{
    all_solid, boxes_admit, lemma_bvh_reports_the_same_hit, lemma_leaves_are_solid,
    lemma_solids_are_deterministic, lemma_tree_of_solids_is_deterministic, no_ties,
};
use crate::hit::hit_list::HitList;
use crate::hit::{HitRecord, Hittable};
use crate::material::Material;
use crate::random::{lemma_skip_adds, lemma_skip_none, skip, unit_of_word, Sampler};
use crate::ray::Ray;
use crate::scalar::{lemma_times_zero, Scalar, RAW_MAX};
use crate::texture::{ConstantTexture, Texture};
use crate::utils::{in_unit_disk, in_unit_sphere};
use crate::vec3::Vec3;
use vstd::prelude::*;

verus! {

/// The number of bounces after which a path is cut off.
pub const MAX_DEPTH: u32 = 50;

/// The raw value of the least ray parameter that counts as a hit, about a
/// thousandth: it keeps a scattered ray from hitting the surface it leaves.
pub const T_MIN_RAW: i64 = 66;

/// The raw value of the factor that takes a channel in `[0, 1]` to a byte:
/// 255.999.
pub const BYTE_SCALE_RAW: i64 = 16777150;

/// A pixel: three 8-bit channels.
#[derive(Clone, Copy, Debug, PartialEq, Eq, Structural)]
pub struct Color {
    pub r: u8,
    pub g: u8,
    pub b: u8,
}

/// A scene ready to be rendered: a camera, the world it looks at, the size of
/// the image, the number of samples taken for each pixel, the number of
/// bounces after which a path is cut off, and the colour of the background.
pub struct Scene<World> {
    pub camera: Camera,
    pub width: usize,
    pub height: usize,
    pub world: World,
    pub samples_per_px: u32,
    pub rays_per_sample: u32,
    pub ambiant_color: Vec3,
}

/// The integer part of `x`, limited to the range of a byte.
pub open spec fn spec_clamp(x: Scalar) -> u8 {
    if x@ < 0 {
        0
    } else if x@ >= 255 * 65536 {
        255
    } else {
        (x@ / 65536) as u8
    }
}

/// The integer part of `x`, limited to the range of a byte.
#[verifier::when_used_as_spec(spec_clamp)]
pub fn clamp(x: Scalar) -> (r: u8)
    ensures
        r == spec_clamp(x),
{
    if x.raw < 0 {
        0
    } else if x.raw >= 255 * 65536 {
        255
    } else {
        (x.raw / 65536) as u8
    }
}

/// The radiance that leaves a surface: what it emits, and what it scatters
/// of the radiance that comes in along the scattered ray.
pub open spec fn spec_shade(emitted: Vec3, attenuation: Vec3, incoming: Vec3) -> Vec3 {
    emitted.plus(attenuation.times(incoming))
}

/// The radiance that leaves a surface: what it emits, and what it scatters
/// of the radiance that comes in along the scattered ray.
#[verifier::when_used_as_spec(spec_shade)]
pub fn shade(emitted: Vec3, attenuation: Vec3, incoming: Vec3) -> (c: Vec3)
    ensures
        c == spec_shade(emitted, attenuation, incoming),
{
    emitted.plus(attenuation.times(incoming))
}

/// `found` is an answer that the world can give for the first surface that
/// the ray meets beyond the least parameter.
#[verifier::opaque]
pub open spec fn may_meet(world: &Hittable, ray: &Ray, found: Option<HitRecord>) -> bool {
    world.may_hit(ray, Scalar { raw: T_MIN_RAW }, Scalar { raw: RAW_MAX }, found)
}

/// What happens at one vertex of a path: the surface that is met, the two
/// draws of its material, and the radiance that comes in along the scattered
/// ray.
pub struct Bounce<'a> {
    pub found: Option<HitRecord<'a>>,
    pub offset: Vec3,
    pub chance: Scalar,
    pub incoming: Vec3,
}

impl<'a> Bounce<'a> {
    /// The draws are ones that a sampler can give: a point in the unit
    /// sphere and a chance in `[0, 1)`.
    pub open spec fn valid(&self) -> bool {
        in_unit_sphere(self.offset) && 0 <= self.chance@ < 65536
    }
}

/// The vertex `bounce` explains the radiance `c` along `ray` with `bounces`
/// bounces left: the world can report its surface for the ray, and `c` is
///
/// - the background colour where the ray meets nothing;
/// - what the surface emits where no bounce is left or the surface does not
///   scatter for the draws of the vertex;
/// - otherwise what the surface emits, plus the attenuation times the
///   incoming radiance of the vertex, which can be found along the scattered
///   ray with one bounce less.
pub open spec fn explains(
    bounce: Bounce,
    world: &Hittable,
    ray: Ray,
    ambient: Vec3,
    bounces: nat,
    c: Vec3,
) -> bool
    decreases bounces, 0nat,
{
    may_meet(world, &ray, bounce.found) && match bounce.found {
        Some(rec) => if bounces == 0 {
            c == rec.mat.emitted(rec.u, rec.v, rec.p)
        } else {
            match rec.mat.scatter_with(&ray, &rec, bounce.offset, bounce.chance) {
                Some((scattered, attenuation)) => possible_radiance(
                    world,
                    scattered,
                    ambient,
                    (bounces - 1) as nat,
                    bounce.incoming,
                ) && c == spec_shade(
                    rec.mat.emitted(rec.u, rec.v, rec.p),
                    attenuation,
                    bounce.incoming,
                ),
                None => c == rec.mat.emitted(rec.u, rec.v, rec.p),
            }
        },
        None => c == ambient,
    }
}

/// `c` is a radiance that the integrator can find along `ray` with `bounces`
/// bounces left: some vertex with draws that a sampler can give explains it.
#[verifier::opaque]
pub open spec fn possible_radiance(world: &Hittable, ray: Ray, ambient: Vec3, bounces: nat, c: Vec3) -> bool
    decreases bounces, 1nat,
{
    exists|bounce: Bounce| #[trigger] bounce.valid() && explains(bounce, world, ray, ambient, bounces, c)
}

/// A path that ends at its first surface, or misses everything, has the
/// radiance that the surface emits, or the background colour.
pub proof fn lemma_path_ends(
    world: &Hittable,
    ray: Ray,
    found: Option<HitRecord>,
    ambient: Vec3,
    bounces: nat,
    c: Vec3,
)
    requires
        may_meet(world, &ray, found),
        match found {
            Some(rec) => bounces == 0 && c == rec.mat.emitted(rec.u, rec.v, rec.p),
            None => c == ambient,
        },
    ensures
        possible_radiance(world, ray, ambient, bounces, c),
{
    reveal_with_fuel(possible_radiance, 2);
    let bounce = Bounce {
        found,
        offset: Vec3::splat(Scalar::zero()),
        chance: Scalar::zero(),
        incoming: Vec3::splat(Scalar::zero()),
    };
    lemma_times_zero(Scalar::zero());
    assert(bounce.valid());
}

/// A path that goes on from its first surface has the radiance that the
/// surface emits and, where it scatters, the attenuated radiance of the rest
/// of the path.
pub proof fn lemma_path_goes_on(
    world: &Hittable,
    ray: Ray,
    rec: HitRecord,
    ambient: Vec3,
    bounces: nat,
    offset: Vec3,
    chance: Scalar,
    incoming: Vec3,
    c: Vec3,
)
    requires
        may_meet(world, &ray, Some(rec)),
        bounces > 0,
        in_unit_sphere(offset),
        0 <= chance@ < 65536,
        match rec.mat.scatter_with(&ray, &rec, offset, chance) {
            Some((scattered, attenuation)) => possible_radiance(
                world,
                scattered,
                ambient,
                (bounces - 1) as nat,
                incoming,
            ) && c == spec_shade(rec.mat.emitted(rec.u, rec.v, rec.p), attenuation, incoming),
            None => c == rec.mat.emitted(rec.u, rec.v, rec.p),
        },
    ensures
        possible_radiance(world, ray, ambient, bounces, c),
{
    reveal_with_fuel(possible_radiance, 2);
    let bounce = Bounce { found: Some(rec), offset, chance, incoming };
    assert(bounce.valid());
}

/// The first surface that a ray meets in a deterministic world, beyond the
/// least parameter.
pub open spec fn first_hit<'a>(world: &'a Hittable, ray: &Ray) -> Option<HitRecord<'a>> {
    world.spec_hit(ray, Scalar { raw: T_MIN_RAW }, Scalar { raw: RAW_MAX })
}

/// In a deterministic world a ray that meets nothing sees the background,
/// whatever the number of bounces left.
pub proof fn lemma_miss_sees_background(
    world: &Hittable,
    ray: Ray,
    ambient: Vec3,
    bounces: nat,
    c: Vec3,
)
    requires
        world.deterministic(),
        first_hit(world, &ray).is_none(),
        possible_radiance(world, ray, ambient, bounces, c),
    ensures
        c == ambient,
{
    reveal_with_fuel(possible_radiance, 2);
    reveal(may_meet);
    let bounce = choose|bounce: Bounce| #[trigger]
        bounce.valid() && explains(bounce, world, ray, ambient, bounces, c);
    lemma_deterministic_answer(
        *world,
        &ray,
        Scalar { raw: T_MIN_RAW },
        Scalar { raw: RAW_MAX },
        bounce.found,
    );
}

/// In a deterministic world a path that has no bounce left, or that meets a
/// surface that does not scatter, sees what the surface emits and nothing
/// more.
pub proof fn lemma_cutoff_sees_emission(
    world: &Hittable,
    ray: Ray,
    rec: HitRecord,
    ambient: Vec3,
    bounces: nat,
    c: Vec3,
)
    requires
        world.deterministic(),
        first_hit(world, &ray) == Some(rec),
        bounces == 0 || !rec.mat.scatters(),
        possible_radiance(world, ray, ambient, bounces, c),
    ensures
        c == rec.mat.emitted(rec.u, rec.v, rec.p),
{
    reveal_with_fuel(possible_radiance, 2);
    reveal(may_meet);
    let bounce = choose|bounce: Bounce| #[trigger]
        bounce.valid() && explains(bounce, world, ray, ambient, bounces, c);
    lemma_deterministic_answer(
        *world,
        &ray,
        Scalar { raw: T_MIN_RAW },
        Scalar { raw: RAW_MAX },
        bounce.found,
    );
}

/// The material is purely diffuse with one colour whose channels lie in
/// `[0, 1]`.
pub open spec fn is_unit_diffuse(m: &Material) -> bool {
    m matches Material::Lambertian(l) && (l.albedo matches Texture::Constant(t) && {
        &&& 0 <= t.color.x@ <= 65536
        &&& 0 <= t.color.y@ <= 65536
        &&& 0 <= t.color.z@ <= 65536
    })
}

/// No channel of `a` is negative or above the same channel of `b`.
pub open spec fn within(a: Vec3, b: Vec3) -> bool {
    &&& 0 <= a.x@ <= b.x@
    &&& 0 <= a.y@ <= b.y@
    &&& 0 <= a.z@ <= b.z@
}

/// Attenuation by at most one in every channel returns no more light than
/// came in.
pub proof fn lemma_attenuation_within(attenuation: Vec3, incoming: Vec3, limit: Vec3)
    requires
        within(attenuation, Vec3::splat(Scalar::one())),
        within(incoming, limit),
    ensures
        within(spec_shade(Vec3::splat(Scalar::zero()), attenuation, incoming), limit),
{
    assert(0 <= attenuation.x@ * incoming.x@ <= 65536 * incoming.x@) by (nonlinear_arith)
        requires
            0 <= attenuation.x@ <= 65536,
            0 <= incoming.x@,
    ;
    assert(0 <= attenuation.y@ * incoming.y@ <= 65536 * incoming.y@) by (nonlinear_arith)
        requires
            0 <= attenuation.y@ <= 65536,
            0 <= incoming.y@,
    ;
    assert(0 <= attenuation.z@ * incoming.z@ <= 65536 * incoming.z@) by (nonlinear_arith)
        requires
            0 <= attenuation.z@ <= 65536,
            0 <= incoming.z@,
    ;
}

/// No energy is created. In a world all of whose surfaces are purely diffuse
/// with colours in `[0, 1]`, lit by a background alone, no path returns more
/// light in any channel than the background gives, however many bounces it
/// makes.
pub proof fn lemma_no_energy_is_created(
    world: &Hittable,
    ray: Ray,
    ambient: Vec3,
    bounces: nat,
    c: Vec3,
)
    requires
        forall|any: Ray, found: Option<HitRecord>| #[trigger]
            may_meet(world, &any, found) ==> (found matches Some(rec) ==> is_unit_diffuse(rec.mat)),
        within(ambient, ambient),
        possible_radiance(world, ray, ambient, bounces, c),
    ensures
        within(c, ambient),
    decreases bounces,
{
    reveal_with_fuel(possible_radiance, 2);
    let bounce = choose|bounce: Bounce| #[trigger]
        bounce.valid() && explains(bounce, world, ray, ambient, bounces, c);
    match bounce.found {
        Some(rec) => {
            if bounces > 0 {
                match rec.mat.scatter_with(&ray, &rec, bounce.offset, bounce.chance) {
                    Some((scattered, attenuation)) => {
                        lemma_no_energy_is_created(
                            world,
                            scattered,
                            ambient,
                            (bounces - 1) as nat,
                            bounce.incoming,
                        );
                        lemma_attenuation_within(attenuation, bounce.incoming, ambient);
                    },
                    None => {},
                }
            }
        },
        None => {},
    }
}

/// The ray that a diffuse surface scatters from the hit `rec` of a ray at
/// `time`, for the drawn point `offset`.
pub open spec fn diffuse_ray(rec: HitRecord, time: Scalar, offset: Vec3) -> Ray {
    Ray { origin: rec.p, direction: rec.p.plus(rec.normal).plus(offset).minus(rec.p), time }
}

/// In a deterministic world the surface that the world can report for a ray
/// is the first surface that the ray meets.
pub proof fn lemma_meets_the_first_hit(world: &Hittable, ray: Ray, found: Option<HitRecord>)
    requires
        world.deterministic(),
        may_meet(world, &ray, found),
    ensures
        found == first_hit(world, &ray),
{
    reveal(may_meet);
    lemma_deterministic_answer(
        *world,
        &ray,
        Scalar { raw: T_MIN_RAW },
        Scalar { raw: RAW_MAX },
        found,
    );
}

/// One diffuse bounce to a light. In a deterministic world let the ray meet a
/// purely diffuse surface of one colour, and let every ray that this surface
/// can scatter meet a surface that does not scatter and emits `light`. Then
/// the radiance along the ray is the colour times `light`, channel by
/// channel, and where the channels of the colour lie in `[0, 1]` it is not
/// above `light` in any channel.
#[verifier::rlimit(50)]
pub proof fn lemma_one_bounce_to_a_light(
    world: &Hittable,
    ray: Ray,
    rec: HitRecord,
    albedo: Vec3,
    light: Vec3,
    ambient: Vec3,
    bounces: nat,
    c: Vec3,
)
    requires
        world.deterministic(),
        first_hit(world, &ray) == Some(rec),
        rec.mat matches Material::Lambertian(l) && l.albedo == Texture::Constant(
            ConstantTexture { color: albedo },
        ),
        bounces > 0,
        forall|offset: Vec3|
            in_unit_sphere(offset) ==> (#[trigger] first_hit(
                world,
                &diffuse_ray(rec, ray.time, offset),
            ) matches Some(lit) && !lit.mat.scatters() && lit.mat.emitted(lit.u, lit.v, lit.p)
                == light),
        possible_radiance(world, ray, ambient, bounces, c),
    ensures
        c == albedo.times(light),
        within(albedo, Vec3::splat(Scalar::one())) && within(light, light) ==> within(c, light),
{
    reveal_with_fuel(possible_radiance, 2);
    let bounce = choose|bounce: Bounce| #[trigger]
        bounce.valid() && explains(bounce, world, ray, ambient, bounces, c);
    lemma_meets_the_first_hit(world, ray, bounce.found);
    let scattered = diffuse_ray(rec, ray.time, bounce.offset);
    assert(in_unit_sphere(bounce.offset));
    assert(first_hit(world, &scattered) is Some);
    let lit = first_hit(world, &scattered).unwrap();
    lemma_cutoff_sees_emission(world, scattered, lit, ambient, (bounces - 1) as nat, bounce.incoming);
    if within(albedo, Vec3::splat(Scalar::one())) && within(light, light) {
        lemma_attenuation_within(albedo, light, light);
    }
}

/// The first surface that a stream of words has the ray meet in the world,
/// beyond the least parameter, and how many of the words finding it uses.
#[verifier::opaque]
pub open spec fn meet_from<'a>(world: &'a Hittable, ray: &Ray, words: spec_fn(nat) -> u32) -> (
    Option<HitRecord<'a>>,
    nat,
) {
    world.hit_from(ray, Scalar { raw: T_MIN_RAW }, Scalar { raw: RAW_MAX }, words)
}

/// The radiance that a stream of words gives along `ray` with `bounces`
/// bounces left, once the first surface is found and `used` words are gone:
///
/// - the background colour where the ray meets nothing;
/// - what the surface emits where no bounce is left or the surface does not
///   scatter;
/// - otherwise what the surface emits, plus the attenuation times the
///   radiance along the scattered ray with one bounce less, for the words
///   that finding the surface and scattering have left.
pub open spec fn radiance_beyond(
    world: &Hittable,
    ray: Ray,
    found: Option<HitRecord>,
    used: nat,
    ambient: Vec3,
    bounces: nat,
    words: spec_fn(nat) -> u32,
) -> (Vec3, nat)
    decreases bounces, 0nat,
{
    match found {
        Some(rec) => if bounces == 0 {
            (rec.mat.emitted(rec.u, rec.v, rec.p), used)
        } else {
            let (scattering, more) = rec.mat.scatter_from(&ray, &rec, skip(words, used));
            match scattering {
                Some((scattered, attenuation)) => {
                    let (incoming, rest) = radiance_from(
                        world,
                        scattered,
                        ambient,
                        (bounces - 1) as nat,
                        skip(words, used + more),
                    );
                    (
                        spec_shade(rec.mat.emitted(rec.u, rec.v, rec.p), attenuation, incoming),
                        used + more + rest,
                    )
                },
                None => (rec.mat.emitted(rec.u, rec.v, rec.p), used + more),
            }
        },
        None => (ambient, used),
    }
}

/// The radiance that a stream of words gives along `ray` with `bounces`
/// bounces left, and how many of the words finding it uses.
pub open spec fn radiance_from(
    world: &Hittable,
    ray: Ray,
    ambient: Vec3,
    bounces: nat,
    words: spec_fn(nat) -> u32,
) -> (Vec3, nat)
    decreases bounces, 1nat,
{
    radiance_beyond(
        world,
        ray,
        meet_from(world, &ray, words).0,
        meet_from(world, &ray, words).1,
        ambient,
        bounces,
        words,
    )
}

/// Two worlds that show every ray the same first surface, and use the same
/// words to find it, give the same radiance along every ray and use the same
/// words for it.
pub proof fn lemma_same_hits_same_radiance(
    first: &Hittable,
    second: &Hittable,
    ray: Ray,
    ambient: Vec3,
    bounces: nat,
    words: spec_fn(nat) -> u32,
)
    requires
        forall|any: Ray, left: spec_fn(nat) -> u32| #[trigger]
            meet_from(first, &any, left) == meet_from(second, &any, left),
    ensures
        radiance_from(first, ray, ambient, bounces, words) == radiance_from(
            second,
            ray,
            ambient,
            bounces,
            words,
        ),
    decreases bounces,
{
    assert(meet_from(first, &ray, words) == meet_from(second, &ray, words));
    if let (Some(rec), used) = meet_from(first, &ray, words) {
        if bounces > 0 {
            let (scattering, more) = rec.mat.scatter_from(&ray, &rec, skip(words, used));
            if let Some((scattered, attenuation)) = scattering {
                lemma_same_hits_same_radiance(
                    first,
                    second,
                    scattered,
                    ambient,
                    (bounces - 1) as nat,
                    skip(words, used + more),
                );
            }
        }
    }
}

/// The tree and the list show the ray the same things: the boxes of the
/// tree admit the ray, and no two objects of the list are hit at the same
/// parameter.
pub open spec fn seen_alike(node: BVHNode, list: HitList, ray: &Ray) -> bool {
    boxes_admit(node, ray, Scalar { raw: T_MIN_RAW }, Scalar { raw: RAW_MAX }) && no_ties(
        list.0@,
        ray,
        Scalar { raw: T_MIN_RAW },
        Scalar { raw: RAW_MAX },
    )
}

/// A world in a hierarchy renders as the same world in a list. Let a tree
/// hold exactly the objects of a list, let these be single solids, and let
/// every ray see tree and list alike. Then along every ray, for every number
/// of bounces and every stream of words, the radiance found in the tree is
/// the radiance found in the list, and the same words are used.
pub proof fn lemma_tree_renders_as_list(
    node: BVHNode,
    list: HitList,
    ray: Ray,
    ambient: Vec3,
    bounces: nat,
    words: spec_fn(nat) -> u32,
)
    requires
        node.leaves().to_multiset() == list.0@.to_multiset(),
        all_solid(list.0@, list.0@.len() as int),
        forall|any: Ray| #[trigger] seen_alike(node, list, &any),
    ensures
        radiance_from(&Hittable::BVHNode(Box::new(node)), ray, ambient, bounces, words)
            == radiance_from(&Hittable::HitList(list), ray, ambient, bounces, words),
{
    let tree = Hittable::BVHNode(Box::new(node));
    let flat = Hittable::HitList(list);
    lemma_leaves_are_solid(node, list.0@);
    lemma_tree_of_solids_is_deterministic(node);
    lemma_solids_are_deterministic(list.0@, list.0@.len() as int);
    assert forall|any: Ray, left: spec_fn(nat) -> u32| #[trigger]
        meet_from(&tree, &any, left) == meet_from(&flat, &any, left) by {
        reveal(meet_from);
        assert(seen_alike(node, list, &any));
        lemma_uses_no_word(tree, &any, Scalar { raw: T_MIN_RAW }, Scalar { raw: RAW_MAX }, left);
        lemma_uses_no_word(flat, &any, Scalar { raw: T_MIN_RAW }, Scalar { raw: RAW_MAX }, left);
        lemma_bvh_reports_the_same_hit(
            node,
            list,
            &any,
            Scalar { raw: T_MIN_RAW },
            Scalar { raw: RAW_MAX },
        );
    }
    lemma_same_hits_same_radiance(&tree, &flat, ray, ambient, bounces, words);
}

/// The first surface that the ray meets in the world.
fn first_surface<'a>(world: &'a Hittable, ray: &Ray, sampler: &mut Sampler) -> (r: Option<
    HitRecord<'a>,
>)
    ensures
        r == meet_from(world, ray, old(sampler).words()).0,
        final(sampler).follows(*old(sampler), meet_from(world, ray, old(sampler).words()).1),
        may_meet(world, ray, r),
{
    reveal(may_meet);
    reveal(meet_from);
    world.hit(ray, Scalar { raw: T_MIN_RAW }, Scalar { raw: RAW_MAX }, sampler)
}

/// The radiance that arrives along `ray` from `world`, with at most
/// `bounces` bounces and the background colour `ambient`.
pub fn compute_color(
    ray: &Ray,
    world: &Hittable,
    ambient: Vec3,
    bounces: u32,
    sampler: &mut Sampler,
) -> (c: Vec3)
    ensures
        c == radiance_from(world, *ray, ambient, bounces as nat, old(sampler).words()).0,
        final(sampler).follows(
            *old(sampler),
            radiance_from(world, *ray, ambient, bounces as nat, old(sampler).words()).1,
        ),
        possible_radiance(world, *ray, ambient, bounces as nat, c),
    decreases bounces,
{
    let ghost start = old(sampler).words();
    let found = first_surface(world, ray, sampler);
    let ghost used = meet_from(world, ray, start).1;
    match found {
        Some(rec) => {
            let emitted = rec.mat.emitted(rec.u, rec.v, rec.p);
            if bounces == 0 {
                proof {
                    lemma_path_ends(world, *ray, found, ambient, bounces as nat, emitted);
                }
                return emitted;
            }
            let scattering = rec.mat.scatter(ray, &rec, sampler);
            let ghost more = rec.mat.scatter_from(ray, &rec, skip(start, used)).1;
            proof {
                lemma_skip_adds(start, used, more);
            }
            let ghost (offset, chance) = choose|offset: Vec3, chance: Scalar|
                in_unit_sphere(offset) && 0 <= chance@ < 65536 && scattering
                    == #[trigger] rec.mat.scatter_with(ray, &rec, offset, chance);
            match scattering {
                Some((scattered, attenuation)) => {
                    let incoming = compute_color(&scattered, world, ambient, bounces - 1, sampler);
                    let c = shade(emitted, attenuation, incoming);
                    proof {
                        lemma_skip_adds(
                            start,
                            used + more,
                            radiance_from(
                                world,
                                scattered,
                                ambient,
                                (bounces - 1) as nat,
                                skip(start, used + more),
                            ).1,
                        );
                        lemma_path_goes_on(
                            world,
                            *ray,
                            rec,
                            ambient,
                            bounces as nat,
                            offset,
                            chance,
                            incoming,
                            c,
                        );
                    }
                    c
                },
                None => {
                    proof {
                        lemma_path_goes_on(
                            world,
                            *ray,
                            rec,
                            ambient,
                            bounces as nat,
                            offset,
                            chance,
                            emitted,
                            emitted,
                        );
                    }
                    emitted
                },
            }
        },
        None => {
            proof {
                lemma_path_ends(world, *ray, found, ambient, bounces as nat, ambient);
            }
            ambient
        },
    }
}

/// The number of bounces that a path may still make after `depth` of them.
pub open spec fn spec_bounces_left(depth: u32) -> nat {
    if depth < MAX_DEPTH {
        (MAX_DEPTH - depth) as nat
    } else {
        0
    }
}

/// The radiance that arrives along `ray` from `world` before a black
/// background, for a path that has made `depth` bounces already: paths end
/// after `MAX_DEPTH` bounces.
pub fn color(ray: &Ray, world: &Hittable, depth: u32, sampler: &mut Sampler) -> (c: Vec3)
    ensures
        c == radiance_from(
            world,
            *ray,
            Vec3::splat(Scalar::zero()),
            spec_bounces_left(depth),
            old(sampler).words(),
        ).0,
        final(sampler).follows(
            *old(sampler),
            radiance_from(
                world,
                *ray,
                Vec3::splat(Scalar::zero()),
                spec_bounces_left(depth),
                old(sampler).words(),
            ).1,
        ),
        possible_radiance(
            world,
            *ray,
            Vec3::splat(Scalar::zero()),
            if depth < MAX_DEPTH {
                (MAX_DEPTH - depth) as nat
            } else {
                0
            },
            c,
        ),
{
    let bounces = if depth < MAX_DEPTH { MAX_DEPTH - depth } else { 0 };
    compute_color(ray, world, Vec3::splat(Scalar::zero()), bounces, sampler)
}

impl Color {
    /// The byte of a channel: 255.999 times the channel, limited to a byte.
    pub open spec fn spec_channel(x: Scalar) -> u8 {
        clamp(Scalar { raw: BYTE_SCALE_RAW }.times(x))
    }

    /// The byte of a channel: 255.999 times the channel, limited to a byte.
    #[verifier::when_used_as_spec(spec_channel)]
    pub fn channel(x: Scalar) -> (r: u8)
        ensures
            r == Self::spec_channel(x),
    {
        clamp(Scalar { raw: BYTE_SCALE_RAW }.times(x))
    }

    /// The pixel of a colour whose channels lie in `[0, 1]`.
    pub open spec fn spec_from_vec3(v: Vec3) -> Color {
        Color { r: Self::spec_channel(v.x), g: Self::spec_channel(v.y), b: Self::spec_channel(v.z) }
    }

    /// The pixel of a colour whose channels lie in `[0, 1]`.
    #[verifier::when_used_as_spec(spec_from_vec3)]
    pub fn from_vec3(v: Vec3) -> (c: Color)
        ensures
            c == Self::spec_from_vec3(v),
    {
        Color { r: Self::channel(v.x), g: Self::channel(v.y), b: Self::channel(v.z) }
    }

    /// The pixel for the sum of `samples` radiance samples: their mean,
    /// gamma-corrected by a square root, as bytes.
    pub open spec fn spec_of_samples(sum: Vec3, samples: u32) -> Color {
        Self::spec_from_vec3(sum.shrink(Scalar::from_usize(samples as usize)).sqrt())
    }

    /// The pixel for the sum of `samples` radiance samples: their mean,
    /// gamma-corrected by a square root, as bytes.
    #[verifier::when_used_as_spec(spec_of_samples)]
    pub fn of_samples(sum: Vec3, samples: u32) -> (c: Color)
        ensures
            c == Self::spec_of_samples(sum, samples),
    {
        Self::from_vec3(sum.shrink(Scalar::from_usize(samples as usize)).sqrt())
    }
}

impl From<Vec3> for Color {
    fn from(v: Vec3) -> (c: Color) {
        Color::from_vec3(v)
    }
}

impl vstd::std_specs::convert::FromSpecImpl<Vec3> for Color {
    open spec fn obeys_from_spec() -> bool {
        true
    }

    open spec fn from_spec(v: Vec3) -> Color {
        Color::spec_from_vec3(v)
    }
}

/// The coordinate of a sample in `[0, 1]`: the pixel index, moved by the
/// jitter within the pixel, as a fraction of the extent of the image.
pub open spec fn spec_jittered(index: usize, jitter: Scalar, extent: usize) -> Scalar {
    Scalar::from_usize(index).plus(jitter).over(Scalar::from_usize(extent))
}

/// The coordinate of a sample in `[0, 1]`: the pixel index, moved by the
/// jitter within the pixel, as a fraction of the extent of the image.
#[verifier::when_used_as_spec(spec_jittered)]
pub fn jittered(index: usize, jitter: Scalar, extent: usize) -> (s: Scalar)
    ensures
        s == spec_jittered(index, jitter, extent),
{
    Scalar::from_usize(index).plus(jitter).over(Scalar::from_usize(extent))
}

/// The pixel that stands at position `k` of the image buffer: the buffer
/// holds the rows from the top one down, each from left to right, while `y`
/// counts rows from the bottom.
pub open spec fn spec_pixel_at(k: usize, width: usize, height: usize) -> (usize, usize) {
    ((k % width) as usize, (height - 1 - k / width) as usize)
}

/// The pixel that stands at position `k` of the image buffer.
#[verifier::when_used_as_spec(spec_pixel_at)]
pub fn pixel_at(k: usize, width: usize, height: usize) -> (p: (usize, usize))
    requires
        width > 0,
        k < width * height,
    ensures
        p == spec_pixel_at(k, width, height),
        p.0 < width,
        p.1 < height,
{
    assert(k / width < height) by (nonlinear_arith)
        requires
            width > 0,
            k < width * height,
    ;
    (k % width, height - 1 - k / width)
}

/// The bytes of an image from its pixels: three per pixel, red first.
pub open spec fn spec_encode(pixels: Seq<Color>) -> Seq<u8> {
    Seq::new(
        3 * pixels.len(),
        |i: int|
            if i % 3 == 0 {
                pixels[i / 3].r
            } else if i % 3 == 1 {
                pixels[i / 3].g
            } else {
                pixels[i / 3].b
            },
    )
}

/// The bytes of an image from its pixels: three per pixel, red first.
pub fn encode(pixels: &Vec<Color>) -> (bytes: Vec<u8>)
    ensures
        bytes@ == spec_encode(pixels@),
{
    let mut bytes: Vec<u8> = Vec::new();
    let mut i: usize = 0;
    while i < pixels.len()
        invariant
            i <= pixels@.len(),
            bytes@ == spec_encode(pixels@.take(i as int)),
        decreases pixels@.len() - i,
    {
        let c = pixels[i];
        bytes.push(c.r);
        bytes.push(c.g);
        bytes.push(c.b);
        i = i + 1;
    }
    bytes
}

impl Scene<Hittable> {
    /// `c` is a radiance that one sample of the pixel `(x, y)` can give: the
    /// radiance along the camera's ray through a point of the pixel, for some
    /// jitter within the pixel and some draw of the camera.
    pub open spec fn sample_from(
        &self,
        x: usize,
        y: usize,
        du: Scalar,
        dv: Scalar,
        lens: Vec3,
        shutter: Scalar,
        c: Vec3,
    ) -> bool {
        possible_radiance(
            &self.world,
            self.camera.get_ray_with(
                spec_jittered(x, du, self.width),
                spec_jittered(y, dv, self.height),
                lens,
                shutter,
            ),
            self.ambiant_color,
            self.rays_per_sample as nat,
            c,
        )
    }

    /// `c` is a radiance that one sample of the pixel can give.
    pub open spec fn possible_sample(&self, x: usize, y: usize, c: Vec3) -> bool {
        exists|du: Scalar, dv: Scalar, lens: Vec3, shutter: Scalar|
            0 <= du@ < 65536 && 0 <= dv@ < 65536 && in_unit_disk(lens) && 0 <= shutter@ < 65536
                && #[trigger] self.sample_from(x, y, du, dv, lens, shutter, c)
    }

    /// `sum` is `before` and one more sample of the pixel.
    pub open spec fn sample_added(&self, x: usize, y: usize, before: Vec3, sample: Vec3, sum: Vec3) -> bool {
        self.possible_sample(x, y, sample) && sum == before.plus(sample)
    }

    /// `sum` is a sum that `k` samples of the pixel can give.
    pub open spec fn possible_sum(&self, x: usize, y: usize, k: nat, sum: Vec3) -> bool
        decreases k,
    {
        if k == 0 {
            sum == Vec3::splat(Scalar::zero())
        } else {
            exists|before: Vec3, sample: Vec3|
                self.possible_sum(x, y, (k - 1) as nat, before) && #[trigger] self.sample_added(
                    x,
                    y,
                    before,
                    sample,
                    sum,
                )
        }
    }

    /// `c` is a colour that the pixel can get: the pixel made of a sum that
    /// `samples_per_px` samples can give.
    pub open spec fn possible_pixel(&self, x: usize, y: usize, c: Color) -> bool {
        exists|sum: Vec3| #[trigger]
            self.possible_sum(x, y, self.samples_per_px as nat, sum) && c
                == Color::spec_of_samples(sum, self.samples_per_px)
    }

    /// The sample of the pixel `(x, y)` that a stream of words gives, and how
    /// many of them it uses: two words stand for the jitter within the
    /// pixel, the camera makes its ray of the words after those, and the
    /// radiance along that ray is found with the words that are then left.
    #[verifier::opaque]
    pub open spec fn sample_of(&self, x: usize, y: usize, words: spec_fn(nat) -> u32) -> (Vec3, nat) {
        let u = spec_jittered(x, unit_of_word(words(0)), self.width);
        let v = spec_jittered(y, unit_of_word(words(1)), self.height);
        let (ray, used) = self.camera.get_ray_from(u, v, skip(words, 2));
        let (c, more) = radiance_from(
            &self.world,
            ray,
            self.ambiant_color,
            self.rays_per_sample as nat,
            skip(words, 2 + used),
        );
        (c, 2 + used + more)
    }

    /// The sum of the first `k` samples of the pixel that a stream of words
    /// gives, and how many of the words they use: each sample is made of the
    /// words that the samples before it have left.
    pub open spec fn sum_of(&self, x: usize, y: usize, k: nat, words: spec_fn(nat) -> u32) -> (
        Vec3,
        nat,
    )
        decreases k,
    {
        if k == 0 {
            (Vec3::splat(Scalar::zero()), 0)
        } else {
            let (before, used) = self.sum_of(x, y, (k - 1) as nat, words);
            let (sample, more) = self.sample_of(x, y, skip(words, used));
            (before.plus(sample), used + more)
        }
    }

    /// The colour of the pixel that a stream of words gives, and how many of
    /// them it uses: the pixel made of the sum of `samples_per_px` samples.
    #[verifier::opaque]
    pub open spec fn pixel_of(&self, x: usize, y: usize, words: spec_fn(nat) -> u32) -> (Color, nat) {
        (
            Color::spec_of_samples(
                self.sum_of(x, y, self.samples_per_px as nat, words).0,
                self.samples_per_px,
            ),
            self.sum_of(x, y, self.samples_per_px as nat, words).1,
        )
    }

    /// The first `n` pixels of the image buffer that a stream of words gives,
    /// and how many of the words they use: each pixel is made of the words
    /// that the pixels before it have left.
    pub open spec fn pixels_of(&self, n: nat, words: spec_fn(nat) -> u32) -> (Seq<Color>, nat)
        decreases n,
    {
        if n == 0 {
            (Seq::empty(), 0)
        } else {
            let (before, used) = self.pixels_of((n - 1) as nat, words);
            let at = spec_pixel_at((n - 1) as usize, self.width, self.height);
            let (c, more) = self.pixel_of(at.0, at.1, skip(words, used));
            (before.push(c), used + more)
        }
    }

    /// The camera ray of the first sample of the pixel `(x, y)` that a stream
    /// of words gives.
    pub open spec fn first_ray(&self, x: usize, y: usize, words: spec_fn(nat) -> u32) -> Ray {
        self.camera.get_ray_from(
            spec_jittered(x, unit_of_word(words(0)), self.width),
            spec_jittered(y, unit_of_word(words(1)), self.height),
            skip(words, 2),
        ).0
    }

    /// A pixel that misses everything shows the background. Where the world
    /// is deterministic, one sample is taken for each pixel, and the ray of
    /// that sample meets nothing, the pixel is exactly the pixel made of the
    /// background colour.
    pub proof fn lemma_a_miss_shows_the_background(
        &self,
        x: usize,
        y: usize,
        words: spec_fn(nat) -> u32,
    )
        requires
            self.world.deterministic(),
            self.samples_per_px == 1,
            first_hit(&self.world, &self.first_ray(x, y, words)).is_none(),
        ensures
            self.pixel_of(x, y, words).0 == Color::spec_of_samples(self.ambiant_color, 1),
    {
        reveal(Scene::pixel_of);
        reveal(Scene::sample_of);
        reveal(meet_from);
        reveal_with_fuel(Scene::sum_of, 2);
        let ray = self.first_ray(x, y, words);
        let used = self.camera.get_ray_from(
            spec_jittered(x, unit_of_word(words(0)), self.width),
            spec_jittered(y, unit_of_word(words(1)), self.height),
            skip(words, 2),
        ).1;
        lemma_skip_none(words);
        lemma_uses_no_word(
            self.world,
            &ray,
            Scalar { raw: T_MIN_RAW },
            Scalar { raw: RAW_MAX },
            skip(words, 2 + used),
        );
    }

    /// One sample of the pixel `(x, y)`: the radiance along a camera ray
    /// through a random point of the pixel.
    pub fn sample(&self, x: usize, y: usize, sampler: &mut Sampler) -> (c: Vec3)
        ensures
            c == self.sample_of(x, y, old(sampler).words()).0,
            final(sampler).follows(*old(sampler), self.sample_of(x, y, old(sampler).words()).1),
            self.possible_sample(x, y, c),
    {
        reveal(Scene::sample_of);
        let ghost start = old(sampler).words();
        let du = sampler.uniform();
        let dv = sampler.uniform();
        proof {
            lemma_skip_adds(start, 1, 1);
        }
        let u = jittered(x, du, self.width);
        let v = jittered(y, dv, self.height);
        let ray = self.camera.get_ray(u, v, sampler);
        let ghost used = self.camera.get_ray_from(u, v, skip(start, 2)).1;
        proof {
            lemma_skip_adds(start, 2, used);
            lemma_skip_adds(
                start,
                2 + used,
                radiance_from(
                    &self.world,
                    ray,
                    self.ambiant_color,
                    self.rays_per_sample as nat,
                    skip(start, 2 + used),
                ).1,
            );
        }
        let ghost (lens, shutter) = choose|lens: Vec3, shutter: Scalar|
            in_unit_disk(lens) && 0 <= shutter@ < 65536 && ray == #[trigger] self.camera.get_ray_with(
                u,
                v,
                lens,
                shutter,
            );
        let c = compute_color(&ray, &self.world, self.ambiant_color, self.rays_per_sample, sampler);
        assert(self.sample_from(x, y, du, dv, lens, shutter, c));
        c
    }

    /// The colour of the pixel `(x, y)`, where `y` counts rows from the
    /// bottom: `samples_per_px` samples are summed, and the pixel is made of
    /// their sum as [`Color::of_samples`] says.
    pub fn pixel_color(&self, pixel: (usize, usize), sampler: &mut Sampler) -> (c: Color)
        ensures
            c == self.pixel_of(pixel.0, pixel.1, old(sampler).words()).0,
            final(sampler).follows(
                *old(sampler),
                self.pixel_of(pixel.0, pixel.1, old(sampler).words()).1,
            ),
            self.possible_pixel(pixel.0, pixel.1, c),
    {
        reveal(Scene::pixel_of);
        let mut sum = Vec3::splat(Scalar::zero());
        let mut k: u32 = 0;
        proof {
            lemma_skip_none(old(sampler).words());
        }
        while k < self.samples_per_px
            invariant
                k <= self.samples_per_px,
                self.possible_sum(pixel.0, pixel.1, k as nat, sum),
                sum == self.sum_of(pixel.0, pixel.1, k as nat, old(sampler).words()).0,
                sampler.follows(
                    *old(sampler),
                    self.sum_of(pixel.0, pixel.1, k as nat, old(sampler).words()).1,
                ),
            decreases self.samples_per_px - k,
        {
            let ghost used = self.sum_of(pixel.0, pixel.1, k as nat, old(sampler).words()).1;
            let ghost left = sampler.words();
            let sample = self.sample(pixel.0, pixel.1, sampler);
            proof {
                lemma_skip_adds(
                    old(sampler).words(),
                    used,
                    self.sample_of(pixel.0, pixel.1, left).1,
                );
            }
            let ghost before = sum;
            sum = sum.plus(sample);
            assert(self.sample_added(
                pixel.0,
                pixel.1,
                before,
                sample,
                sum,
            ));
            k = k + 1;
        }
        Color::of_samples(sum, self.samples_per_px)
    }

    /// Renders the whole image with one sampler: the pixels in the order of
    /// the image buffer, rows from the top one down. An image with no pixels,
    /// or with more than an address can count, has no pixels rendered.
    pub fn render(&self, sampler: &mut Sampler) -> (pixels: Vec<Color>)
        ensures
            pixels@.len() == (if self.width * self.height <= usize::MAX {
                self.width * self.height
            } else {
                0
            }),
            pixels@ == self.pixels_of(pixels@.len(), old(sampler).words()).0,
            final(sampler).follows(
                *old(sampler),
                self.pixels_of(pixels@.len(), old(sampler).words()).1,
            ),
            forall|k: int|
                0 <= k < pixels@.len() ==> self.possible_pixel(
                    spec_pixel_at(k as usize, self.width, self.height).0,
                    spec_pixel_at(k as usize, self.width, self.height).1,
                    #[trigger] pixels@[k],
                ),
    {
        let mut pixels: Vec<Color> = Vec::new();
        proof {
            lemma_skip_none(old(sampler).words());
            assert(pixels@ =~= self.pixels_of(0, old(sampler).words()).0);
        }
        let total = match self.width.checked_mul(self.height) {
            Some(t) => t,
            None => {
                return pixels;
            },
        };
        if self.width == 0 {
            assert(self.width * self.height == 0) by (nonlinear_arith)
                requires
                    self.width == 0,
            ;
            return pixels;
        }
        let mut k: usize = 0;
        while k < total
            invariant
                k <= total,
                total == self.width * self.height,
                self.width > 0,
                pixels@.len() == k,
                pixels@ == self.pixels_of(k as nat, old(sampler).words()).0,
                sampler.follows(*old(sampler), self.pixels_of(k as nat, old(sampler).words()).1),
                forall|j: int|
                    0 <= j < pixels@.len() ==> self.possible_pixel(
                        spec_pixel_at(j as usize, self.width, self.height).0,
                        spec_pixel_at(j as usize, self.width, self.height).1,
                        #[trigger] pixels@[j],
                    ),
            decreases total - k,
        {
            let at = pixel_at(k, self.width, self.height);
            let ghost used = self.pixels_of(k as nat, old(sampler).words()).1;
            let ghost left = sampler.words();
            let c = self.pixel_color(at, sampler);
            proof {
                lemma_skip_adds(old(sampler).words(), used, self.pixel_of(at.0, at.1, left).1);
            }
            pixels.push(c);
            k = k + 1;
        }
        pixels
    }
}

} // verus!
