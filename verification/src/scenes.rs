//! Ready-made scenes.

use crate::hit::bvh::{all_bounded, build_of, BVHNode};
use crate::hit::constant_medium::ConstantMedium;
use crate::hit::flip_normals::FlipNormals;
use crate::hit::hit_box::HitBox;
use crate::hit::hit_list::HitList;
use crate::hit::moving_sphere::MovingSphere;
use crate::hit::rect::{XYRect, XZRect, YZRect};
use crate::hit::rotate::RotateY;
use crate::hit::sphere::Sphere;
use crate::hit::translate::Translate;
use crate::hit::Hittable;
use crate::material::dielectric::Dielectric;
use crate::material::diffuse_light::DiffuseLight;
use crate::material::isotropic::Isotropic;
use crate::material::lambertian::Lambertian;
use crate::material::metal::Metal;
use crate::material::Material;
use crate::perlin::Perlin;
use crate::random::{lemma_follows_adds, lemma_skip_adds, lemma_skip_none, skip, unit_of_word, Sampler};
use crate::scalar::Scalar;
use crate::texture::{CheckerTexture, ConstantTexture, ImageTexture, NoiseTexture, Texture};
use crate::vec3::Vec3;
use vstd::prelude::*;

verus! {

/// The point with the given integer coordinates.
pub open spec fn spec_point(x: i32, y: i32, z: i32) -> Vec3 {
    Vec3::new(Scalar::from_int(x), Scalar::from_int(y), Scalar::from_int(z))
}

/// The point with the given integer coordinates.
#[verifier::when_used_as_spec(spec_point)]
pub fn point(x: i32, y: i32, z: i32) -> (p: Vec3)
    ensures
        p == spec_point(x, y, z),
{
    Vec3::new(Scalar::from_int(x), Scalar::from_int(y), Scalar::from_int(z))
}

/// The colour with the given channels in hundredths.
pub open spec fn spec_rgb(r: i32, g: i32, b: i32) -> Vec3 {
    Vec3::new(Scalar::ratio(r, 100), Scalar::ratio(g, 100), Scalar::ratio(b, 100))
}

/// The colour with the given channels in hundredths.
#[verifier::when_used_as_spec(spec_rgb)]
pub fn rgb(r: i32, g: i32, b: i32) -> (c: Vec3)
    ensures
        c == spec_rgb(r, g, b),
{
    Vec3::new(Scalar::ratio(r, 100), Scalar::ratio(g, 100), Scalar::ratio(b, 100))
}

/// A diffuse material of one colour, given in hundredths.
pub open spec fn spec_diffuse(r: i32, g: i32, b: i32) -> Material {
    Material::Lambertian(Lambertian::new(Texture::Constant(ConstantTexture { color: rgb(r, g, b) })))
}

/// A diffuse material of one colour, given in hundredths.
#[verifier::when_used_as_spec(spec_diffuse)]
pub fn diffuse(r: i32, g: i32, b: i32) -> (m: Material)
    ensures
        m == spec_diffuse(r, g, b),
{
    Material::Lambertian(Lambertian::new(Texture::Constant(ConstantTexture { color: rgb(r, g, b) })))
}

/// A light that emits the same level in all three channels.
pub open spec fn spec_lamp(level: i32) -> Material {
    Material::DiffuseLight(
        DiffuseLight { emit: Texture::Constant(ConstantTexture { color: point(level, level, level) }) },
    )
}

/// A light that emits the same level in all three channels.
#[verifier::when_used_as_spec(spec_lamp)]
pub fn lamp(level: i32) -> (m: Material)
    ensures
        m == spec_lamp(level),
{
    Material::DiffuseLight(
        DiffuseLight { emit: Texture::Constant(ConstantTexture { color: point(level, level, level) }) },
    )
}

/// Glass.
pub open spec fn spec_glass() -> Material {
    Material::Dielectric(Dielectric { ref_idx: Scalar::ratio(3, 2) })
}

/// Glass.
#[verifier::when_used_as_spec(spec_glass)]
pub fn glass() -> (m: Material)
    ensures
        m == spec_glass(),
{
    Material::Dielectric(Dielectric { ref_idx: Scalar::ratio(3, 2) })
}

/// A fog of one colour, given in hundredths.
pub open spec fn spec_fog(r: i32, g: i32, b: i32) -> Material {
    Material::Isotropic(Isotropic { albedo: Texture::Constant(ConstantTexture { color: rgb(r, g, b) }) })
}

/// A fog of one colour, given in hundredths.
#[verifier::when_used_as_spec(spec_fog)]
pub fn fog(r: i32, g: i32, b: i32) -> (m: Material)
    ensures
        m == spec_fog(r, g, b),
{
    Material::Isotropic(Isotropic { albedo: Texture::Constant(ConstantTexture { color: rgb(r, g, b) }) })
}

/// The green and white checker of the ground.
pub open spec fn spec_ground_checker() -> Texture {
    Texture::Checker(
        Box::new(
            CheckerTexture {
                odd: Texture::Constant(ConstantTexture { color: rgb(20, 30, 10) }),
                even: Texture::Constant(ConstantTexture { color: rgb(90, 90, 90) }),
            },
        ),
    )
}

/// The green and white checker of the ground.
#[verifier::when_used_as_spec(spec_ground_checker)]
pub fn ground_checker() -> (t: Texture)
    ensures
        t == spec_ground_checker(),
{
    Texture::Checker(
        Box::new(
            CheckerTexture {
                odd: Texture::Constant(ConstantTexture { color: rgb(20, 30, 10) }),
                even: Texture::Constant(ConstantTexture { color: rgb(90, 90, 90) }),
            },
        ),
    )
}

/// A sphere at rest.
pub open spec fn spec_ball(center: Vec3, radius: Scalar, material: Material) -> Hittable {
    Hittable::Sphere(Sphere { center, radius, material })
}

/// A sphere at rest.
#[verifier::when_used_as_spec(spec_ball)]
pub fn ball(center: Vec3, radius: Scalar, material: Material) -> (h: Hittable)
    ensures
        h == spec_ball(center, radius, material),
{
    Hittable::Sphere(Sphere { center, radius, material })
}

/// A wall in a plane `x = k`, facing along `x`, or against it where `flip` is set.
pub open spec fn spec_wall_yz(y0: i32, y1: i32, z0: i32, z1: i32, k: i32, material: Material, flip: bool) -> Hittable {
    let rect = Hittable::YZRect(
        YZRect {
            y0: Scalar::from_int(y0),
            y1: Scalar::from_int(y1),
            z0: Scalar::from_int(z0),
            z1: Scalar::from_int(z1),
            k: Scalar::from_int(k),
            material,
        },
    );
    if flip {
        Hittable::FlipNormals(Box::new(FlipNormals { hittable: rect }))
    } else {
        rect
    }
}

/// A wall in a plane `x = k`, facing along `x`, or against it where `flip` is set.
#[verifier::when_used_as_spec(spec_wall_yz)]
pub fn wall_yz(y0: i32, y1: i32, z0: i32, z1: i32, k: i32, material: Material, flip: bool) -> (h: Hittable)
    ensures
        h == spec_wall_yz(y0, y1, z0, z1, k, material, flip),
{
    let rect = Hittable::YZRect(
        YZRect {
            y0: Scalar::from_int(y0),
            y1: Scalar::from_int(y1),
            z0: Scalar::from_int(z0),
            z1: Scalar::from_int(z1),
            k: Scalar::from_int(k),
            material,
        },
    );
    if flip {
        Hittable::FlipNormals(Box::new(FlipNormals { hittable: rect }))
    } else {
        rect
    }
}

/// A wall in a plane `y = k`, facing along `y`, or against it where `flip` is set.
pub open spec fn spec_wall_xz(x0: i32, x1: i32, z0: i32, z1: i32, k: i32, material: Material, flip: bool) -> Hittable {
    let rect = Hittable::XZRect(
        XZRect {
            x0: Scalar::from_int(x0),
            x1: Scalar::from_int(x1),
            z0: Scalar::from_int(z0),
            z1: Scalar::from_int(z1),
            k: Scalar::from_int(k),
            material,
        },
    );
    if flip {
        Hittable::FlipNormals(Box::new(FlipNormals { hittable: rect }))
    } else {
        rect
    }
}

/// A wall in a plane `y = k`, facing along `y`, or against it where `flip` is set.
#[verifier::when_used_as_spec(spec_wall_xz)]
pub fn wall_xz(x0: i32, x1: i32, z0: i32, z1: i32, k: i32, material: Material, flip: bool) -> (h: Hittable)
    ensures
        h == spec_wall_xz(x0, x1, z0, z1, k, material, flip),
{
    let rect = Hittable::XZRect(
        XZRect {
            x0: Scalar::from_int(x0),
            x1: Scalar::from_int(x1),
            z0: Scalar::from_int(z0),
            z1: Scalar::from_int(z1),
            k: Scalar::from_int(k),
            material,
        },
    );
    if flip {
        Hittable::FlipNormals(Box::new(FlipNormals { hittable: rect }))
    } else {
        rect
    }
}

/// A wall in a plane `z = k`, facing along `z`, or against it where `flip` is set.
pub open spec fn spec_wall_xy(x0: i32, x1: i32, y0: i32, y1: i32, k: i32, material: Material, flip: bool) -> Hittable {
    let rect = Hittable::XYRect(
        XYRect {
            x0: Scalar::from_int(x0),
            x1: Scalar::from_int(x1),
            y0: Scalar::from_int(y0),
            y1: Scalar::from_int(y1),
            k: Scalar::from_int(k),
            material,
        },
    );
    if flip {
        Hittable::FlipNormals(Box::new(FlipNormals { hittable: rect }))
    } else {
        rect
    }
}

/// A wall in a plane `z = k`, facing along `z`, or against it where `flip` is set.
#[verifier::when_used_as_spec(spec_wall_xy)]
pub fn wall_xy(x0: i32, x1: i32, y0: i32, y1: i32, k: i32, material: Material, flip: bool) -> (h: Hittable)
    ensures
        h == spec_wall_xy(x0, x1, y0, y1, k, material, flip),
{
    let rect = Hittable::XYRect(
        XYRect {
            x0: Scalar::from_int(x0),
            x1: Scalar::from_int(x1),
            y0: Scalar::from_int(y0),
            y1: Scalar::from_int(y1),
            k: Scalar::from_int(k),
            material,
        },
    );
    if flip {
        Hittable::FlipNormals(Box::new(FlipNormals { hittable: rect }))
    } else {
        rect
    }
}

/// A white block that stands on the floor: a cuboid of the given size, turned
/// about the vertical by `angle` degrees and then moved by `offset`.
pub open spec fn spec_block(size: Vec3, angle: i32, offset: Vec3) -> Hittable {
    Hittable::Translate(
        Box::new(
            Translate {
                hittable: Hittable::RotateY(
                    Box::new(
                        RotateY::new(
                            Hittable::HitBox(HitBox::new(point(0, 0, 0), size, diffuse(73, 73, 73))),
                            Scalar::from_int(angle),
                        ),
                    ),
                ),
                offset,
            },
        ),
    )
}

/// A white block that stands on the floor: a cuboid of the given size, turned
/// about the vertical by `angle` degrees and then moved by `offset`.
#[verifier::when_used_as_spec(spec_block)]
pub fn block(size: Vec3, angle: i32, offset: Vec3) -> (h: Hittable)
    ensures
        h == spec_block(size, angle, offset),
{
    Hittable::Translate(
        Box::new(
            Translate {
                hittable: Hittable::RotateY(
                    Box::new(
                        RotateY::new(
                            Hittable::HitBox(HitBox::new(point(0, 0, 0), size, diffuse(73, 73, 73))),
                            Scalar::from_int(angle),
                        ),
                    ),
                ),
                offset,
            },
        ),
    )
}

/// A medium of the given density, in ten-thousandths, inside `boundary`.
pub open spec fn spec_smoke(boundary: Hittable, density: i32, phase_function: Material) -> Hittable {
    Hittable::ConstantMedium(
        Box::new(ConstantMedium { boundary, density: Scalar::ratio(density, 10000), phase_function }),
    )
}

/// A medium of the given density, in ten-thousandths, inside `boundary`.
#[verifier::when_used_as_spec(spec_smoke)]
pub fn smoke(boundary: Hittable, density: i32, phase_function: Material) -> (h: Hittable)
    ensures
        h == spec_smoke(boundary, density, phase_function),
{
    Hittable::ConstantMedium(
        Box::new(ConstantMedium { boundary, density: Scalar::ratio(density, 10000), phase_function }),
    )
}

/// Two large checkered spheres that touch at the origin.
pub open spec fn spec_two_spheres() -> Seq<Hittable> {
    seq![
        ball(point(0, -10i32, 0), Scalar::from_int(10), Material::Lambertian(Lambertian::new(ground_checker()))),
        ball(point(0, 10, 0), Scalar::from_int(10), Material::Lambertian(Lambertian::new(ground_checker()))),
    ]
}

/// Two large checkered spheres that touch at the origin.
pub fn two_spheres() -> (world: HitList)
    ensures
        world.0@ == spec_two_spheres(),
{
    let objects = vec![
        ball(point(0, -10i32, 0), Scalar::from_int(10), Material::Lambertian(Lambertian::new(ground_checker()))),
        ball(point(0, 10, 0), Scalar::from_int(10), Material::Lambertian(Lambertian::new(ground_checker()))),
    ];
    HitList(objects)
}

/// The Cornell box: a room with a green and a red side wall, white floor,
/// ceiling and back wall, a light in the ceiling, and two white blocks.
pub open spec fn spec_cornell_box() -> Seq<Hittable> {
    seq![
        wall_yz(0, 555, 0, 555, 555, diffuse(12, 45, 15), true),
        wall_yz(0, 555, 0, 555, 0, diffuse(65, 5, 5), false),
        wall_xz(213, 343, 227, 332, 554, lamp(15), false),
        wall_xz(0, 555, 0, 555, 555, diffuse(73, 73, 73), true),
        wall_xz(0, 555, 0, 555, 0, diffuse(73, 73, 73), false),
        wall_xy(0, 555, 0, 555, 555, diffuse(73, 73, 73), true),
        block(point(165, 165, 165), -18i32, point(130, 0, 65)),
        block(point(165, 330, 165), 15, point(265, 0, 295)),
    ]
}

/// The Cornell box: a room with a green and a red side wall, white floor,
/// ceiling and back wall, a light in the ceiling, and two white blocks.
pub fn cornell_box() -> (world: HitList)
    ensures
        world.0@ == spec_cornell_box(),
{
    let objects = vec![
        wall_yz(0, 555, 0, 555, 555, diffuse(12, 45, 15), true),
        wall_yz(0, 555, 0, 555, 0, diffuse(65, 5, 5), false),
        wall_xz(213, 343, 227, 332, 554, lamp(15), false),
        wall_xz(0, 555, 0, 555, 555, diffuse(73, 73, 73), true),
        wall_xz(0, 555, 0, 555, 0, diffuse(73, 73, 73), false),
        wall_xy(0, 555, 0, 555, 555, diffuse(73, 73, 73), true),
        block(point(165, 165, 165), -18i32, point(130, 0, 65)),
        block(point(165, 330, 165), 15, point(265, 0, 295)),
    ];
    HitList(objects)
}

/// The Cornell box with a larger, dimmer light, in which the two blocks are
/// made of smoke: a white one and a black one.
pub open spec fn spec_cornell_smoke() -> Seq<Hittable> {
    seq![
        wall_yz(0, 555, 0, 555, 555, diffuse(12, 45, 15), true),
        wall_yz(0, 555, 0, 555, 0, diffuse(65, 5, 5), false),
        wall_xz(113, 443, 127, 432, 554, lamp(7), false),
        wall_xz(0, 555, 0, 555, 555, diffuse(73, 73, 73), true),
        wall_xz(0, 555, 0, 555, 0, diffuse(73, 73, 73), false),
        wall_xy(0, 555, 0, 555, 555, diffuse(73, 73, 73), true),
        smoke(block(point(165, 165, 165), -18i32, point(130, 0, 65)), 100, fog(100, 100, 100)),
        smoke(block(point(165, 330, 165), 15, point(265, 0, 295)), 100, fog(0, 0, 0)),
    ]
}

/// The Cornell box with a larger, dimmer light, in which the two blocks are
/// made of smoke: a white one and a black one.
pub fn cornell_smoke() -> (world: HitList)
    ensures
        world.0@ == spec_cornell_smoke(),
{
    let objects = vec![
        wall_yz(0, 555, 0, 555, 555, diffuse(12, 45, 15), true),
        wall_yz(0, 555, 0, 555, 0, diffuse(65, 5, 5), false),
        wall_xz(113, 443, 127, 432, 554, lamp(7), false),
        wall_xz(0, 555, 0, 555, 555, diffuse(73, 73, 73), true),
        wall_xz(0, 555, 0, 555, 0, diffuse(73, 73, 73), false),
        wall_xy(0, 555, 0, 555, 555, diffuse(73, 73, 73), true),
        smoke(block(point(165, 165, 165), -18i32, point(130, 0, 65)), 100, fog(100, 100, 100)),
        smoke(block(point(165, 330, 165), 15, point(265, 0, 295)), 100, fog(0, 0, 0)),
    ];
    assert(objects@ =~= spec_cornell_smoke());
    HitList(objects)
}

/// A diffuse material of marble with the given scale.
pub open spec fn spec_marble(perlin: Perlin, scale: Scalar) -> Material {
    Material::Lambertian(Lambertian::new(Texture::Noise(NoiseTexture { perlin, scale })))
}

/// A diffuse material of marble with the given scale.
#[verifier::when_used_as_spec(spec_marble)]
pub fn marble(perlin: Perlin, scale: Scalar) -> (m: Material)
    ensures
        m == spec_marble(perlin, scale),
{
    Material::Lambertian(Lambertian::new(Texture::Noise(NoiseTexture { perlin, scale })))
}

/// A marble ball on marble ground, lit by a sphere above and a rectangle
/// behind it. The two noise tables are made of the first and the second run
/// of 1533 words of the sampler; all else is fixed.
pub open spec fn spec_simple_light(ground: Perlin, ball_noise: Perlin) -> Seq<Hittable> {
    seq![
        ball(point(0, -1000i32, 0), Scalar::from_int(1000), marble(ground, Scalar::from_int(4))),
        ball(point(0, 2, 0), Scalar::from_int(2), marble(ball_noise, Scalar::from_int(4))),
        ball(point(0, 7, 0), Scalar::from_int(2), lamp(4)),
        wall_xy(3, 5, 1, 3, -2i32, lamp(4), false),
    ]
}

/// A marble ball on marble ground, lit by a sphere above and a rectangle
/// behind it. The two noise tables are made of the first and the second run
/// of 1533 words of the sampler; all else is fixed.
pub fn simple_light(sampler: &mut Sampler) -> (world: HitList)
    ensures
        exists|ground: Perlin, ball_noise: Perlin|
            ground.made_from(old(sampler).words()) && ball_noise.made_from(
                skip(old(sampler).words(), 1533),
            ) && world.0@ == #[trigger] spec_simple_light(ground, ball_noise),
        final(sampler).follows(*old(sampler), 3066),
{
    let ground = Perlin::new(sampler);
    let ball_noise = Perlin::new(sampler);
    proof {
        lemma_skip_adds(old(sampler).words(), 1533, 1533);
    }
    let ghost g = ground;
    let ghost b = ball_noise;
    let objects = vec![
        ball(point(0, -1000i32, 0), Scalar::from_int(1000), marble(ground, Scalar::from_int(4))),
        ball(point(0, 2, 0), Scalar::from_int(2), marble(ball_noise, Scalar::from_int(4))),
        ball(point(0, 7, 0), Scalar::from_int(2), lamp(4)),
        wall_xy(3, 5, 1, 3, -2i32, lamp(4), false),
    ];
    assert(objects@ =~= spec_simple_light(g, b));
    HitList(objects)
}

/// A ball that shows `image` on marble ground. The noise table is made of
/// the next 1533 words of the sampler; all else is fixed.
pub open spec fn spec_two_perlin_spheres(ground: Perlin, image: ImageTexture) -> Seq<Hittable> {
    seq![
        ball(point(0, -1000i32, 0), Scalar::from_int(1000), marble(ground, Scalar::from_int(5))),
        ball(
            point(0, 2, 0),
            Scalar::from_int(2),
            Material::Lambertian(Lambertian::new(Texture::Image(image))),
        ),
    ]
}

/// A ball that shows `image` on marble ground. The noise table is made of
/// the next 1533 words of the sampler; all else is fixed.
pub fn two_perlin_spheres(sampler: &mut Sampler, image: ImageTexture) -> (world: HitList)
    ensures
        exists|ground: Perlin|
            ground.made_from(old(sampler).words()) && world.0@
                == #[trigger] spec_two_perlin_spheres(ground, image),
        final(sampler).follows(*old(sampler), 1533),
{
    let ground = Perlin::new(sampler);
    let ghost g = ground;
    let objects = vec![
        ball(point(0, -1000i32, 0), Scalar::from_int(1000), marble(ground, Scalar::from_int(5))),
        ball(
            point(0, 2, 0),
            Scalar::from_int(2),
            Material::Lambertian(Lambertian::new(Texture::Image(image))),
        ),
    ];
    assert(objects@ =~= spec_two_perlin_spheres(g, image));
    HitList(objects)
}

/// The ground of the scene of many spheres: a huge checkered sphere.
pub open spec fn spec_checkered_ground() -> Hittable {
    ball(point(0, -1000i32, 0), Scalar::from_int(1000), Material::Lambertian(Lambertian::new(ground_checker())))
}

/// The ground of the scene of many spheres: a huge checkered sphere.
#[verifier::when_used_as_spec(spec_checkered_ground)]
pub fn checkered_ground() -> (h: Hittable)
    ensures
        h == spec_checkered_ground(),
{
    ball(point(0, -1000i32, 0), Scalar::from_int(1000), Material::Lambertian(Lambertian::new(ground_checker())))
}

/// What is drawn for one small sphere of the scene of many spheres. All
/// draws are uniform in `[0, 1)`.
#[derive(Clone, Copy, Debug, PartialEq, Eq, Structural)]
pub struct SmallSphereDraws {
    /// Selects the material: diffuse below 0.8, metal below 0.95, else glass.
    pub choose_mat: Scalar,
    /// Where in its cell the sphere stands, along `x`.
    pub jitter_x: Scalar,
    /// Where in its cell the sphere stands, along `z`.
    pub jitter_z: Scalar,
    /// Two colours: their product is the diffuse colour, and the second one
    /// gives the colour of the metal.
    pub first: Vec3,
    pub second: Vec3,
    /// The roughness of the metal, before it is halved.
    pub fuzz: Scalar,
    /// How far the diffuse sphere rises while the shutter is open, before it
    /// is halved.
    pub lift: Scalar,
}

impl SmallSphereDraws {
    /// Every draw lies in `[0, 1)`.
    pub open spec fn valid(&self) -> bool {
        &&& 0 <= self.choose_mat@ < 65536
        &&& 0 <= self.jitter_x@ < 65536
        &&& 0 <= self.jitter_z@ < 65536
        &&& self.first.in_unit_cube()
        &&& self.second.in_unit_cube()
        &&& 0 <= self.fuzz@ < 65536
        &&& 0 <= self.lift@ < 65536
    }

    /// The draws that the first eleven words of a stream stand for: one word
    /// each for the material and the two jitters, three each for the two
    /// colours, one each for the roughness and the lift.
    pub open spec fn drawn(words: spec_fn(nat) -> u32) -> SmallSphereDraws {
        SmallSphereDraws {
            choose_mat: unit_of_word(words(0)),
            jitter_x: unit_of_word(words(1)),
            jitter_z: unit_of_word(words(2)),
            first: Vec3::drawn(skip(words, 3)),
            second: Vec3::drawn(skip(words, 6)),
            fuzz: unit_of_word(words(9)),
            lift: unit_of_word(words(10)),
        }
    }

    /// Draws for one small sphere: what the next eleven words stand for, as
    /// [`SmallSphereDraws::drawn`] says. The sampler moves on by eleven
    /// words.
    pub fn draw(sampler: &mut Sampler) -> (d: SmallSphereDraws)
        ensures
            d == Self::drawn(old(sampler).words()),
            final(sampler).follows(*old(sampler), 11),
            d.valid(),
    {
        let ghost start = *sampler;
        let choose_mat = sampler.uniform();
        let ghost after_1 = *sampler;
        let jitter_x = sampler.uniform();
        let ghost after_2 = *sampler;
        let jitter_z = sampler.uniform();
        let ghost after_3 = *sampler;
        let first = Vec3::random(sampler);
        let ghost after_6 = *sampler;
        let second = Vec3::random(sampler);
        let ghost after_9 = *sampler;
        let fuzz = sampler.uniform();
        let ghost after_10 = *sampler;
        let lift = sampler.uniform();
        proof {
            lemma_follows_adds(after_2, after_1, start, 1, 1);
            lemma_follows_adds(after_3, after_2, start, 2, 1);
            lemma_follows_adds(after_6, after_3, start, 3, 3);
            lemma_follows_adds(after_9, after_6, start, 6, 3);
            lemma_follows_adds(after_10, after_9, start, 9, 1);
            lemma_follows_adds(*sampler, after_10, start, 10, 1);
        }
        SmallSphereDraws { choose_mat, jitter_x, jitter_z, first, second, fuzz, lift }
    }
}

/// The small sphere of the cell `(a, b)` of the ground, if the cell has one. It
/// stands at `(a + 0.9 jitter_x, 0.2, b + 0.9 jitter_z)` and has radius 0.2.
/// There is none where that is within 0.9 of `(4, 0.2, 0)`, where a large sphere
/// stands. A diffuse sphere moves upward while the shutter is open; a metal or
/// glass one is at rest.
pub open spec fn spec_small_sphere(a: i32, b: i32, d: SmallSphereDraws) -> Option<Hittable> {
    let center = Vec3::new(
        Scalar::from_int(a).plus(Scalar::ratio(9, 10).times(d.jitter_x)),
        Scalar::ratio(2, 10),
        Scalar::from_int(b).plus(Scalar::ratio(9, 10).times(d.jitter_z)),
    );
    let radius = Scalar::ratio(2, 10);
    let large = Vec3::new(Scalar::from_int(4), Scalar::ratio(2, 10), Scalar::zero());
    if center.minus(large).len().raw > Scalar::ratio(9, 10).raw {
        if d.choose_mat.raw < Scalar::ratio(80, 100).raw {
            Some(
                Hittable::MovingSphere(
                    MovingSphere {
                        center0: center,
                        center1: center.plus(
                            Vec3::new(
                                Scalar::zero(),
                                Scalar::ratio(1, 2).times(d.lift),
                                Scalar::zero(),
                            ),
                        ),
                        time0: Scalar::zero(),
                        time1: Scalar::one(),
                        radius,
                        material: Material::Lambertian(
                            Lambertian::new(
                                Texture::Constant(ConstantTexture { color: d.first.times(d.second) }),
                            ),
                        ),
                    },
                ),
            )
        } else if d.choose_mat.raw < Scalar::ratio(95, 100).raw {
            Some(
                ball(
                    center,
                    radius,
                    Material::Metal(
                        Metal::new(
                            d.second.plus(Vec3::splat(Scalar::one())).scale(Scalar::ratio(1, 2)),
                            Scalar::ratio(1, 2).times(d.fuzz),
                        ),
                    ),
                ),
            )
        } else {
            Some(ball(center, radius, glass()))
        }
    } else {
        None
    }
}

/// The small sphere of the cell `(a, b)` of the ground, if the cell has one. It
/// stands at `(a + 0.9 jitter_x, 0.2, b + 0.9 jitter_z)` and has radius 0.2.
/// There is none where that is within 0.9 of `(4, 0.2, 0)`, where a large sphere
/// stands. A diffuse sphere moves upward while the shutter is open; a metal or
/// glass one is at rest.
#[verifier::when_used_as_spec(spec_small_sphere)]
pub fn small_sphere(a: i32, b: i32, d: SmallSphereDraws) -> (r: Option<Hittable>)
    ensures
        r == spec_small_sphere(a, b, d),
{
    let center = Vec3::new(
        Scalar::from_int(a).plus(Scalar::ratio(9, 10).times(d.jitter_x)),
        Scalar::ratio(2, 10),
        Scalar::from_int(b).plus(Scalar::ratio(9, 10).times(d.jitter_z)),
    );
    let radius = Scalar::ratio(2, 10);
    let large = Vec3::new(Scalar::from_int(4), Scalar::ratio(2, 10), Scalar::zero());
    if center.minus(large).len().raw > Scalar::ratio(9, 10).raw {
        if d.choose_mat.raw < Scalar::ratio(80, 100).raw {
            Some(
                Hittable::MovingSphere(
                    MovingSphere {
                        center0: center,
                        center1: center.plus(
                            Vec3::new(
                                Scalar::zero(),
                                Scalar::ratio(1, 2).times(d.lift),
                                Scalar::zero(),
                            ),
                        ),
                        time0: Scalar::zero(),
                        time1: Scalar::one(),
                        radius,
                        material: Material::Lambertian(
                            Lambertian::new(
                                Texture::Constant(ConstantTexture { color: d.first.times(d.second) }),
                            ),
                        ),
                    },
                ),
            )
        } else if d.choose_mat.raw < Scalar::ratio(95, 100).raw {
            Some(
                ball(
                    center,
                    radius,
                    Material::Metal(
                        Metal::new(
                            d.second.plus(Vec3::splat(Scalar::one())).scale(Scalar::ratio(1, 2)),
                            Scalar::ratio(1, 2).times(d.fuzz),
                        ),
                    ),
                ),
            )
        } else {
            Some(ball(center, radius, glass()))
        }
    } else {
        None
    }
}

/// The large glass sphere of the scene of many spheres.
pub open spec fn spec_large_glass() -> Hittable {
    ball(point(0, 1, 0), Scalar::one(), glass())
}

/// The large glass sphere of the scene of many spheres.
#[verifier::when_used_as_spec(spec_large_glass)]
pub fn large_glass() -> (h: Hittable)
    ensures
        h == spec_large_glass(),
{
    ball(point(0, 1, 0), Scalar::one(), glass())
}

/// The large diffuse sphere of the scene of many spheres.
pub open spec fn spec_large_diffuse() -> Hittable {
    ball(point(-4i32, 1, 0), Scalar::one(), diffuse(40, 20, 10))
}

/// The large diffuse sphere of the scene of many spheres.
#[verifier::when_used_as_spec(spec_large_diffuse)]
pub fn large_diffuse() -> (h: Hittable)
    ensures
        h == spec_large_diffuse(),
{
    ball(point(-4i32, 1, 0), Scalar::one(), diffuse(40, 20, 10))
}

/// The large metal sphere of the scene of many spheres.
pub open spec fn spec_large_metal() -> Hittable {
    ball(point(4, 1, 0), Scalar::one(), Material::Metal(Metal::new(rgb(70, 60, 50), Scalar::zero())))
}

/// The large metal sphere of the scene of many spheres.
#[verifier::when_used_as_spec(spec_large_metal)]
pub fn large_metal() -> (h: Hittable)
    ensures
        h == spec_large_metal(),
{
    ball(point(4, 1, 0), Scalar::one(), Material::Metal(Metal::new(rgb(70, 60, 50), Scalar::zero())))
}

/// The object is a small sphere of some cell of the ground, for some draws.
pub open spec fn is_small_sphere(h: Hittable) -> bool {
    exists|a: i32, b: i32, d: SmallSphereDraws|
        -10 <= a < 10 && -5 <= b < 5 && d.valid() && #[trigger] spec_small_sphere(a, b, d) == Some(
            h,
        )
}

/// The small sphere of cell number `k` of the ground, if the cell has one,
/// for the draws that a stream of words gives it. The 200 cells are counted
/// row by row: cell `k` lies at `(k / 10 - 10, k % 10 - 5)` and takes the
/// eleven words from word `11 k` on.
pub open spec fn small_sphere_of_cell(k: nat, words: spec_fn(nat) -> u32) -> Option<Hittable> {
    spec_small_sphere(
        (k / 10 - 10) as i32,
        (k % 10 - 5) as i32,
        SmallSphereDraws::drawn(skip(words, 11 * k)),
    )
}

/// The small spheres of the first `n` cells of the ground, in the order of
/// the cells: each cell gives its sphere where it has one, and nothing where
/// it has none.
pub open spec fn small_spheres(n: nat, words: spec_fn(nat) -> u32) -> Seq<Hittable>
    decreases n,
{
    if n == 0 {
        Seq::empty()
    } else {
        match small_sphere_of_cell((n - 1) as nat, words) {
            Some(h) => small_spheres((n - 1) as nat, words).push(h),
            None => small_spheres((n - 1) as nat, words),
        }
    }
}

/// The three large spheres of the scene of many spheres.
pub open spec fn large_spheres() -> Seq<Hittable> {
    seq![large_glass(), large_diffuse(), large_metal()]
}

/// The scene of many spheres: the checkered ground, then the small spheres
/// of the 200 cells around the origin, each present exactly where its cell
/// has one for its draws, then three large spheres of glass, of a diffuse
/// material and of metal. The sampler moves on by the eleven words of each
/// cell.
#[verifier::rlimit(60)]
pub fn random_scene(sampler: &mut Sampler) -> (world: HitList)
    ensures
        world.0@ == seq![checkered_ground()] + small_spheres(200, old(sampler).words())
            + large_spheres(),
        final(sampler).follows(*old(sampler), 2200),
        4 <= world.0@.len() <= 204,
        world.0@[0] == checkered_ground(),
        forall|i: int| 1 <= i < world.0@.len() - 3 ==> is_small_sphere(#[trigger] world.0@[i]),
        world.0@[world.0@.len() - 3] == large_glass(),
        world.0@[world.0@.len() - 2] == large_diffuse(),
        world.0@[world.0@.len() - 1] == large_metal(),
{
    let ghost start = old(sampler).words();
    let mut objects: Vec<Hittable> = Vec::new();
    objects.push(checkered_ground());
    proof {
        lemma_skip_none(start);
        assert(objects@ =~= seq![checkered_ground()] + small_spheres(0, start));
    }
    let mut a: i32 = -10;
    while a < 10
        invariant
            -10 <= a <= 10,
            start == old(sampler).words(),
            1 <= objects@.len() <= 1 + (a + 10) * 10,
            objects@[0] == checkered_ground(),
            forall|i: int| 1 <= i < objects@.len() ==> is_small_sphere(#[trigger] objects@[i]),
            objects@ == seq![checkered_ground()] + small_spheres(((a + 10) * 10) as nat, start),
            sampler.words() == skip(start, (11 * ((a + 10) * 10)) as nat),
        decreases 10 - a,
    {
        let mut b: i32 = -5;
        while b < 5
            invariant
                -10 <= a < 10,
                -5 <= b <= 5,
                start == old(sampler).words(),
                1 <= objects@.len() <= 1 + (a + 10) * 10 + (b + 5),
                objects@[0] == checkered_ground(),
                forall|i: int| 1 <= i < objects@.len() ==> is_small_sphere(#[trigger] objects@[i]),
                objects@ == seq![checkered_ground()] + small_spheres(
                    ((a + 10) * 10 + (b + 5)) as nat,
                    start,
                ),
                sampler.words() == skip(start, (11 * ((a + 10) * 10 + (b + 5))) as nat),
            decreases 5 - b,
        {
            let ghost k = ((a + 10) * 10 + (b + 5)) as nat;
            let ghost before = objects@;
            let d = SmallSphereDraws::draw(sampler);
            proof {
                lemma_skip_adds(start, 11 * k, 11);
                assert(k / 10 - 10 == a && k % 10 - 5 == b);
                assert(small_sphere(a, b, d) == small_sphere_of_cell(k, start));
            }
            match small_sphere(a, b, d) {
                Some(h) => {
                    objects.push(h);
                    assert(objects@ =~= seq![checkered_ground()] + small_spheres(k + 1, start));
                },
                None => {},
            }
            b = b + 1;
        }
        a = a + 1;
    }
    let ghost small = objects@;
    objects.push(large_glass());
    objects.push(large_diffuse());
    objects.push(large_metal());
    assert(objects@ =~= small + large_spheres());
    HitList(objects)
}

/// The lower edge of row or column `i` of the floor of the last scene:
/// `-1000 + 100 i`.
pub open spec fn spec_cell_edge(i: i32) -> Scalar {
    Scalar::from_int(-1000i32).plus(Scalar::from_int(i).times(Scalar::from_int(100)))
}

/// The lower edge of row or column `i` of the floor of the last scene:
/// `-1000 + 100 i`.
#[verifier::when_used_as_spec(spec_cell_edge)]
pub fn cell_edge(i: i32) -> (x: Scalar)
    ensures
        x == spec_cell_edge(i),
{
    Scalar::from_int(-1000i32).plus(Scalar::from_int(i).times(Scalar::from_int(100)))
}

/// The box of the cell `(i, j)` of the floor of the last scene: a green cuboid
/// 100 wide and deep, whose height is a hundred times the draw plus one.
pub open spec fn spec_floor_box(i: i32, j: i32, height: Scalar) -> Hittable {
    Hittable::HitBox(
        HitBox::new(
            Vec3::new(cell_edge(i), Scalar::zero(), cell_edge(j)),
            Vec3::new(
                cell_edge(i).plus(Scalar::from_int(100)),
                Scalar::from_int(100).times(height.plus(Scalar::ratio(1, 100))),
                cell_edge(j).plus(Scalar::from_int(100)),
            ),
            diffuse(48, 83, 53),
        ),
    )
}

/// The box of the cell `(i, j)` of the floor of the last scene: a green cuboid
/// 100 wide and deep, whose height is a hundred times the draw plus one.
#[verifier::when_used_as_spec(spec_floor_box)]
pub fn floor_box(i: i32, j: i32, height: Scalar) -> (h: Hittable)
    ensures
        h == spec_floor_box(i, j, height),
{
    Hittable::HitBox(
        HitBox::new(
            Vec3::new(cell_edge(i), Scalar::zero(), cell_edge(j)),
            Vec3::new(
                cell_edge(i).plus(Scalar::from_int(100)),
                Scalar::from_int(100).times(height.plus(Scalar::ratio(1, 100))),
                cell_edge(j).plus(Scalar::from_int(100)),
            ),
            diffuse(48, 83, 53),
        ),
    )
}

/// A small white ball of the cloud of the last scene, at 165 times the draw.
pub open spec fn spec_cloud_ball(draw: Vec3) -> Hittable {
    ball(draw.scale(Scalar::from_int(165)), Scalar::from_int(10), diffuse(73, 73, 73))
}

/// A small white ball of the cloud of the last scene, at 165 times the draw.
#[verifier::when_used_as_spec(spec_cloud_ball)]
pub fn cloud_ball(draw: Vec3) -> (h: Hittable)
    ensures
        h == spec_cloud_ball(draw),
{
    ball(draw.scale(Scalar::from_int(165)), Scalar::from_int(10), diffuse(73, 73, 73))
}

/// The objects of the last scene that are the same in every outcome: a light
/// in the ceiling, a moving diffuse sphere, a glass sphere, a rough metal
/// sphere, a glass sphere filled with blue smoke, and a thin white mist over
/// everything.
pub open spec fn spec_fixed_part() -> Seq<Hittable> {
    seq![
        wall_xz(123, 423, 147, 412, 554, lamp(7), false),
        Hittable::MovingSphere(
            MovingSphere {
                center0: point(400, 400, 200),
                center1: point(400, 400, 200).plus(point(30, 0, 0)),
                time0: Scalar::zero(),
                time1: Scalar::one(),
                radius: Scalar::from_int(50),
                material: diffuse(70, 30, 10),
            },
        ),
        ball(point(260, 150, 45), Scalar::from_int(50), glass()),
        ball(
            point(0, 150, 145),
            Scalar::from_int(50),
            Material::Metal(Metal::new(rgb(80, 80, 90), Scalar::from_int(10))),
        ),
        ball(point(360, 150, 145), Scalar::from_int(70), glass()),
        smoke(ball(point(360, 150, 145), Scalar::from_int(70), glass()), 2000, fog(20, 40, 90)),
        smoke(ball(point(0, 0, 0), Scalar::from_int(5000), glass()), 1, fog(100, 100, 100)),
    ]
}

/// The objects of the last scene that are the same in every outcome: a light
/// in the ceiling, a moving diffuse sphere, a glass sphere, a rough metal
/// sphere, a glass sphere filled with blue smoke, and a thin white mist over
/// everything.
pub fn fixed_part() -> (objects: Vec<Hittable>)
    ensures
        objects@ == spec_fixed_part(),
{
    let objects = vec![
        wall_xz(123, 423, 147, 412, 554, lamp(7), false),
        Hittable::MovingSphere(
            MovingSphere {
                center0: point(400, 400, 200),
                center1: point(400, 400, 200).plus(point(30, 0, 0)),
                time0: Scalar::zero(),
                time1: Scalar::one(),
                radius: Scalar::from_int(50),
                material: diffuse(70, 30, 10),
            },
        ),
        ball(point(260, 150, 45), Scalar::from_int(50), glass()),
        ball(
            point(0, 150, 145),
            Scalar::from_int(50),
            Material::Metal(Metal::new(rgb(80, 80, 90), Scalar::from_int(10))),
        ),
        ball(point(360, 150, 145), Scalar::from_int(70), glass()),
        smoke(ball(point(360, 150, 145), Scalar::from_int(70), glass()), 2000, fog(20, 40, 90)),
        smoke(ball(point(0, 0, 0), Scalar::from_int(5000), glass()), 1, fog(100, 100, 100)),
    ];
    objects
}

/// The ball of the last scene that shows `image`.
pub open spec fn spec_globe(image: ImageTexture) -> Hittable {
    ball(
        point(400, 200, 400),
        Scalar::from_int(100),
        Material::Lambertian(Lambertian::new(Texture::Image(image))),
    )
}

/// The ball of the last scene that shows `image`.
#[verifier::when_used_as_spec(spec_globe)]
pub fn globe(image: ImageTexture) -> (h: Hittable)
    ensures
        h == spec_globe(image),
{
    ball(
        point(400, 200, 400),
        Scalar::from_int(100),
        Material::Lambertian(Lambertian::new(Texture::Image(image))),
    )
}

/// The ball of marble of the last scene.
pub open spec fn spec_marble_ball(noise: Perlin) -> Hittable {
    ball(point(220, 280, 300), Scalar::from_int(80), marble(noise, Scalar::ratio(1, 10)))
}

/// The ball of marble of the last scene.
#[verifier::when_used_as_spec(spec_marble_ball)]
pub fn marble_ball(noise: Perlin) -> (h: Hittable)
    ensures
        h == spec_marble_ball(noise),
{
    ball(point(220, 280, 300), Scalar::from_int(80), marble(noise, Scalar::ratio(1, 10)))
}

/// The cloud of the last scene in its place: turned by 15 degrees about the
/// vertical and moved to `(-100, 270, 395)`.
pub open spec fn spec_placed_cloud(cloud: Hittable) -> Hittable {
    Hittable::Translate(
        Box::new(
            Translate {
                hittable: Hittable::RotateY(Box::new(RotateY::new(cloud, Scalar::from_int(15)))),
                offset: point(-100i32, 270, 395),
            },
        ),
    )
}

/// The cloud of the last scene in its place: turned by 15 degrees about the
/// vertical and moved to `(-100, 270, 395)`.
#[verifier::when_used_as_spec(spec_placed_cloud)]
pub fn placed_cloud(cloud: Hittable) -> (h: Hittable)
    ensures
        h == spec_placed_cloud(cloud),
{
    Hittable::Translate(
        Box::new(
            Translate {
                hittable: Hittable::RotateY(Box::new(RotateY::new(cloud, Scalar::from_int(15)))),
                offset: point(-100i32, 270, 395),
            },
        ),
    )
}

/// The object is a box of the floor of the last scene, for some cell and
/// some draw.
pub open spec fn is_floor_box(h: Hittable) -> bool {
    exists|i: i32, j: i32, height: Scalar|
        0 <= i < 20 && 0 <= j < 20 && 0 <= height@ < 65536 && #[trigger] spec_floor_box(i, j, height)
            == h
}

/// The object is a ball of the cloud of the last scene, for some draw.
pub open spec fn is_cloud_ball(h: Hittable) -> bool {
    exists|draw: Vec3| draw.in_unit_cube() && #[trigger] spec_cloud_ball(draw) == h
}

/// The tree holds `count` objects, each of which satisfies `kind`, and is
/// well formed over the time interval `[0, 1]`.
pub open spec fn is_tree_of(h: Hittable, count: nat, kind: spec_fn(Hittable) -> bool) -> bool {
    h matches Hittable::BVHNode(node) && node.wf(Scalar::zero(), Scalar::one())
        && node.leaves().len() == count && forall|k: int|
        0 <= k < node.leaves().len() ==> kind(#[trigger] node.leaves()[k])
}

/// What a tree holds is what it was built from.
proof fn lemma_leaves_are_of_kind(
    node: BVHNode,
    objects: Seq<Hittable>,
    kind: spec_fn(Hittable) -> bool,
)
    requires
        node.leaves().to_multiset() == objects.to_multiset(),
        forall|k: int| 0 <= k < objects.len() ==> kind(#[trigger] objects[k]),
    ensures
        forall|k: int| 0 <= k < node.leaves().len() ==> kind(#[trigger] node.leaves()[k]),
{
    assert forall|k: int| 0 <= k < node.leaves().len() implies kind(
        #[trigger] node.leaves()[k],
    ) by {
        let leaf = node.leaves()[k];
        vstd::seq_lib::to_multiset_contains(node.leaves(), leaf);
        vstd::seq_lib::to_multiset_contains(objects, leaf);
        let at = choose|at: int| 0 <= at < objects.len() && objects[at] == leaf;
        assert(kind(objects[at]));
    }
}

/// The boxes of the first `n` cells of the floor that a stream of words
/// gives. The cells are counted row by row: cell `k` lies at
/// `(k / 20, k % 20)`, and word `k` stands for its height.
pub open spec fn floor_boxes(n: nat, words: spec_fn(nat) -> u32) -> Seq<Hittable>
    decreases n,
{
    if n == 0 {
        Seq::empty()
    } else {
        floor_boxes((n - 1) as nat, words).push(
            spec_floor_box(
                ((n - 1) / 20) as i32,
                ((n - 1) % 20) as i32,
                unit_of_word(words((n - 1) as nat)),
            ),
        )
    }
}

/// The floor of the last scene that a stream of words gives, and how many of
/// the words it uses: the 400 boxes take a word each, and the tree over them
/// is built with the words after those.
pub open spec fn floor_tree_of(words: spec_fn(nat) -> u32) -> (Hittable, nat) {
    let built = build_of(floor_boxes(400, words), Scalar::zero(), Scalar::one(), skip(words, 400), 400);
    (Hittable::BVHNode(Box::new(built.0)), 400 + built.1)
}

/// The first `n` balls of the cloud that a stream of words gives: each takes
/// three words for its place.
pub open spec fn cloud_balls(n: nat, words: spec_fn(nat) -> u32) -> Seq<Hittable>
    decreases n,
{
    if n == 0 {
        Seq::empty()
    } else {
        cloud_balls((n - 1) as nat, words).push(
            spec_cloud_ball(Vec3::drawn(skip(words, 3 * (n - 1) as nat))),
        )
    }
}

/// The cloud of the last scene that a stream of words gives, and how many of
/// the words it uses: the 1000 balls take three words each, and the tree
/// over them is built with the words after those.
pub open spec fn cloud_tree_of(words: spec_fn(nat) -> u32) -> (Hittable, nat) {
    let built = build_of(
        cloud_balls(1000, words),
        Scalar::zero(),
        Scalar::one(),
        skip(words, 3000),
        1000,
    );
    (Hittable::BVHNode(Box::new(built.0)), 3000 + built.1)
}

/// The floor of the last scene: a tree over the 400 boxes of the floor.
fn floor_tree(sampler: &mut Sampler) -> (h: Hittable)
    ensures
        h == floor_tree_of(old(sampler).words()).0,
        final(sampler).follows(*old(sampler), floor_tree_of(old(sampler).words()).1),
        is_tree_of(h, 400, |b: Hittable| is_floor_box(b)),
{
    let ghost start = old(sampler).words();
    let mut boxes: Vec<Hittable> = Vec::new();
    let mut i: i32 = 0;
    proof {
        lemma_skip_none(start);
        assert(boxes@ =~= floor_boxes(0, start));
    }
    while i < 20
        invariant
            0 <= i <= 20,
            start == old(sampler).words(),
            boxes@ == floor_boxes((i * 20) as nat, start),
            sampler.words() == skip(start, (i * 20) as nat),
            boxes@.len() == i * 20,
            forall|k: int| 0 <= k < boxes@.len() ==> is_floor_box(#[trigger] boxes@[k]),
            all_bounded(boxes@, Scalar::zero(), Scalar::one()),
        decreases 20 - i,
    {
        let mut j: i32 = 0;
        while j < 20
            invariant
                0 <= i < 20,
                0 <= j <= 20,
                start == old(sampler).words(),
                boxes@ == floor_boxes((i * 20 + j) as nat, start),
                sampler.words() == skip(start, (i * 20 + j) as nat),
                boxes@.len() == i * 20 + j,
                forall|k: int| 0 <= k < boxes@.len() ==> is_floor_box(#[trigger] boxes@[k]),
                all_bounded(boxes@, Scalar::zero(), Scalar::one()),
            decreases 20 - j,
        {
            let ghost k = (i * 20 + j) as nat;
            let height = sampler.uniform();
            proof {
                lemma_skip_adds(start, k, 1);
                assert(k / 20 == i && k % 20 == j);
            }
            boxes.push(floor_box(i, j, height));
            j = j + 1;
        }
        i = i + 1;
    }
    let ghost built_from = boxes@;
    let node = BVHNode::build(boxes, Scalar::zero(), Scalar::one(), sampler);
    proof {
        lemma_leaves_are_of_kind(node, built_from, |b: Hittable| is_floor_box(b));
        lemma_skip_adds(
            start,
            400,
            build_of(built_from, Scalar::zero(), Scalar::one(), skip(start, 400), 400).1,
        );
    }
    Hittable::BVHNode(Box::new(node))
}

/// The cloud of the last scene: a tree over 1000 small white balls.
fn cloud_tree(sampler: &mut Sampler) -> (h: Hittable)
    ensures
        h == cloud_tree_of(old(sampler).words()).0,
        final(sampler).follows(*old(sampler), cloud_tree_of(old(sampler).words()).1),
        is_tree_of(h, 1000, |b: Hittable| is_cloud_ball(b)),
{
    let ghost start = old(sampler).words();
    let mut balls: Vec<Hittable> = Vec::new();
    let mut n: u32 = 0;
    proof {
        lemma_skip_none(start);
        assert(balls@ =~= cloud_balls(0, start));
    }
    while n < 1000
        invariant
            n <= 1000,
            start == old(sampler).words(),
            balls@ == cloud_balls(n as nat, start),
            sampler.words() == skip(start, 3 * n as nat),
            balls@.len() == n,
            forall|k: int| 0 <= k < balls@.len() ==> is_cloud_ball(#[trigger] balls@[k]),
            all_bounded(balls@, Scalar::zero(), Scalar::one()),
        decreases 1000 - n,
    {
        let draw = Vec3::random(sampler);
        proof {
            lemma_skip_adds(start, 3 * n as nat, 3);
        }
        balls.push(cloud_ball(draw));
        n = n + 1;
    }
    let ghost built_from = balls@;
    let node = BVHNode::build(balls, Scalar::zero(), Scalar::one(), sampler);
    proof {
        lemma_leaves_are_of_kind(node, built_from, |b: Hittable| is_cloud_ball(b));
        lemma_skip_adds(
            start,
            3000,
            build_of(built_from, Scalar::zero(), Scalar::one(), skip(start, 3000), 1000).1,
        );
    }
    Hittable::BVHNode(Box::new(node))
}

/// The last scene. It holds eleven objects:
///
/// - a floor of 400 green boxes of random heights, in a tree, as
///   [`floor_tree_of`] says of the sampler's words;
/// - the seven objects of [`fixed_part`];
/// - a ball that shows `image`;
/// - a ball of marble, whose noise tables are made of the 1533 words after
///   those of the floor;
/// - a cloud of 1000 small white balls in a tree, turned and moved, as
///   [`cloud_tree_of`] says of the words after those.
#[verifier::rlimit(40)]
pub fn final_scene(sampler: &mut Sampler, image: ImageTexture) -> (world: HitList)
    ensures
        world.0@.len() == 11,
        world.0@[0] == floor_tree_of(old(sampler).words()).0,
        is_tree_of(world.0@[0], 400, |b: Hittable| is_floor_box(b)),
        world.0@.subrange(1, 8) == spec_fixed_part(),
        world.0@[8] == globe(image),
        exists|noise: Perlin|
            noise.made_from(skip(old(sampler).words(), floor_tree_of(old(sampler).words()).1))
                && world.0@[9] == #[trigger] marble_ball(noise),
        world.0@[10] == placed_cloud(
            cloud_tree_of(
                skip(old(sampler).words(), floor_tree_of(old(sampler).words()).1 + 1533),
            ).0,
        ),
        final(sampler).follows(
            *old(sampler),
            floor_tree_of(old(sampler).words()).1 + 1533 + cloud_tree_of(
                skip(old(sampler).words(), floor_tree_of(old(sampler).words()).1 + 1533),
            ).1,
        ),
        exists|cloud: Hittable|
            is_tree_of(cloud, 1000, |b: Hittable| is_cloud_ball(b)) && world.0@[10]
                == #[trigger] placed_cloud(cloud),
{
    let ghost start = old(sampler).words();
    let ghost floor_words = floor_tree_of(start).1;
    let floor = floor_tree(sampler);
    let noise = Perlin::new(sampler);
    proof {
        lemma_skip_adds(start, floor_words, 1533);
    }
    let cloud = cloud_tree(sampler);
    proof {
        lemma_skip_adds(start, floor_words + 1533, cloud_tree_of(skip(start, floor_words + 1533)).1);
    }
    let mut objects: Vec<Hittable> = Vec::new();
    objects.push(floor);
    let mut fixed = fixed_part();
    objects.append(&mut fixed);
    objects.push(globe(image));
    objects.push(marble_ball(noise));
    objects.push(placed_cloud(cloud));
    HitList(objects)
}

} // verus!
