//! Textures: maps from a surface coordinate and a point in space to a colour.

use crate::math::sin;
use crate::perlin::Perlin;
use crate::scalar::Scalar;
use crate::vec3::Vec3;
use vstd::prelude::*;

verus! {

/// The same colour everywhere.
#[derive(Clone, Copy, Debug, PartialEq, Eq, Structural)]
pub struct ConstantTexture {
    pub color: Vec3,
}

/// Two textures alternating in space: where the sines of the three scaled
/// coordinates sum to less than zero the `odd` texture shows, elsewhere the
/// `even` one.
pub struct CheckerTexture {
    pub odd: Texture,
    pub even: Texture,
}

/// Marble: a sine along `z` whose phase is disturbed by turbulence.
pub struct NoiseTexture {
    pub perlin: Perlin,
    pub scale: Scalar,
}

/// An image of 8-bit RGB pixels, row by row from the top, wrapped once around
/// the surface.
pub struct ImageTexture {
    pixels: Vec<u8>,
    width: usize,
    height: usize,
}

/// The closed set of texture kinds.
pub enum Texture {
    Constant(ConstantTexture),
    Checker(Box<CheckerTexture>),
    Noise(NoiseTexture),
    Image(ImageTexture),
}

/// The sum of the sines of the three coordinates of `p`, each scaled by ten.
pub open spec fn spec_checker_phase(p: Vec3) -> Scalar {
    sin(Scalar::from_int(10).times(p.x)).plus(sin(Scalar::from_int(10).times(p.y))).plus(
        sin(Scalar::from_int(10).times(p.z)),
    )
}

/// The sum of the sines of the three coordinates of `p`, each scaled by ten.
#[verifier::when_used_as_spec(spec_checker_phase)]
pub fn checker_phase(p: Vec3) -> (s: Scalar)
    ensures
        s == spec_checker_phase(p),
{
    sin(Scalar::from_int(10).times(p.x)).plus(sin(Scalar::from_int(10).times(p.y))).plus(
        sin(Scalar::from_int(10).times(p.z)),
    )
}

/// The column or row of an image of `extent` pixels that the coordinate
/// `along` in `[0, 1]` falls into; coordinates outside select the nearest
/// edge.
pub open spec fn spec_texel_index(along: Scalar, extent: usize) -> usize {
    let scaled = along@ * extent as int / 65536;
    if scaled < 0 {
        0
    } else if scaled >= extent {
        (extent - 1) as usize
    } else {
        scaled as usize
    }
}

/// The column or row of an image of `extent` pixels that the coordinate
/// `along` in `[0, 1]` falls into; coordinates outside select the nearest
/// edge.
#[verifier::when_used_as_spec(spec_texel_index)]
pub fn texel_index(along: Scalar, extent: usize) -> (i: usize)
    requires
        extent > 0,
    ensures
        i == spec_texel_index(along, extent),
        i < extent,
{
    if along.raw < 0 {
        assert(along@ * (extent as int) < 0) by (nonlinear_arith)
            requires
                along@ < 0,
                extent as int > 0,
        ;
        0
    } else {
        assert(0 <= along@ * extent as int <= 0x7fff_ffff_ffff_ffff * 0xffff_ffff_ffff_ffff)
            by (nonlinear_arith)
            requires
                0 <= along@ <= 0x7fff_ffff_ffff_ffff,
                0 < extent as int <= 0xffff_ffff_ffff_ffff,
        ;
        let scaled: u128 = (along.raw as u128) * (extent as u128) / 65536;
        if scaled >= extent as u128 {
            extent - 1
        } else {
            scaled as usize
        }
    }
}

/// A colour channel stored in a byte, as a fraction of 255.
pub open spec fn spec_channel(byte: u8) -> Scalar {
    Scalar::from_int(byte as i32).over(Scalar::from_int(255))
}

impl ConstantTexture {
    /// The colour, whatever the coordinates.
    pub open spec fn spec_value(&self, u: Scalar, v: Scalar, p: Vec3) -> Vec3 {
        self.color
    }

    /// The colour, whatever the coordinates.
    #[verifier::when_used_as_spec(spec_value)]
    pub fn value(&self, u: Scalar, v: Scalar, p: Vec3) -> (c: Vec3)
        ensures
            c == self.spec_value(u, v, p),
    {
        self.color
    }
}

impl NoiseTexture {
    /// The colour, whatever the coordinates.
    pub open spec fn spec_value(&self, u: Scalar, v: Scalar, p: Vec3) -> Vec3 {
        Vec3::splat(
            Scalar::ratio(1, 2).times(
                Scalar::one().plus(
                    sin(self.scale.times(p.z).plus(Scalar::from_int(10).times(self.perlin.turb(p)))),
                ),
            ),
        )
    }

    /// The grey `(1 + sin(scale z + 10 turb(p))) / 2`.
    #[verifier::when_used_as_spec(spec_value)]
    pub fn value(&self, u: Scalar, v: Scalar, p: Vec3) -> (c: Vec3)
        ensures
            c == self.spec_value(u, v, p),
    {
        Vec3::splat(
            Scalar::ratio(1, 2).times(
                Scalar::one().plus(
                    sin(self.scale.times(p.z).plus(Scalar::from_int(10).times(self.perlin.turb(p)))),
                ),
            ),
        )
    }
}

impl ImageTexture {
    #[verifier::type_invariant]
    spec fn well_formed(&self) -> bool {
        &&& self.width > 0
        &&& self.height > 0
        &&& self.pixels@.len() == 3 * (self.width * self.height)
    }

    /// The bytes of the image: three per pixel, rows from the top.
    pub closed spec fn pixels(&self) -> Seq<u8> {
        self.pixels@
    }

    /// The number of pixels in a row.
    pub closed spec fn width(&self) -> usize {
        self.width
    }

    /// The number of rows.
    pub closed spec fn height(&self) -> usize {
        self.height
    }

    /// Whether `len` bytes are exactly an image of `width` by `height` pixels
    /// with at least one pixel.
    pub open spec fn fits(len: nat, width: usize, height: usize) -> bool {
        width > 0 && height > 0 && len == 3 * (width * height)
    }

    /// An image from its bytes and its size. The bytes must be three per
    /// pixel and the image must not be empty; otherwise there is no image.
    pub fn new(pixels: Vec<u8>, width: usize, height: usize) -> (r: Option<ImageTexture>)
        ensures
            r.is_some() <==> Self::fits(pixels@.len(), width, height),
            r matches Some(image) ==> image.pixels() == pixels@ && image.width() == width
                && image.height() == height,
    {
        if width == 0 || height == 0 {
            return None;
        }
        let len = pixels.len();
        let area = match width.checked_mul(height) {
            Some(a) => a,
            None => {
                return None;
            },
        };
        let bytes = match area.checked_mul(3) {
            Some(b) => b,
            None => {
                return None;
            },
        };
        if len != bytes {
            return None;
        }
        Some(ImageTexture { pixels, width, height })
    }

    /// The colour of the pixel in column `i` of row `j`.
    pub open spec fn texel(&self, i: usize, j: usize) -> Vec3 {
        let at = 3 * (i + self.width() * j);
        Vec3 {
            x: spec_channel(self.pixels()[at]),
            y: spec_channel(self.pixels()[at + 1]),
            z: spec_channel(self.pixels()[at + 2]),
        }
    }

    /// The colour, whatever the coordinates.
    pub open spec fn spec_value(&self, u: Scalar, v: Scalar, p: Vec3) -> Vec3 {
        self.texel(
            spec_texel_index(u, self.width()),
            spec_texel_index(Scalar::one().minus(v), self.height()),
        )
    }

    /// The colour of the pixel under `(u, v)`: `u` runs along the rows from
    /// the left, `v` up the columns from the bottom row.
    #[verifier::when_used_as_spec(spec_value)]
    pub fn value(&self, u: Scalar, v: Scalar, p: Vec3) -> (c: Vec3)
        ensures
            c == self.spec_value(u, v, p),
    {
        proof {
            use_type_invariant(self);
        }
        let i = texel_index(u, self.width);
        let j = texel_index(Scalar::one().minus(v), self.height);
        assert(self.pixels@.len() == self.pixels.len());
        assert(0 <= self.width * j && i + self.width * j < self.width * self.height)
            by (nonlinear_arith)
            requires
                i < self.width,
                j < self.height,
        ;
        let at = 3 * (i + self.width * j);
        Vec3 {
            x: Scalar::from_int(self.pixels[at] as i32).over(Scalar::from_int(255)),
            y: Scalar::from_int(self.pixels[at + 1] as i32).over(Scalar::from_int(255)),
            z: Scalar::from_int(self.pixels[at + 2] as i32).over(Scalar::from_int(255)),
        }
    }
}

impl CheckerTexture {
    /// The colour, whatever the coordinates.
    pub open spec fn spec_value(&self, u: Scalar, v: Scalar, p: Vec3) -> Vec3
        decreases self,
    {
        if checker_phase(p)@ < 0 {
            self.odd.spec_value(u, v, p)
        } else {
            self.even.spec_value(u, v, p)
        }
    }

    /// The colour of whichever of the two textures shows at `p`.
    #[verifier::when_used_as_spec(spec_value)]
    pub fn value(&self, u: Scalar, v: Scalar, p: Vec3) -> (c: Vec3)
        ensures
            c == self.spec_value(u, v, p),
        decreases self,
    {
        if checker_phase(p).raw < 0 {
            self.odd.value(u, v, p)
        } else {
            self.even.value(u, v, p)
        }
    }
}

impl Texture {
    /// The colour, whatever the coordinates.
    pub open spec fn spec_value(&self, u: Scalar, v: Scalar, p: Vec3) -> Vec3
        decreases self,
    {
        match self {
            Texture::Constant(t) => t.spec_value(u, v, p),
            Texture::Checker(t) => t.spec_value(u, v, p),
            Texture::Noise(t) => t.spec_value(u, v, p),
            Texture::Image(t) => t.spec_value(u, v, p),
        }
    }

    /// The colour at surface coordinates `(u, v)` and point `p`.
    #[verifier::when_used_as_spec(spec_value)]
    pub fn value(&self, u: Scalar, v: Scalar, p: Vec3) -> (c: Vec3)
        ensures
            c == self.spec_value(u, v, p),
        decreases self,
    {
        match self {
            Texture::Constant(t) => t.value(u, v, p),
            Texture::Checker(t) => t.value(u, v, p),
            Texture::Noise(t) => t.value(u, v, p),
            Texture::Image(t) => t.value(u, v, p),
        }
    }

    /// A texture of one colour.
    pub fn constant(color: Vec3) -> (t: Texture)
        ensures
            t == Texture::Constant(ConstantTexture { color }),
    {
        Texture::Constant(ConstantTexture { color })
    }

    /// A checker of two textures.
    pub fn checker(odd: Texture, even: Texture) -> (t: Texture)
        ensures
            t == Texture::Checker(Box::new(CheckerTexture { odd, even })),
    {
        Texture::Checker(Box::new(CheckerTexture { odd, even }))
    }
}

} // verus!
