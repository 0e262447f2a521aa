//! The emissive material.

use crate::scalar::Scalar;
use crate::texture::Texture;
use crate::vec3::Vec3;
use vstd::prelude::*;

verus! {

/// A surface that emits the light given by the texture `emit` and scatters
/// nothing.
pub struct DiffuseLight {
    pub emit: Texture,
}

impl DiffuseLight {
    /// The emitted light: the value of the texture at `(u, v, p)`.
    pub open spec fn spec_emitted(&self, u: Scalar, v: Scalar, p: Vec3) -> Vec3 {
        self.emit.value(u, v, p)
    }

    /// The emitted light: the value of the texture at `(u, v, p)`.
    #[verifier::when_used_as_spec(spec_emitted)]
    pub fn emitted(&self, u: Scalar, v: Scalar, p: Vec3) -> (c: Vec3)
        ensures
            c == self.spec_emitted(u, v, p),
    {
        self.emit.value(u, v, p)
    }
}

} // verus!
