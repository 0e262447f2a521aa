//! Parametric rays.

use crate::scalar::Scalar;
use crate::vec3::Vec3;
use vstd::prelude::*;

verus! {

/// The half-line `origin + t * direction`, travelled at one instant `time` of
/// the shutter interval. The direction need not have unit length.
#[derive(Clone, Copy, Debug, PartialEq, Eq, Structural)]
pub struct Ray {
    pub origin: Vec3,
    pub direction: Vec3,
    pub time: Scalar,
}

impl Ray {
    /// The point reached at parameter `t`.
    pub open spec fn spec_point_at_parameter(&self, t: Scalar) -> Vec3 {
        self.origin.plus(self.direction.scale(t))
    }

    /// The point reached at parameter `t`.
    #[verifier::when_used_as_spec(spec_point_at_parameter)]
    pub fn point_at_parameter(&self, t: Scalar) -> (p: Vec3)
        ensures
            p == self.spec_point_at_parameter(t),
    {
        self.origin.plus(self.direction.scale(t))
    }
}

} // verus!
