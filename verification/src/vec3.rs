//! Three-component vectors over fixed-point scalars. The same type serves as
//! point, direction and colour.

use crate::random::{lemma_follows_adds, unit_of_word, Sampler};
use crate::scalar::Scalar;
use vstd::prelude::*;

verus! {

/// A vector with components `x`, `y`, `z`.
#[derive(Clone, Copy, Debug, PartialEq, Eq, Structural)]
pub struct Vec3 {
    pub x: Scalar,
    pub y: Scalar,
    pub z: Scalar,
}

impl Vec3 {
    /// The vector with the given components.
    pub open spec fn spec_new(x: Scalar, y: Scalar, z: Scalar) -> Vec3 {
        Vec3 { x, y, z }
    }

    /// The vector whose three components all equal `xyz`.
    pub open spec fn spec_splat(xyz: Scalar) -> Vec3 {
        Vec3 { x: xyz, y: xyz, z: xyz }
    }

    /// Component `idx`, counting `x`, `y`, `z` from zero.
    pub open spec fn spec_get(&self, idx: usize) -> Scalar {
        if idx == 0 {
            self.x
        } else if idx == 1 {
            self.y
        } else {
            self.z
        }
    }

    /// The vector with component `idx` replaced by `value`.
    pub open spec fn spec_with(self, idx: usize, value: Scalar) -> Vec3 {
        if idx == 0 {
            Vec3 { x: value, ..self }
        } else if idx == 1 {
            Vec3 { y: value, ..self }
        } else {
            Vec3 { z: value, ..self }
        }
    }

    /// Component-wise sum.
    pub open spec fn spec_plus(self, rhs: Vec3) -> Vec3 {
        Vec3 { x: self.x.plus(rhs.x), y: self.y.plus(rhs.y), z: self.z.plus(rhs.z) }
    }

    /// Component-wise difference.
    pub open spec fn spec_minus(self, rhs: Vec3) -> Vec3 {
        Vec3 { x: self.x.minus(rhs.x), y: self.y.minus(rhs.y), z: self.z.minus(rhs.z) }
    }

    /// Component-wise product.
    pub open spec fn spec_times(self, rhs: Vec3) -> Vec3 {
        Vec3 { x: self.x.times(rhs.x), y: self.y.times(rhs.y), z: self.z.times(rhs.z) }
    }

    /// Component-wise quotient.
    pub open spec fn spec_over(self, rhs: Vec3) -> Vec3 {
        Vec3 { x: self.x.over(rhs.x), y: self.y.over(rhs.y), z: self.z.over(rhs.z) }
    }

    /// Every component multiplied by `k`.
    pub open spec fn spec_scale(self, k: Scalar) -> Vec3 {
        Vec3 { x: self.x.times(k), y: self.y.times(k), z: self.z.times(k) }
    }

    /// Every component divided by `k`.
    pub open spec fn spec_shrink(self, k: Scalar) -> Vec3 {
        Vec3 { x: self.x.over(k), y: self.y.over(k), z: self.z.over(k) }
    }

    /// Every component negated.
    pub open spec fn spec_negate(self) -> Vec3 {
        Vec3 { x: self.x.negate(), y: self.y.negate(), z: self.z.negate() }
    }

    /// Component-wise minimum.
    pub open spec fn spec_min(self, rhs: Vec3) -> Vec3 {
        Vec3 { x: self.x.min(rhs.x), y: self.y.min(rhs.y), z: self.z.min(rhs.z) }
    }

    /// Component-wise maximum.
    pub open spec fn spec_max(self, rhs: Vec3) -> Vec3 {
        Vec3 { x: self.x.max(rhs.x), y: self.y.max(rhs.y), z: self.z.max(rhs.z) }
    }

    /// The dot product.
    pub open spec fn spec_dot(self, other: Vec3) -> Scalar {
        self.x.times(other.x).plus(self.y.times(other.y)).plus(self.z.times(other.z))
    }

    /// The cross product.
    pub open spec fn spec_cross(self, other: Vec3) -> Vec3 {
        Vec3 {
            x: self.y.times(other.z).minus(self.z.times(other.y)),
            y: self.z.times(other.x).minus(self.x.times(other.z)),
            z: self.x.times(other.y).minus(self.y.times(other.x)),
        }
    }

    /// The dot product of the vector with itself.
    pub open spec fn spec_squared_len(&self) -> Scalar {
        self.spec_dot(*self)
    }

    /// The Euclidean length: the square root of `squared_len`.
    pub open spec fn spec_len(&self) -> Scalar {
        self.spec_squared_len().sqrt()
    }

    /// The vector divided by its length. A vector of length zero has no
    /// direction; its components then saturate as division by zero does.
    pub open spec fn spec_unit(self) -> Vec3 {
        self.spec_shrink(self.spec_len())
    }

    /// The component-wise square root.
    pub open spec fn spec_sqrt(self) -> Vec3 {
        Vec3 { x: self.x.sqrt(), y: self.y.sqrt(), z: self.z.sqrt() }
    }

    /// Every component lies in `[0, 1)`.
    pub open spec fn in_unit_cube(self) -> bool {
        &&& 0 <= self.x@ < 65536
        &&& 0 <= self.y@ < 65536
        &&& 0 <= self.z@ < 65536
    }

    /// The vector with the given components.
    #[verifier::when_used_as_spec(spec_new)]
    pub fn new(x: Scalar, y: Scalar, z: Scalar) -> (v: Vec3)
        ensures
            v == Self::spec_new(x, y, z),
    {
        Vec3 { x, y, z }
    }

    /// The vector whose three components all equal `xyz`.
    #[verifier::when_used_as_spec(spec_splat)]
    pub fn splat(xyz: Scalar) -> (v: Vec3)
        ensures
            v == Self::spec_splat(xyz),
    {
        Vec3 { x: xyz, y: xyz, z: xyz }
    }

    /// The vector that the first three words of a stream stand for: they
    /// give `x`, `y` and `z` in this order.
    pub open spec fn drawn(words: spec_fn(nat) -> u32) -> Vec3 {
        Vec3 { x: unit_of_word(words(0)), y: unit_of_word(words(1)), z: unit_of_word(words(2)) }
    }

    /// A vector of three uniform draws from `[0, 1)`: what the next three
    /// words stand for, in the order `x`, `y`, `z`. The sampler moves on by
    /// three words.
    pub fn random(sampler: &mut Sampler) -> (v: Vec3)
        ensures
            v == Self::drawn(old(sampler).words()),
            final(sampler).follows(*old(sampler), 3),
            v.in_unit_cube(),
    {
        let ghost first = *sampler;
        let x = sampler.uniform();
        let ghost second = *sampler;
        let y = sampler.uniform();
        let ghost third = *sampler;
        let z = sampler.uniform();
        proof {
            lemma_follows_adds(third, second, first, 1, 1);
            lemma_follows_adds(*sampler, third, first, 2, 1);
        }
        Vec3 { x, y, z }
    }

    /// The first component.
    pub fn x(&self) -> (s: Scalar)
        ensures
            s == self.x,
    {
        self.x
    }

    /// The second component.
    pub fn y(&self) -> (s: Scalar)
        ensures
            s == self.y,
    {
        self.y
    }

    /// The third component.
    pub fn z(&self) -> (s: Scalar)
        ensures
            s == self.z,
    {
        self.z
    }

    /// The red channel of a colour: the first component.
    pub fn r(&self) -> (s: Scalar)
        ensures
            s == self.x,
    {
        self.x
    }

    /// The green channel of a colour: the second component.
    pub fn g(&self) -> (s: Scalar)
        ensures
            s == self.y,
    {
        self.y
    }

    /// The blue channel of a colour: the third component.
    pub fn b(&self) -> (s: Scalar)
        ensures
            s == self.z,
    {
        self.z
    }

    /// Replaces component `idx` by `value` and leaves the other two.
    pub fn set(&mut self, idx: usize, value: Scalar)
        requires
            idx < 3,
        ensures
            *final(self) == old(self).spec_with(idx, value),
    {
        if idx == 0 {
            self.x = value;
        } else if idx == 1 {
            self.y = value;
        } else {
            self.z = value;
        }
    }

    /// Component `idx`, counting `x`, `y`, `z` from zero.
    #[verifier::when_used_as_spec(spec_get)]
    pub fn get(&self, idx: usize) -> (s: Scalar)
        requires
            idx < 3,
        ensures
            s == self.spec_get(idx),
    {
        if idx == 0 {
            self.x
        } else if idx == 1 {
            self.y
        } else {
            self.z
        }
    }

    /// The Euclidean length: the square root of `squared_len`.
    #[verifier::when_used_as_spec(spec_len)]
    pub fn len(&self) -> (s: Scalar)
        ensures
            s == self.spec_len(),
    {
        self.squared_len().sqrt()
    }

    /// The dot product of the vector with itself.
    #[verifier::when_used_as_spec(spec_squared_len)]
    pub fn squared_len(&self) -> (s: Scalar)
        ensures
            s == self.spec_squared_len(),
    {
        self.dot(*self)
    }

    /// The vector divided by its length. A vector of length zero has no
    /// direction; its components then saturate as division by zero does.
    #[verifier::when_used_as_spec(spec_unit)]
    pub fn unit(self) -> (v: Vec3)
        ensures
            v == self.spec_unit(),
    {
        self.shrink(self.len())
    }

    /// The component-wise square root.
    #[verifier::when_used_as_spec(spec_sqrt)]
    pub fn sqrt(self) -> (v: Vec3)
        ensures
            v == self.spec_sqrt(),
    {
        Vec3 { x: self.x.sqrt(), y: self.y.sqrt(), z: self.z.sqrt() }
    }

    /// The dot product.
    #[verifier::when_used_as_spec(spec_dot)]
    pub fn dot(self, other: Vec3) -> (s: Scalar)
        ensures
            s == self.spec_dot(other),
    {
        self.x.times(other.x).plus(self.y.times(other.y)).plus(self.z.times(other.z))
    }

    /// The cross product.
    #[verifier::when_used_as_spec(spec_cross)]
    pub fn cross(self, other: Vec3) -> (v: Vec3)
        ensures
            v == self.spec_cross(other),
    {
        Vec3 {
            x: self.y.times(other.z).minus(self.z.times(other.y)),
            y: self.z.times(other.x).minus(self.x.times(other.z)),
            z: self.x.times(other.y).minus(self.y.times(other.x)),
        }
    }

    /// Component-wise sum.
    #[verifier::when_used_as_spec(spec_plus)]
    pub fn plus(self, rhs: Vec3) -> (v: Vec3)
        ensures
            v == self.spec_plus(rhs),
    {
        Vec3 { x: self.x.plus(rhs.x), y: self.y.plus(rhs.y), z: self.z.plus(rhs.z) }
    }

    /// Component-wise difference.
    #[verifier::when_used_as_spec(spec_minus)]
    pub fn minus(self, rhs: Vec3) -> (v: Vec3)
        ensures
            v == self.spec_minus(rhs),
    {
        Vec3 { x: self.x.minus(rhs.x), y: self.y.minus(rhs.y), z: self.z.minus(rhs.z) }
    }

    /// Component-wise product.
    #[verifier::when_used_as_spec(spec_times)]
    pub fn times(self, rhs: Vec3) -> (v: Vec3)
        ensures
            v == self.spec_times(rhs),
    {
        Vec3 { x: self.x.times(rhs.x), y: self.y.times(rhs.y), z: self.z.times(rhs.z) }
    }

    /// Component-wise quotient.
    #[verifier::when_used_as_spec(spec_over)]
    pub fn over(self, rhs: Vec3) -> (v: Vec3)
        ensures
            v == self.spec_over(rhs),
    {
        Vec3 { x: self.x.over(rhs.x), y: self.y.over(rhs.y), z: self.z.over(rhs.z) }
    }

    /// Every component multiplied by `k`.
    #[verifier::when_used_as_spec(spec_scale)]
    pub fn scale(self, k: Scalar) -> (v: Vec3)
        ensures
            v == self.spec_scale(k),
    {
        Vec3 { x: self.x.times(k), y: self.y.times(k), z: self.z.times(k) }
    }

    /// Every component divided by `k`.
    #[verifier::when_used_as_spec(spec_shrink)]
    pub fn shrink(self, k: Scalar) -> (v: Vec3)
        ensures
            v == self.spec_shrink(k),
    {
        Vec3 { x: self.x.over(k), y: self.y.over(k), z: self.z.over(k) }
    }

    /// Every component negated.
    #[verifier::when_used_as_spec(spec_negate)]
    pub fn negate(self) -> (v: Vec3)
        ensures
            v == self.spec_negate(),
    {
        Vec3 { x: self.x.negate(), y: self.y.negate(), z: self.z.negate() }
    }

    /// Component-wise minimum.
    #[verifier::when_used_as_spec(spec_min)]
    pub fn min(self, rhs: Vec3) -> (v: Vec3)
        ensures
            v == self.spec_min(rhs),
    {
        Vec3 { x: self.x.min(rhs.x), y: self.y.min(rhs.y), z: self.z.min(rhs.z) }
    }

    /// Component-wise maximum.
    #[verifier::when_used_as_spec(spec_max)]
    pub fn max(self, rhs: Vec3) -> (v: Vec3)
        ensures
            v == self.spec_max(rhs),
    {
        Vec3 { x: self.x.max(rhs.x), y: self.y.max(rhs.y), z: self.z.max(rhs.z) }
    }
}

impl core::ops::Add for Vec3 {
    type Output = Vec3;

    fn add(self, rhs: Vec3) -> (r: Vec3) {
        self.plus(rhs)
    }
}

impl vstd::std_specs::ops::AddSpecImpl for Vec3 {
    open spec fn obeys_add_spec() -> bool {
        true
    }

    open spec fn add_req(self, rhs: Vec3) -> bool {
        true
    }

    open spec fn add_spec(self, rhs: Vec3) -> Vec3 {
        self.spec_plus(rhs)
    }
}

impl core::ops::Sub for Vec3 {
    type Output = Vec3;

    fn sub(self, rhs: Vec3) -> (r: Vec3) {
        self.minus(rhs)
    }
}

impl vstd::std_specs::ops::SubSpecImpl for Vec3 {
    open spec fn obeys_sub_spec() -> bool {
        true
    }

    open spec fn sub_req(self, rhs: Vec3) -> bool {
        true
    }

    open spec fn sub_spec(self, rhs: Vec3) -> Vec3 {
        self.spec_minus(rhs)
    }
}

impl core::ops::Mul for Vec3 {
    type Output = Vec3;

    fn mul(self, rhs: Vec3) -> (r: Vec3) {
        self.times(rhs)
    }
}

impl vstd::std_specs::ops::MulSpecImpl for Vec3 {
    open spec fn obeys_mul_spec() -> bool {
        true
    }

    open spec fn mul_req(self, rhs: Vec3) -> bool {
        true
    }

    open spec fn mul_spec(self, rhs: Vec3) -> Vec3 {
        self.spec_times(rhs)
    }
}

impl core::ops::Mul<Scalar> for Vec3 {
    type Output = Vec3;

    fn mul(self, rhs: Scalar) -> (r: Vec3) {
        self.scale(rhs)
    }
}

impl vstd::std_specs::ops::MulSpecImpl<Scalar> for Vec3 {
    open spec fn obeys_mul_spec() -> bool {
        true
    }

    open spec fn mul_req(self, rhs: Scalar) -> bool {
        true
    }

    open spec fn mul_spec(self, rhs: Scalar) -> Vec3 {
        self.spec_scale(rhs)
    }
}

impl core::ops::Mul<Vec3> for Scalar {
    type Output = Vec3;

    fn mul(self, rhs: Vec3) -> (r: Vec3) {
        rhs.scale(self)
    }
}

impl vstd::std_specs::ops::MulSpecImpl<Vec3> for Scalar {
    open spec fn obeys_mul_spec() -> bool {
        true
    }

    open spec fn mul_req(self, rhs: Vec3) -> bool {
        true
    }

    open spec fn mul_spec(self, rhs: Vec3) -> Vec3 {
        rhs.spec_scale(self)
    }
}

impl core::ops::Div for Vec3 {
    type Output = Vec3;

    fn div(self, rhs: Vec3) -> (r: Vec3) {
        self.over(rhs)
    }
}

impl vstd::std_specs::ops::DivSpecImpl for Vec3 {
    open spec fn obeys_div_spec() -> bool {
        true
    }

    open spec fn div_req(self, rhs: Vec3) -> bool {
        true
    }

    open spec fn div_spec(self, rhs: Vec3) -> Vec3 {
        self.spec_over(rhs)
    }
}

impl core::ops::Div<Scalar> for Vec3 {
    type Output = Vec3;

    fn div(self, rhs: Scalar) -> (r: Vec3) {
        self.shrink(rhs)
    }
}

impl vstd::std_specs::ops::DivSpecImpl<Scalar> for Vec3 {
    open spec fn obeys_div_spec() -> bool {
        true
    }

    open spec fn div_req(self, rhs: Scalar) -> bool {
        true
    }

    open spec fn div_spec(self, rhs: Scalar) -> Vec3 {
        self.spec_shrink(rhs)
    }
}

impl core::ops::Neg for Vec3 {
    type Output = Vec3;

    fn neg(self) -> (r: Vec3) {
        self.negate()
    }
}

impl vstd::std_specs::ops::NegSpecImpl for Vec3 {
    open spec fn obeys_neg_spec() -> bool {
        true
    }

    open spec fn neg_req(self) -> bool {
        true
    }

    open spec fn neg_spec(self) -> Vec3 {
        self.spec_negate()
    }
}

} // verus!
