//! Gradient noise on the integer lattice.

use crate::random::{index_of_word, lemma_skip_adds, lemma_skip_none, skip, Sampler};
use crate::scalar::Scalar;
use crate::utils::centered;
use crate::vec3::Vec3;
use vstd::prelude::*;

verus! {

/// The number of gradients, and the period of the noise along each axis.
pub const POINT_COUNT: usize = 256;

/// The number of octaves that turbulence adds up.
pub const TURBULENCE_DEPTH: u32 = 7;

/// The tables of the noise: a gradient for each of 256 lattice classes, and
/// one permutation of the classes for each axis.
pub struct Perlin {
    ranvec: Vec<Vec3>,
    perm_x: Vec<u8>,
    perm_y: Vec<u8>,
    perm_z: Vec<u8>,
}

/// The table holds each of the 256 classes, hence each exactly once.
pub open spec fn is_permutation(table: Seq<u8>) -> bool {
    table.len() == 256 && forall|class: u8| #[trigger] table.contains(class)
}

/// The vector is a gradient that can be drawn: a point of the cube
/// `[-1, 1)^3`, scaled to unit length.
pub open spec fn is_gradient(g: Vec3) -> bool {
    exists|draw: Vec3| draw.in_unit_cube() && g == #[trigger] centered(draw).unit()
}

/// The lattice coordinate `i + d`, reduced to a class in `0..256`.
pub open spec fn spec_wrapped(i: i64, d: u8) -> usize {
    ((i + d) % 256) as usize
}

/// The lattice coordinate `i + d`, reduced to a class in `0..256`.
#[verifier::when_used_as_spec(spec_wrapped)]
pub fn wrapped(i: i64, d: u8) -> (r: usize)
    requires
        -0x4000_0000_0000_0000 < i < 0x4000_0000_0000_0000,
    ensures
        r == spec_wrapped(i, d),
        r < 256,
{
    let m: i64 = (i + d as i64) % 256;
    if m < 0 {
        (m + 256) as usize
    } else {
        m as usize
    }
}

/// The Hermite smoothing of a fraction: `t^2 (3 - 2 t)`.
pub open spec fn spec_smooth(t: Scalar) -> Scalar {
    t.times(t).times(Scalar::from_int(3).minus(Scalar::from_int(2).times(t)))
}

/// The Hermite smoothing of a fraction: `t^2 (3 - 2 t)`.
#[verifier::when_used_as_spec(spec_smooth)]
pub fn smooth(t: Scalar) -> (r: Scalar)
    ensures
        r == spec_smooth(t),
{
    t.times(t).times(Scalar::from_int(3).minus(Scalar::from_int(2).times(t)))
}

/// The weight of the lattice plane at offset `d` for the smoothed fraction
/// `tt`: `tt` for the far plane, `1 - tt` for the near one.
pub open spec fn spec_blend(d: u8, tt: Scalar) -> Scalar {
    if d == 1 {
        tt
    } else {
        Scalar::one().minus(tt)
    }
}

/// The weight of the lattice plane at offset `d` for the smoothed fraction
/// `tt`: `tt` for the far plane, `1 - tt` for the near one.
#[verifier::when_used_as_spec(spec_blend)]
pub fn blend(d: u8, tt: Scalar) -> (r: Scalar)
    ensures
        r == spec_blend(d, tt),
{
    if d == 1 {
        tt
    } else {
        Scalar::one().minus(tt)
    }
}

/// A table of the 256 classes in order.
fn identity_table() -> (table: Vec<u8>)
    ensures
        table@.len() == 256,
        forall|i: int| 0 <= i < 256 ==> table@[i] == i,
{
    let mut table: Vec<u8> = Vec::new();
    let mut i: usize = 0;
    while i < 256
        invariant
            i <= 256,
            table@.len() == i,
            forall|j: int| 0 <= j < i ==> table@[j] == j,
        decreases 256 - i,
    {
        table.push(i as u8);
        i = i + 1;
    }
    table
}

/// The table of the 256 classes in order.
pub open spec fn classes_in_order() -> Seq<u8> {
    Seq::new(256, |j: int| j as u8)
}

/// The table after the first `steps` exchanges of the shuffle that a stream
/// of words gives. The exchanges go from the last entry down: exchange
/// number `s` swaps the entry at `255 - s` with the one at the index below
/// `256 - s` that word `s` stands for.
pub open spec fn shuffled(steps: nat, words: spec_fn(nat) -> u32) -> Seq<u8>
    decreases steps,
{
    if steps == 0 || steps > 255 {
        classes_in_order()
    } else {
        let before = shuffled((steps - 1) as nat, words);
        let i = 256 - steps;
        let target = index_of_word(words((steps - 1) as nat), (i + 1) as u32) as int;
        before.update(i, before[target]).update(target, before[i])
    }
}

/// The gradients that a stream of words gives for the first `n` classes:
/// each takes three words for a point of the cube `[-1, 1)^3` and scales it
/// to unit length.
pub open spec fn gradients_of(n: nat, words: spec_fn(nat) -> u32) -> Seq<Vec3>
    decreases n,
{
    if n == 0 {
        Seq::empty()
    } else {
        gradients_of((n - 1) as nat, words).push(
            centered(Vec3::drawn(skip(words, 3 * (n - 1) as nat))).unit(),
        )
    }
}

/// A random permutation of the 256 classes: the table in order, shuffled by
/// exchanging each entry, from the last down, with one at or below it, as
/// [`shuffled`] says of the sampler's words. The sampler moves on by 255
/// words.
fn shuffled_table(sampler: &mut Sampler) -> (table: Vec<u8>)
    ensures
        table@ == shuffled(255, old(sampler).words()),
        final(sampler).follows(*old(sampler), 255),
        is_permutation(table@),
{
    let mut table = identity_table();
    proof {
        lemma_skip_none(old(sampler).words());
        assert(table@ =~= shuffled(0, old(sampler).words()));
    }
    assert(is_permutation(table@)) by {
        assert forall|class: u8| #[trigger] table@.contains(class) by {
            assert(table@[class as int] == class);
        }
    }
    let mut i: usize = 255;
    while i > 0
        invariant
            i < 256,
            is_permutation(table@),
            table@ == shuffled((255 - i) as nat, old(sampler).words()),
            sampler.follows(*old(sampler), (255 - i) as nat),
        decreases i,
    {
        let target = sampler.below((i + 1) as u32) as usize;
        let ghost before = table@;
        proof {
            lemma_skip_adds(old(sampler).words(), (255 - i) as nat, 1);
        }
        let x = table[i];
        let y = table[target];
        table[i] = y;
        table[target] = x;
        proof {
            assert forall|class: u8| #[trigger] table@.contains(class) by {
                assert(before.contains(class));
                let old_k = choose|k: int| 0 <= k < 256 && before[k] == class;
                if old_k == i as int {
                } else if old_k == target as int {
                    assert(table@[i as int] == class);
                } else {
                    assert(table@[old_k] == class);
                }
            }
        }
        i = i - 1;
    }
    table
}

impl Perlin {
    #[verifier::type_invariant]
    spec fn well_formed(&self) -> bool {
        &&& self.ranvec@.len() == 256
        &&& self.perm_x@.len() == 256
        &&& self.perm_y@.len() == 256
        &&& self.perm_z@.len() == 256
    }

    /// The gradients, one for each class.
    pub closed spec fn gradients(&self) -> Seq<Vec3> {
        self.ranvec@
    }

    /// The permutation of the classes along `x`.
    pub closed spec fn perm_x(&self) -> Seq<u8> {
        self.perm_x@
    }

    /// The permutation of the classes along `y`.
    pub closed spec fn perm_y(&self) -> Seq<u8> {
        self.perm_y@
    }

    /// The permutation of the classes along `z`.
    pub closed spec fn perm_z(&self) -> Seq<u8> {
        self.perm_z@
    }

    /// The tables are those that a stream of words gives: the 256 gradients
    /// are made of its first 768 words, and the permutations along `x`, `y`
    /// and `z` of the three runs of 255 words after those.
    pub open spec fn made_from(&self, words: spec_fn(nat) -> u32) -> bool {
        &&& self.gradients() == gradients_of(256, words)
        &&& self.perm_x() == shuffled(255, skip(words, 768))
        &&& self.perm_y() == shuffled(255, skip(words, 1023))
        &&& self.perm_z() == shuffled(255, skip(words, 1278))
    }

    /// Noise with random tables: each gradient is a point of the cube
    /// `[-1, 1)^3` scaled to unit length, and the classes are shuffled
    /// independently for each axis.
    pub fn new(sampler: &mut Sampler) -> (p: Perlin)
        ensures
            p.made_from(old(sampler).words()),
            final(sampler).follows(*old(sampler), 1533),
            p.gradients().len() == 256,
            forall|i: int| 0 <= i < 256 ==> is_gradient(#[trigger] p.gradients()[i]),
            is_permutation(p.perm_x()),
            is_permutation(p.perm_y()),
            is_permutation(p.perm_z()),
    {
        let ghost start = old(sampler).words();
        let mut ranvec: Vec<Vec3> = Vec::new();
        let mut i: usize = 0;
        proof {
            lemma_skip_none(start);
        }
        while i < 256
            invariant
                i <= 256,
                start == old(sampler).words(),
                ranvec@.len() == i,
                forall|j: int| 0 <= j < i ==> is_gradient(#[trigger] ranvec@[j]),
                ranvec@ == gradients_of(i as nat, start),
                sampler.words() == skip(start, 3 * i as nat),
            decreases 256 - i,
        {
            let draw = Vec3::random(sampler);
            proof {
                lemma_skip_adds(start, 3 * i as nat, 3);
            }
            ranvec.push(centered(draw).unit());
            i = i + 1;
        }
        let perm_x = shuffled_table(sampler);
        let perm_y = shuffled_table(sampler);
        let perm_z = shuffled_table(sampler);
        proof {
            lemma_skip_adds(start, 768, 255);
            lemma_skip_adds(start, 1023, 255);
            lemma_skip_adds(start, 1278, 255);
        }
        Perlin { ranvec, perm_x, perm_y, perm_z }
    }

    /// The gradient at the lattice point `(i + di, j + dj, k + dk)`: the
    /// three permuted classes are added up modulo 256.
    pub open spec fn spec_gradient_at(&self, i: i64, j: i64, k: i64, di: u8, dj: u8, dk: u8) -> Vec3 {
        self.gradients()[((self.perm_x()[spec_wrapped(i, di) as int] + self.perm_y()[spec_wrapped(
            j,
            dj,
        ) as int] + self.perm_z()[spec_wrapped(k, dk) as int]) % 256) as int]
    }

    /// The gradient at the lattice point `(i + di, j + dj, k + dk)`.
    pub fn gradient_at(&self, i: i64, j: i64, k: i64, di: u8, dj: u8, dk: u8) -> (g: Vec3)
        requires
            -0x4000_0000_0000_0000 < i < 0x4000_0000_0000_0000,
            -0x4000_0000_0000_0000 < j < 0x4000_0000_0000_0000,
            -0x4000_0000_0000_0000 < k < 0x4000_0000_0000_0000,
        ensures
            g == self.spec_gradient_at(i, j, k, di, dj, dk),
    {
        proof {
            use_type_invariant(self);
        }
        let a = self.perm_x[wrapped(i, di)] as usize;
        let b = self.perm_y[wrapped(j, dj)] as usize;
        let c = self.perm_z[wrapped(k, dk)] as usize;
        self.ranvec[(a + b + c) % 256]
    }

    /// The share of corner `n` of the lattice cell, counted from 0 to 7, in
    /// the noise at `p`: the dot product of the corner's gradient with the
    /// offset from the corner to `p`, weighted by the smoothed fractions.
    pub open spec fn spec_corner_term(&self, p: Vec3, n: u8) -> Scalar {
        let di = (n % 2) as u8;
        let dj = ((n / 2) % 2) as u8;
        let dk = ((n / 4) % 2) as u8;
        let u = p.x.modulo(Scalar::one());
        let v = p.y.modulo(Scalar::one());
        let w = p.z.modulo(Scalar::one());
        let weight = Vec3 {
            x: u.minus(Scalar::from_int(di as i32)),
            y: v.minus(Scalar::from_int(dj as i32)),
            z: w.minus(Scalar::from_int(dk as i32)),
        };
        spec_blend(di, spec_smooth(u)).times(spec_blend(dj, spec_smooth(v))).times(
            spec_blend(dk, spec_smooth(w)),
        ).times(
            self.spec_gradient_at(p.x.spec_floor() as i64, p.y.spec_floor() as i64, p.z.spec_floor() as i64, di, dj, dk).dot(
                weight,
            ),
        )
    }

    /// The share of corner `n` of the lattice cell in the noise at `p`.
    pub fn corner_term(&self, p: Vec3, n: u8) -> (t: Scalar)
        ensures
            t == self.spec_corner_term(p, n),
    {
        let di = n % 2;
        let dj = (n / 2) % 2;
        let dk = (n / 4) % 2;
        let u = p.x.modulo(Scalar::one());
        let v = p.y.modulo(Scalar::one());
        let w = p.z.modulo(Scalar::one());
        let weight = Vec3 {
            x: u.minus(Scalar::from_int(di as i32)),
            y: v.minus(Scalar::from_int(dj as i32)),
            z: w.minus(Scalar::from_int(dk as i32)),
        };
        let gradient = self.gradient_at(p.x.floor(), p.y.floor(), p.z.floor(), di, dj, dk);
        blend(di, smooth(u)).times(blend(dj, smooth(v))).times(blend(dk, smooth(w))).times(
            gradient.dot(weight),
        )
    }

    /// The sum of the shares of the first `n` corners.
    pub open spec fn corner_sum(&self, p: Vec3, n: nat) -> Scalar
        decreases n,
    {
        if n == 0 {
            Scalar::zero()
        } else {
            self.corner_sum(p, (n - 1) as nat).plus(self.spec_corner_term(p, (n - 1) as u8))
        }
    }

    /// The noise at `p`: the shares of the eight corners of the lattice cell
    /// around `p`, added up.
    pub open spec fn spec_noise(&self, p: Vec3) -> Scalar {
        self.corner_sum(p, 8)
    }

    /// The noise at `p`: the shares of the eight corners of the lattice cell
    /// around `p`, added up.
    #[verifier::when_used_as_spec(spec_noise)]
    pub fn noise(&self, p: Vec3) -> (r: Scalar)
        ensures
            r == self.spec_noise(p),
    {
        let mut accum = Scalar::zero();
        let mut n: u8 = 0;
        while n < 8
            invariant
                n <= 8,
                accum == self.corner_sum(p, n as nat),
            decreases 8 - n,
        {
            accum = accum.plus(self.corner_term(p, n));
            n = n + 1;
        }
        accum
    }

    /// The sum of the first `k` octaves of the noise at `p`: octave `i` is
    /// the noise at `2^i p`, weighted by `2^-i`.
    pub open spec fn octave_sum(&self, p: Vec3, k: nat) -> (Scalar, Vec3, Scalar)
        decreases k,
    {
        if k == 0 {
            (Scalar::zero(), p, Scalar::one())
        } else {
            let (accum, at, weight) = self.octave_sum(p, (k - 1) as nat);
            (
                accum.plus(weight.times(self.spec_noise(at))),
                at.scale(Scalar::from_int(2)),
                weight.times(Scalar::ratio(1, 2)),
            )
        }
    }

    /// The turbulence at `p`: the absolute value of seven octaves of noise
    /// added up.
    pub open spec fn spec_turb(&self, p: Vec3) -> Scalar {
        self.octave_sum(p, TURBULENCE_DEPTH as nat).0.abs()
    }

    /// The turbulence at `p`: the absolute value of seven octaves of noise
    /// added up.
    #[verifier::when_used_as_spec(spec_turb)]
    pub fn turb(&self, p: Vec3) -> (r: Scalar)
        ensures
            r == self.spec_turb(p),
    {
        let mut accum = Scalar::zero();
        let mut at = p;
        let mut weight = Scalar::one();
        let mut k: u32 = 0;
        while k < TURBULENCE_DEPTH
            invariant
                k <= TURBULENCE_DEPTH,
                (accum, at, weight) == self.octave_sum(p, k as nat),
            decreases TURBULENCE_DEPTH - k,
        {
            accum = accum.plus(weight.times(self.noise(at)));
            at = at.scale(Scalar::from_int(2));
            weight = weight.times(Scalar::ratio(1, 2));
            k = k + 1;
        }
        accum.abs()
    }
}

} // verus!
