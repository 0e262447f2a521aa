//! The source of random draws that every sampling routine takes explicitly.
//!
//! A sampler is a deterministic generator: the words that it will give are
//! fixed once it is seeded. The contracts speak of them through
//! [`Sampler::words`], so that whatever draws can say exactly which words it
//! used, what it made of them, and which words are left.

use crate::scalar::Scalar;
use rand::rngs::StdRng;
use rand::RngCore;
use rand::SeedableRng;
use vstd::prelude::*;

verus! {

/// `rand::rngs::StdRng`, the seedable generator behind every sampler. It is
/// carried through as an opaque value.
#[verifier::external_type_specification]
#[verifier::external_body]
pub struct ExStdRng(StdRng);

/// What a generator holds in store: the word that `next_u32` gives at call
/// `index` from now, counting the next call as 0. The generator is a
/// deterministic algorithm, so its state fixes every word to come.
pub uninterp spec fn upcoming(generator: StdRng, index: nat) -> u32;

/// Word `index` of the stream that `StdRng::seed_from_u64` starts from
/// `seed`.
pub uninterp spec fn seeded_word(seed: u64, index: nat) -> u32;

/// `StdRng::seed_from_u64`: the generator whose words to come are those of
/// the stream of `seed`. The seed is expanded to a key by fixed arithmetic,
/// so equal seeds start equal streams.
#[verifier::external_body]
fn generator_from_seed(seed: u64) -> (generator: StdRng)
    ensures
        forall|i: nat| #[trigger] upcoming(generator, i) == seeded_word(seed, i),
{
    StdRng::seed_from_u64(seed)
}

/// `RngCore::next_u32` on `StdRng`: gives the first of the words to come and
/// leaves the generator with the rest of them.
#[verifier::external_body]
fn generator_next(generator: &mut StdRng) -> (w: u32)
    ensures
        w == upcoming(*old(generator), 0),
        forall|i: nat| #[trigger] upcoming(*final(generator), i) == upcoming(*old(generator), i + 1),
{
    generator.next_u32()
}

/// A stream of random draws. One sampler belongs to one worker; seeding two
/// samplers alike makes them give the same draws.
pub struct Sampler {
    generator: StdRng,
}

/// The value in `[0, 1)` that a word stands for: its upper 16 bits, as raw
/// units.
pub open spec fn spec_unit_of_word(w: u32) -> Scalar {
    Scalar { raw: (w / 65536) as i64 }
}

/// The value in `[0, 1)` that a word stands for: its upper 16 bits, as raw
/// units.
#[verifier::when_used_as_spec(spec_unit_of_word)]
pub fn unit_of_word(w: u32) -> (u: Scalar)
    ensures
        u == spec_unit_of_word(w),
        0 <= u@ < 65536,
{
    Scalar { raw: (w / 65536) as i64 }
}

/// The index below `n` that a word stands for: its remainder by `n`; zero
/// when `n` is zero.
pub open spec fn spec_index_of_word(w: u32, n: u32) -> u32 {
    if n == 0 {
        0
    } else {
        w % n
    }
}

/// The index below `n` that a word stands for: its remainder by `n`; zero
/// when `n` is zero.
#[verifier::when_used_as_spec(spec_index_of_word)]
pub fn index_of_word(w: u32, n: u32) -> (i: u32)
    ensures
        i == spec_index_of_word(w, n),
        n > 0 ==> i < n,
        n == 0 ==> i == 0,
{
    if n == 0 {
        0
    } else {
        w % n
    }
}

/// The words of a stream from word `count` on.
pub open spec fn skip(words: spec_fn(nat) -> u32, count: nat) -> spec_fn(nat) -> u32 {
    |i: nat| words(i + count)
}

/// The stream that a seed starts.
pub open spec fn seeded_words(seed: u64) -> spec_fn(nat) -> u32 {
    |i: nat| seeded_word(seed, i)
}

/// Skipping twice skips the sum.
pub proof fn lemma_skip_adds(words: spec_fn(nat) -> u32, a: nat, b: nat)
    ensures
        skip(skip(words, a), b) == skip(words, a + b),
{
    assert(skip(skip(words, a), b) =~= skip(words, a + b));
}

/// Skipping nothing leaves the stream as it is.
pub proof fn lemma_skip_none(words: spec_fn(nat) -> u32)
    ensures
        skip(words, 0) == words,
{
    assert(skip(words, 0) =~= words);
}

impl Sampler {
    /// The words that the sampler will give: word 0 at the next draw.
    pub closed spec fn words(&self) -> spec_fn(nat) -> u32 {
        |i: nat| upcoming(self.generator, i)
    }

    /// The word that the sampler gives at draw `index` from now, counting the
    /// next draw as 0.
    pub open spec fn upcoming(&self, index: nat) -> u32 {
        self.words()(index)
    }

    /// The sampler is `earlier` after `count` words were drawn from it: what
    /// it will give is what `earlier` would have given from word `count` on.
    pub open spec fn follows(&self, earlier: Sampler, count: nat) -> bool {
        self.words() == skip(earlier.words(), count)
    }

    /// A sampler whose draws are determined by `seed`: word for word the
    /// stream of that seed.
    pub fn seeded(seed: u64) -> (s: Sampler)
        ensures
            s.words() == seeded_words(seed),
    {
        let s = Sampler { generator: generator_from_seed(seed) };
        assert(s.words() =~= seeded_words(seed));
        s
    }

    /// The next word of the stream; the sampler moves on by one word.
    pub fn word(&mut self) -> (w: u32)
        ensures
            w == old(self).upcoming(0),
            final(self).follows(*old(self), 1),
    {
        let w = generator_next(&mut self.generator);
        assert(self.words() =~= skip(old(self).words(), 1));
        w
    }

    /// A value drawn uniformly from the 65536 representable values in
    /// `[0, 1)`: what the next word stands for. The sampler moves on by one
    /// word.
    pub fn uniform(&mut self) -> (u: Scalar)
        ensures
            u == unit_of_word(old(self).upcoming(0)),
            final(self).follows(*old(self), 1),
            0 <= u@ < 65536,
    {
        let w: u32 = self.word();
        unit_of_word(w)
    }

    /// An index drawn from `0..n`, and zero when `n` is zero: what the next
    /// word stands for. The sampler moves on by one word, whatever `n`.
    pub fn below(&mut self, n: u32) -> (i: u32)
        ensures
            i == index_of_word(old(self).upcoming(0), n),
            final(self).follows(*old(self), 1),
            n > 0 ==> i < n,
            n == 0 ==> i == 0,
    {
        let w: u32 = self.word();
        index_of_word(w, n)
    }
}

/// A sampler that follows one that follows another follows that other, by
/// the words of both steps together.
pub proof fn lemma_follows_adds(last: Sampler, middle: Sampler, first: Sampler, a: nat, b: nat)
    requires
        middle.follows(first, a),
        last.follows(middle, b),
    ensures
        last.follows(first, a + b),
{
    lemma_skip_adds(first.words(), a, b);
}

} // verus!
