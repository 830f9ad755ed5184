//! The deterministic pseudo-random generator behind a mutation run.
//!
//! `Prng` wraps `rand::rngs::StdRng`, seeded from a single 64-bit
//! integer.  The generator's whole output stream is a pure function of
//! that seed, so every draw's outcome is a function of the seed and of
//! the history of draws made before it.  The history is mirrored in a
//! ghost sequence: `true` marks a ratio draw, `false` a byte draw.  The
//! two uninterpreted functions `coin_at` and `byte_at` name the outcome
//! of the next draw after a given history; nothing further is assumed
//! about their values.

use vstd::prelude::*;
use rand::Rng;
use rand::SeedableRng;

verus! {

#[verifier::external_type_specification]
#[verifier::external_body]
pub struct ExStdRng(rand::rngs::StdRng);

/// The outcome of a ratio draw with weight `num` in `den`, made from a
/// generator seeded with `seed` after the draws in `history`.
pub uninterp spec fn coin_at(seed: u64, history: Seq<bool>, num: u32, den: u32) -> bool;

/// The byte a full-range byte draw yields, made from a generator seeded
/// with `seed` after the draws in `history`.
pub uninterp spec fn byte_at(seed: u64, history: Seq<bool>) -> u8;

/// Relies on `rand::SeedableRng::seed_from_u64` for `StdRng`: it
/// builds the generator deterministically from the 64-bit seed alone,
/// so equal seeds give equal draw streams; the outcome of each later
/// draw is therefore a function of the seed and the draws before it,
/// which is what `coin_at` and `byte_at` name.
#[verifier::external_body]
fn seed_std_rng(seed: u64) -> rand::rngs::StdRng {
    rand::rngs::StdRng::seed_from_u64(seed)
}

/// A seeded generator together with the ghost history of its draws.
pub struct Prng {
    inner: rand::rngs::StdRng,
    seed: Ghost<u64>,
    history: Ghost<Seq<bool>>,
}

impl Prng {
    /// The seed this generator was created from.
    pub closed spec fn seed(self) -> u64 {
        self.seed@
    }

    /// The draws made from this generator so far, in order: `true` for
    /// a ratio draw, `false` for a byte draw.
    pub closed spec fn history(self) -> Seq<bool> {
        self.history@
    }

    /// Builds a fresh generator from a 64-bit seed; no draws have been
    /// made from it yet.
    pub fn new(seed: u64) -> (p: Prng)
        ensures
            p.seed() == seed,
            p.history() == Seq::<bool>::empty(),
    {
        Prng { inner: seed_std_rng(seed), seed: Ghost(seed), history: Ghost(Seq::empty()) }
    }

    /// Relies on `rand::Rng::gen_ratio`: with `num < den` it draws one
    /// 64-bit word from the generator and returns `true` with
    /// probability `num / den`, so the outcome is a function of the
    /// seed and of the draws made before it.
    #[verifier::external_body]
    pub(crate) fn coin(&mut self, num: u32, den: u32) -> (r: bool)
        requires
            num < den,
        ensures
            final(self).seed() == old(self).seed(),
            final(self).history() == old(self).history().push(true),
            r == coin_at(old(self).seed(), old(self).history(), num, den),
    {
        self.inner.gen_ratio(num, den)
    }

    /// Relies on `rand::Rng::gen_range` over the full byte range: it
    /// draws one 32-bit word from the generator and returns a uniformly
    /// distributed byte, a function of the seed and of the draws made
    /// before it.
    #[verifier::external_body]
    pub(crate) fn byte(&mut self) -> (r: u8)
        ensures
            final(self).seed() == old(self).seed(),
            final(self).history() == old(self).history().push(false),
            r == byte_at(old(self).seed(), old(self).history()),
    {
        self.inner.gen_range(u8::MIN..=u8::MAX)
    }
}

} // verus!
