//! The seeded pseudo-random source of the engine.

use rand::rngs::SmallRng;
use rand::RngCore;
use rand::SeedableRng;
use vstd::prelude::*;

verus! {

/// `rand::rngs::SmallRng`, taken as an opaque value.
#[verifier::external_type_specification]
#[verifier::external_body]
pub struct ExSmallRng(SmallRng);

/// What the generator `rng` holds: the value that it yields once `skip` more
/// values have been drawn from it. The generator is a xoshiro state; each value
/// and the state that follows are computed from the state alone.
pub uninterp spec fn upcoming(rng: SmallRng, skip: nat) -> u32;

/// The value that a generator made from `seed` yields once `index` values have
/// been drawn from it, on a target whose pointers have `pointer_bits` bits.
/// `rand` picks the algorithm of its small generator by that width and by
/// nothing else, and seeding reads nothing but the seed.
pub uninterp spec fn seeded_draw(seed: u64, index: nat, pointer_bits: u32) -> u32;

/// `SeedableRng::seed_from_u64` for `SmallRng`. Trusted: the values of the
/// generator it returns are those that `seeded_draw` names for `seed`, so two
/// generators made from one seed yield the same values. Nothing is claimed of
/// what these values are.
#[verifier::external_body]
fn seed_from_u64(seed: u64) -> (rng: SmallRng)
    ensures
        forall|i: nat| #[trigger] upcoming(rng, i) == seeded_draw(seed, i, usize::BITS),
{
    SmallRng::seed_from_u64(seed)
}

/// `RngCore::next_u32` for `SmallRng`. Trusted: the call returns the value that
/// the generator was to yield next and leaves the generator one value further
/// on; what it was to yield after that, it still is to yield. The call does not
/// panic: it is a handful of wrapping additions, shifts and rotations.
#[verifier::external_body]
fn next_u32(rng: &mut SmallRng) -> (value: u32)
    ensures
        value == upcoming(*old(rng), 0),
        forall|i: nat| #[trigger] upcoming(*final(rng), i) == upcoming(*old(rng), i + 1),
    no_unwind
{
    rng.next_u32()
}

/// The values that a random source will yield, by the number of values drawn
/// before each.
pub type Draws = spec_fn(nat) -> u32;

/// The values of a source made from `seed`.
pub open spec fn seeded_draws(seed: u64) -> Draws {
    |index: nat| seeded_draw(seed, index, usize::BITS)
}

/// What is left of `draws` once `count` values have been drawn.
pub open spec fn draws_after(draws: Draws, count: nat) -> Draws {
    |index: nat| draws(count + index)
}

/// A deterministic pseudo-random source: two sources made from the same seed
/// yield the same values in the same order.
pub struct RandomSource {
    rng: SmallRng,
}

impl View for RandomSource {
    type V = Draws;

    closed spec fn view(&self) -> Draws {
        |index: nat| upcoming(self.rng, index)
    }
}

impl RandomSource {
    /// A source made from `seed`.
    pub fn new(seed: u64) -> (source: Self)
        ensures
            source@ == seeded_draws(seed),
    {
        let source = RandomSource { rng: seed_from_u64(seed) };
        assert(source@ =~= seeded_draws(seed));
        source
    }

    /// Draws the next value.
    pub fn next_u32(&mut self) -> (value: u32)
        ensures
            value == old(self)@(0),
            final(self)@ == draws_after(old(self)@, 1),
        no_unwind
    {
        let value = next_u32(&mut self.rng);
        assert(self@ =~= draws_after(old(self)@, 1));
        value
    }
}

} // verus!
