//! The ChaCha8 generator, as the route weight controller sees it.

use vstd::prelude::*;
use rand_chacha::rand_core::{RngCore, SeedableRng};
use rand_chacha::ChaCha8Rng;

verus! {

/// `rand_chacha::ChaCha8Rng`, carried as an opaque value.
#[verifier::external_type_specification]
#[verifier::external_body]
pub struct ExChaCha8Rng(ChaCha8Rng);

/// The word that call number `k` of `next_u32`, counting from zero, returns on
/// a generator that `seed_from_u64(seed)` made and nothing else has touched.
pub uninterp spec fn seeded_word(seed: u64, k: nat) -> u32;

/// The word that call number `k` of `next_u32` from now on, counting from
/// zero, will return on `rng`.
pub uninterp spec fn upcoming_word(rng: ChaCha8Rng, k: nat) -> u32;

/// `ChaCha8Rng::seed_from_u64`: the generator that the seed determines, at the
/// start of its stream.
#[verifier::external_body]
pub(crate) fn rng_from_seed(seed: u64) -> (rng: ChaCha8Rng)
    ensures
        forall|k: nat| #[trigger] upcoming_word(rng, k) == seeded_word(seed, k),
{
    ChaCha8Rng::seed_from_u64(seed)
}

/// `ChaCha8Rng::next_u32`: hands out the next word of the stream and moves the
/// generator one word on.
#[verifier::external_body]
pub(crate) fn rng_next_u32(rng: &mut ChaCha8Rng) -> (word: u32)
    ensures
        word == upcoming_word(*old(rng), 0),
        forall|k: nat| #[trigger] upcoming_word(*final(rng), k) == upcoming_word(*old(rng), k + 1),
{
    rng.next_u32()
}

} // verus!
