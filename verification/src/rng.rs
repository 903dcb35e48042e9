//! The engine's only sources of randomness, each behind a trusted wrapper.
//! Every draw is a function of the generator's hidden state, so nothing
//! beyond the documented range of a result is assumed here.
use vstd::prelude::*;

use rand::Rng;
use rand::SeedableRng;
use rand::seq::SliceRandom;

use crate::bird_card::BirdCard;

verus! {

#[verifier::external_type_specification]
#[verifier::external_body]
pub struct ExStdRng(rand::rngs::StdRng);

/// Relies on rand's `StdRng::seed_from_u64`: a generator built
/// deterministically from the seed.
#[verifier::external_body]
pub fn rng_from_seed(seed: u64) -> rand::rngs::StdRng {
    rand::rngs::StdRng::seed_from_u64(seed)
}

/// Relies on rand's `StdRng::from_entropy`: a generator seeded from system
/// entropy; nothing can be promised of it.
#[verifier::external_body]
pub fn rng_from_entropy() -> rand::rngs::StdRng {
    rand::rngs::StdRng::from_entropy()
}

/// Relies on rand's `Rng::gen_range` over `0..6`: a value below six.
#[verifier::external_body]
pub fn roll_die(rng: &mut rand::rngs::StdRng) -> (r: u8)
    ensures
        r < 6,
{
    rng.gen_range(0..6u8)
}

/// Relies on rand's `SliceRandom::shuffle`: an in-place permutation of the
/// slice, so the cards and their count are unchanged.
#[verifier::external_body]
pub fn shuffle_cards(rng: &mut rand::rngs::StdRng, cards: &mut Vec<BirdCard>)
    ensures
        final(cards)@.len() == old(cards)@.len(),
        final(cards)@.to_multiset() == old(cards)@.to_multiset(),
        forall|card: BirdCard| final(cards)@.contains(card) ==> old(cards)@.contains(card),
{
    cards.shuffle(rng)
}

} // verus!
