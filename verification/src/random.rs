//! The randomness port: a seedable uniform generator that the dealing and
//! dealer-policy code draws cards from. The generator itself comes from the
//! `rand` crate and is opaque to verification; every contract downstream
//! holds for every value it may produce.

use vstd::prelude::*;

use crate::card::BJCard;
use rand::seq::SliceRandom;

verus! {

#[verifier::external_type_specification]
#[verifier::external_body]
pub struct ExSmallRng(rand::rngs::SmallRng);

/// A stream of uniformly drawn cards, seeded from host-provided entropy
/// (such as a block timestamp) or from a fixed value in tests.
pub struct GameRng {
    rng: rand::rngs::SmallRng,
}

/// Relies on rand's `SeedableRng::seed_from_u64` to build a small generator
/// from a seed. Nothing is promised of the stream it produces.
#[verifier::external_body]
pub fn gen_rng(seed: u64) -> GameRng {
    GameRng { rng: rand::SeedableRng::seed_from_u64(seed) }
}

/// Relies on rand's `SliceRandom::choose`: returns `None` exactly on an
/// empty slice, and otherwise one of the slice's elements.
#[verifier::external_body]
pub(crate) fn choose_card(rng: &mut GameRng, cards: &[BJCard]) -> (r: Option<BJCard>)
    ensures
        r.is_some() <==> cards@.len() > 0,
        r.is_some() ==> cards@.contains(r.unwrap()),
{
    cards.choose(&mut rng.rng).copied()
}

} // verus!
