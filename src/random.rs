//! Draws from rand's thread-local generator.

use vstd::prelude::*;
use rand::Rng;
use rand::seq::SliceRandom;
use crate::coords::EntityId;

verus! {

/// Relies on rand's `thread_rng` and `Rng::gen_range`: a value from the
/// non-empty range `[1, max]`.
#[verifier::external_body]
pub(crate) fn roll_pips(max: u8) -> (r: u8)
    requires
        max >= 1,
    ensures
        1 <= r <= max,
{
    rand::thread_rng().gen_range(1..=max)
}

/// Relies on rand's `SliceRandom::shuffle`: the same cards, in some order.
#[verifier::external_body]
pub(crate) fn shuffle_cards(cards: &mut Vec<EntityId>)
    ensures
        final(cards)@.to_multiset() == old(cards)@.to_multiset(),
{
    cards.shuffle(&mut rand::thread_rng());
}

} // verus!
