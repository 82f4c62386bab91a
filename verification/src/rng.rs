//! The two places the library draws randomness from the `fastrand` crate.
//! Nothing is assumed of which outcome comes back, only what holds of all
//! of them.

use vstd::prelude::*;

use crate::cards::Card;

verus! {

/// Relies on fastrand::shuffle: it permutes the slice in place by swaps,
/// so the cards stay the same as a multiset.
#[verifier::external_body]
pub(crate) fn shuffle_cards(deck: &mut Vec<Card>)
    ensures
        final(deck)@.len() == old(deck)@.len(),
        final(deck)@.to_multiset() == old(deck)@.to_multiset(),
{
    fastrand::shuffle(deck.as_mut_slice());
}

/// Relies on fastrand::usize: on the range `0..n` it returns a value below
/// `n`; it panics on an empty range, which `n > 0` rules out.
#[verifier::external_body]
pub(crate) fn random_below(n: usize) -> (r: usize)
    requires
        n > 0,
    ensures
        r < n,
{
    fastrand::usize(0..n)
}

} // verus!
