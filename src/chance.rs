use rand::seq::SliceRandom;
use rand::Rng;
use vstd::prelude::*;

use crate::meaning::Meaning;

verus! {

/// Relies on rand's `Rng::gen_range` on `thread_rng()`: the value lies in `0..bound`.
/// The call panics on an empty range, which `requires` leaves out.
#[verifier::external_body]
pub(crate) fn index_below(bound: usize) -> (r: usize)
    requires
        bound > 0,
    ensures
        r < bound,
{
    rand::thread_rng().gen_range(0..bound)
}

/// Relies on rand's `SliceRandom::shuffle` on `thread_rng()`: it reorders the
/// items in place by swapping them, so the same items remain.
#[verifier::external_body]
pub(crate) fn shuffle_meanings(items: &mut Vec<Meaning>)
    ensures
        final(items)@.to_multiset() == old(items)@.to_multiset(),
{
    items.shuffle(&mut rand::thread_rng())
}

} // verus!
