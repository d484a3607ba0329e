//! Random choices, drawn from `rand`'s thread-local generator.

use rand::seq::IteratorRandom;
use rand::Rng;
use vstd::prelude::*;

verus! {

/// A uniformly random index into `candidates`, through `rand`'s
/// `IteratorRandom::choose` on the thread-local generator. The contract
/// claims only what its documentation promises: `None` exactly when the
/// iterator is empty, and otherwise one of its items.
#[verifier::external_body]
pub(crate) fn choose_candidate(candidates: &Vec<String>) -> (choice: Option<usize>)
    ensures
        choice is None <==> candidates@.len() == 0,
        choice matches Some(i) ==> i < candidates@.len(),
{
    candidates.iter().enumerate().choose(&mut rand::thread_rng()).map(|(i, _)| i)
}

/// A uniformly random number in `lo..=hi`, through `rand`'s `Rng::gen_range`
/// on the thread-local generator, which panics only on an empty range.
#[verifier::external_body]
pub(crate) fn random_inclusive(lo: usize, hi: usize) -> (n: usize)
    requires
        lo <= hi,
    ensures
        lo <= n <= hi,
{
    rand::thread_rng().gen_range(lo..=hi)
}

} // verus!
