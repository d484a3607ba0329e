//! Disco spotlights: how many a lamp gets, and how their colours loop.

use vstd::prelude::*;

use crate::random::random_inclusive;

verus! {

/// How many spotlights a spotlight lamp gets: between 4 and 16, at random.
pub fn spotlight_count() -> (count: usize)
    ensures
        4 <= count <= 16,
{
    random_inclusive(4, 16)
}

/// The colour after entry `lo` in a loop of `n` colours: the next one, or the
/// first after the last (or past the end).
pub fn loop_neighbor(lo: usize, n: usize) -> (hi: usize)
    requires
        lo < usize::MAX,
    ensures
        hi == (if lo + 1 < n {
            lo + 1
        } else {
            0
        }),
        lo < n ==> hi < n && hi == (lo + 1) % (n as int),
{
    if lo + 1 < n {
        proof {
            vstd::arithmetic::div_mod::lemma_small_mod((lo + 1) as nat, n as nat);
        }
        lo + 1
    } else {
        proof {
            if lo < n {
                vstd::arithmetic::div_mod::lemma_mod_self_0(n as int);
            }
        }
        0
    }
}

} // verus!
