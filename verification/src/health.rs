//! The health bar's colour ramp: which ramp entries a fill level blends.

use vstd::prelude::*;

verus! {

/// The ramp entries that a health bar colour comes from.
#[derive(Clone, Copy, Debug, PartialEq, Eq, Structural)]
pub enum RampPick {
    /// Exactly this entry (the last one).
    Entry(usize),
    /// A blend of these two neighbouring entries.
    Blend(usize, usize),
}

/// The entries of a ramp of `len` colours for a fill level whose scaled
/// position rounds down to `lo`: a blend of `lo` and `lo + 1`, or the last
/// entry when `lo + 1` runs off the end.
pub fn ramp_segment(lo: usize, len: usize) -> (pick: RampPick)
    requires
        len > 0,
        lo < usize::MAX,
    ensures
        lo + 1 >= len ==> pick == RampPick::Entry((len - 1) as usize),
        lo + 1 < len ==> pick == RampPick::Blend(lo, (lo + 1) as usize),
{
    let hi = lo + 1;
    if hi >= len {
        RampPick::Entry(len - 1)
    } else {
        RampPick::Blend(lo, hi)
    }
}

/// Every entry a health bar colour comes from is in the ramp.
pub proof fn law_ramp_pick_in_range(lo: int, len: int)
    requires
        len > 0,
        lo >= 0,
    ensures
        lo + 1 >= len ==> 0 <= len - 1 < len,
        lo + 1 < len ==> 0 <= lo && lo + 1 < len,
{
}

} // verus!
