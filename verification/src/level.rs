//! Levels: the per-level data table and pending level-ups.

use vstd::prelude::*;

verus! {

/// The level sequence; the final level repeats forever.
pub struct LevelConfig<T> {
    pub levels: Vec<T>,
}

/// The position in a table of `len` levels used for level `idx`: the final
/// entry stands for every level past the end.
pub open spec fn level_slot(idx: int, len: int) -> int {
    if idx < len - 1 {
        idx
    } else {
        len - 1
    }
}

impl<T> LevelConfig<T> {
    /// The data of level `idx`, where the final level repeats forever.
    pub fn level(&self, idx: usize) -> (data: &T)
        requires
            self.levels@.len() > 0,
        ensures
            *data == self.levels@[level_slot(idx as int, self.levels@.len() as int)],
            idx < self.levels@.len() ==> *data == self.levels@[idx as int],
            idx >= self.levels@.len() ==> *data == self.levels@[self.levels@.len() - 1],
    {
        let last = self.levels.len() - 1;
        let slot = if idx < last {
            idx
        } else {
            last
        };
        &self.levels[slot]
    }
}

/// An actor's level: the level reached, plus level-ups earned but not yet taken.
#[derive(Clone, Copy, Default)]
pub struct Level {
    /// The current level.
    pub current: usize,
    /// The number of pending level-ups.
    pub up: usize,
}

/// The player's level is kept the same way as any actor's.
pub type PlayerLevel = Level;

impl Level {
    /// The level shown to the player: pending level-ups already count.
    pub open spec fn shown(self) -> int {
        self.current + self.up
    }

    /// The level shown in the level indicator (and whose cost applies to
    /// the next level-up).
    pub fn displayed(&self) -> (shown: usize)
        requires
            self.shown() <= usize::MAX,
        ensures
            shown == self.shown(),
    {
        self.current + self.up
    }

    /// Record that XP paid for one more level-up.
    pub fn earn_level_up(&mut self)
        requires
            old(self).up < usize::MAX,
        ensures
            final(self).current == old(self).current,
            final(self).up == old(self).up + 1,
    {
        self.up = self.up + 1;
    }

    /// Take one pending level-up, if there is one; returns whether a level-up
    /// happened (and a level-up event is due).
    pub fn trigger_level_up(&mut self) -> (leveled: bool)
        requires
            old(self).up > 0 ==> old(self).current < usize::MAX,
        ensures
            leveled == (old(self).up > 0),
            leveled ==> final(self).current == old(self).current + 1 && final(self).up == old(
                self,
            ).up - 1,
            !leveled ==> *final(self) == *old(self),
    {
        if self.up > 0 {
            self.up = self.up - 1;
            self.current = self.current + 1;
            true
        } else {
            false
        }
    }
}

/// Taking a pending level-up never changes the level shown.
pub proof fn law_level_up_keeps_shown_level(before: Level, after: Level)
    requires
        before.up > 0,
        after.current == before.current + 1,
        after.up == before.up - 1,
    ensures
        after.shown() == before.shown(),
{
}

/// Every level inside the table reads its own entry; only levels past the
/// end fall back to the final entry.
pub proof fn law_level_reads_own_entry(idx: int, len: int)
    requires
        len > 0,
        idx >= 0,
    ensures
        idx < len ==> level_slot(idx, len) == idx,
        idx >= len ==> level_slot(idx, len) == len - 1,
{
}

/// Levels at or past the end of the table all use its final entry.
pub proof fn law_final_level_repeats(idx: int, len: int)
    requires
        len > 0,
        idx >= len - 1,
    ensures
        level_slot(idx, len) == len - 1,
        level_slot(idx + 1, len) == level_slot(idx, len),
{
}

/// Every level index selects an entry of a non-empty table.
pub proof fn law_level_slot_in_table(idx: int, len: int)
    requires
        len > 0,
        idx >= 0,
    ensures
        0 <= level_slot(idx, len) < len,
{
}

} // verus!
