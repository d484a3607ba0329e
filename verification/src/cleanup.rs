//! Countdowns that remove a component, or despawn an entity, after a number
//! of eighth-beats.

use vstd::prelude::*;

verus! {

/// One beat of a countdown at `beat`: the next count and whether it fires.
pub open spec fn countdown_step(beat: nat) -> (nat, bool) {
    if beat > 0 {
        ((beat - 1) as nat, false)
    } else {
        (beat, true)
    }
}

/// Whether a countdown at `beat` fires within the next `ticks` beats.
pub open spec fn fires_within(beat: nat, ticks: nat) -> bool
    decreases ticks,
{
    if ticks == 0 {
        false
    } else {
        countdown_step(beat).1 || fires_within(countdown_step(beat).0, (ticks - 1) as nat)
    }
}

/// Remove a component `C` after a certain number of eighth-beats.
pub struct RemoveOnBeat<C> {
    pub beat: usize,
    pub phantom: core::marker::PhantomData<C>,
}

impl<C> RemoveOnBeat<C> {
    /// A countdown of `beat` eighth-beats.
    pub fn new(beat: usize) -> (remove: Self)
        ensures
            remove.beat == beat,
    {
        RemoveOnBeat { beat, phantom: core::marker::PhantomData }
    }

    /// `component` together with a countdown that removes it after `beat` eighth-beats.
    pub fn bundle(component: C, beat: usize) -> (pair: (C, Self))
        ensures
            pair.0 == component,
            pair.1.beat == beat,
    {
        (component, Self::new(beat))
    }

    /// Count down one eighth-beat; returns whether the component is now due
    /// for removal (the count had already reached zero).
    pub fn tick(&mut self) -> (remove: bool)
        ensures
            (final(self).beat as nat, remove) == countdown_step(old(self).beat as nat),
    {
        if self.beat > 0 {
            self.beat = self.beat - 1;
            false
        } else {
            true
        }
    }
}

/// Despawn an entity after a certain number of eighth-beats.
pub struct DespawnOnBeat(pub usize);

impl DespawnOnBeat {
    /// Count down one eighth-beat; returns whether the entity is now due to be
    /// despawned (the count had already reached zero).
    pub fn tick(&mut self) -> (despawn: bool)
        ensures
            (final(self).0 as nat, despawn) == countdown_step(old(self).0 as nat),
    {
        if self.0 > 0 {
            self.0 = self.0 - 1;
            false
        } else {
            true
        }
    }
}

/// Remove a component `C` once a countdown of `count` eighth-beats is used
/// up: due for removal on the beat the count is found at zero.
pub struct RemoveOnCount<C> {
    pub count: usize,
    pub phantom: core::marker::PhantomData<C>,
}

impl<C> RemoveOnCount<C> {
    /// A countdown of `count` eighth-beats.
    pub fn new(count: usize) -> (remove: Self)
        ensures
            remove.count == count,
    {
        RemoveOnCount { count, phantom: core::marker::PhantomData }
    }

    /// One beat of the countdown: due for removal when the count is zero;
    /// the count then goes down, stopping at zero.
    pub fn tick(&mut self) -> (remove: bool)
        ensures
            (final(self).count as nat, remove) == countdown_step(old(self).count as nat),
    {
        let remove = self.count == 0;
        self.count = self.count.saturating_sub(1);
        remove
    }
}

/// A countdown started at `n` eighth-beats fires on exactly the `(n + 1)`-th
/// beat: never within `n` beats, always within `n + 1`.
pub proof fn law_countdown_fires_after_n_beats(n: nat, ticks: nat)
    ensures
        fires_within(n, ticks) <==> ticks > n,
    decreases ticks,
{
    if ticks > 0 {
        if n > 0 {
            law_countdown_fires_after_n_beats((n - 1) as nat, (ticks - 1) as nat);
        }
    }
}

} // verus!
