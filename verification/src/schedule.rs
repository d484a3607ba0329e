//! The order in which the game's system sets run each frame.

use vstd::prelude::*;

verus! {

/// Game logic system ordering in the update schedule.
#[derive(Clone, Copy, Debug, PartialEq, Eq, Structural)]
pub enum UpdateSet {
    /// Tick timers.
    TickTimers,
    /// Synchronize start-of-frame values.
    SyncEarly,
    /// Play cards.
    PlayCards,
    /// Record player and AI input.
    RecordInput,
    /// Step game logic.
    Update,
    /// Detect health and trigger death.
    TriggerDeath,
    /// Detect XP and trigger level up.
    TriggerLevelUp,
    /// Despawn entities.
    Despawn,
    /// Spawn entities.
    Spawn,
    /// Synchronize end-of-frame values.
    SyncLate,
}

impl UpdateSet {
    /// The set's position in the frame.
    pub open spec fn rank(self) -> int {
        match self {
            UpdateSet::TickTimers => 0,
            UpdateSet::SyncEarly => 1,
            UpdateSet::PlayCards => 2,
            UpdateSet::RecordInput => 3,
            UpdateSet::Update => 4,
            UpdateSet::TriggerDeath => 5,
            UpdateSet::TriggerLevelUp => 6,
            UpdateSet::Despawn => 7,
            UpdateSet::Spawn => 8,
            UpdateSet::SyncLate => 9,
        }
    }

    /// The sets in the order they run, one after another.
    pub fn chain() -> (sets: Vec<UpdateSet>)
        ensures
            sets@.len() == 10,
            forall|i: int| 0 <= i < 10 ==> (#[trigger] sets@[i]).rank() == i,
    {
        let mut sets: Vec<UpdateSet> = Vec::new();
        sets.push(UpdateSet::TickTimers);
        sets.push(UpdateSet::SyncEarly);
        sets.push(UpdateSet::PlayCards);
        sets.push(UpdateSet::RecordInput);
        sets.push(UpdateSet::Update);
        sets.push(UpdateSet::TriggerDeath);
        sets.push(UpdateSet::TriggerLevelUp);
        sets.push(UpdateSet::Despawn);
        sets.push(UpdateSet::Spawn);
        sets.push(UpdateSet::SyncLate);
        sets
    }
}

/// Transform post-processing system ordering.
#[derive(Clone, Copy, Debug, PartialEq, Eq, Structural)]
pub enum PostTransformSet {
    /// Save the base transform as a backup.
    Save,
    /// Blend via transform multiplication (add translation, add rotation, multiply scale).
    Blend,
    /// Apply facing (may multiply translation.x by -1).
    ApplyFacing,
    /// Apply finishing touches to the global transform, like rounding to the nearest pixel.
    Finish,
}

impl PostTransformSet {
    /// The set's position among the transform sets.
    pub open spec fn rank(self) -> int {
        match self {
            PostTransformSet::Save => 0,
            PostTransformSet::Blend => 1,
            PostTransformSet::ApplyFacing => 2,
            PostTransformSet::Finish => 3,
        }
    }

    /// The sets in the order they run (transform propagation comes between
    /// `ApplyFacing` and `Finish`).
    pub fn chain() -> (sets: Vec<PostTransformSet>)
        ensures
            sets@.len() == 4,
            forall|i: int| 0 <= i < 4 ==> (#[trigger] sets@[i]).rank() == i,
    {
        let mut sets: Vec<PostTransformSet> = Vec::new();
        sets.push(PostTransformSet::Save);
        sets.push(PostTransformSet::Blend);
        sets.push(PostTransformSet::ApplyFacing);
        sets.push(PostTransformSet::Finish);
        sets
    }
}

/// Colour post-processing system ordering.
#[derive(Clone, Copy, Debug, PartialEq, Eq, Structural)]
pub enum PostColorSet {
    /// Save the base color as a backup.
    Save,
    /// Blend via color multiplication (multiply RGBA).
    Blend,
}

impl PostColorSet {
    /// The sets in the order they run.
    pub fn chain() -> (sets: Vec<PostColorSet>)
        ensures
            sets@ == seq![PostColorSet::Save, PostColorSet::Blend],
    {
        let mut sets: Vec<PostColorSet> = Vec::new();
        sets.push(PostColorSet::Save);
        sets.push(PostColorSet::Blend);
        sets
    }
}

/// Each update set runs exactly once per frame: the chain lists every set,
/// and no set twice.
pub proof fn law_update_sets_each_once(sets: Seq<UpdateSet>, s: UpdateSet)
    requires
        sets.len() == 10,
        forall|i: int| 0 <= i < 10 ==> (#[trigger] sets[i]).rank() == i,
    ensures
        sets[s.rank()] == s,
        forall|i: int| 0 <= i < 10 && #[trigger] sets[i] == s ==> i == s.rank(),
{
    assert(sets[s.rank()].rank() == s.rank());
}

} // verus!
