//! A saved copy of a component, restored at the start of the next frame so
//! that per-frame effects (offsets, facing) never accumulate.

use vstd::prelude::*;

verus! {

/// A backup of a component value, if one was saved.
pub struct Backup<C>(pub Option<C>);

/// The backup and the component after restoring from `saved` into `target`.
pub open spec fn restored<C>(saved: Option<C>, target: C) -> (Option<C>, C) {
    match saved {
        Some(value) => (None, value),
        None => (None, target),
    }
}

impl<C> Backup<C> {
    /// An empty backup.
    pub fn new() -> (backup: Self)
        ensures
            backup.0 is None,
    {
        Backup(None)
    }

    /// Save `value` (a copy of the component at the end of the frame).
    pub fn save(&mut self, value: C)
        ensures
            final(self).0 == Some(value),
    {
        self.0 = Some(value);
    }

    /// Put the saved value back into `target` and empty the backup; without
    /// a saved value, the component keeps its value.
    pub fn restore(&mut self, target: &mut C)
        ensures
            (final(self).0, *final(target)) == restored(old(self).0, *old(target)),
    {
        if let Some(value) = self.0.take() {
            *target = value;
        }
    }
}

/// Restoring after a save gives back exactly the saved value, whatever the
/// component became in between; restoring again changes nothing.
pub proof fn law_restore_undoes_changes<C>(value: C, changed: C)
    ensures
        restored(Some(value), changed) == (None::<C>, value),
        restored(restored(Some(value), changed).0, value) == (None::<C>, value),
{
}

} // verus!
