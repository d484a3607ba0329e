//! Loading progress of configured assets.

use vstd::prelude::*;

verus! {

/// Loading progress: how many of `total` tracked items are `done`.
#[derive(Clone, Copy, Debug, PartialEq, Eq, Structural)]
pub struct Progress {
    pub done: u32,
    pub total: u32,
}

/// The number of `true` entries in `flags`.
pub open spec fn count_true(flags: Seq<bool>) -> int
    decreases flags.len(),
{
    if flags.len() == 0 {
        0
    } else {
        count_true(flags.drop_last()) + if flags.last() {
            1int
        } else {
            0int
        }
    }
}

proof fn lemma_count_true_bounded(flags: Seq<bool>)
    ensures
        0 <= count_true(flags) <= flags.len(),
    decreases flags.len(),
{
    if flags.len() > 0 {
        lemma_count_true_bounded(flags.drop_last());
    }
}

/// The progress of a config whose own loading is done, with one more item per
/// asset in `loaded` (each done when loaded, dependencies included).
pub fn count_progress(loaded: &Vec<bool>) -> (progress: Progress)
    requires
        loaded@.len() < u32::MAX,
    ensures
        progress.total == 1 + loaded@.len(),
        progress.done == 1 + count_true(loaded@),
{
    let mut progress = Progress { done: 1, total: 1 };
    let mut i: usize = 0;
    while i < loaded.len()
        invariant
            0 <= i <= loaded@.len(),
            loaded@.len() < u32::MAX,
            progress.total == 1 + i,
            progress.done == 1 + count_true(loaded@.take(i as int)),
        decreases loaded@.len() - i,
    {
        proof {
            assert(loaded@.take(i + 1).drop_last() =~= loaded@.take(i as int));
            lemma_count_true_bounded(loaded@.take(i as int));
        }
        progress.total = progress.total + 1;
        if loaded[i] {
            progress.done = progress.done + 1;
        }
        i = i + 1;
    }
    assert(loaded@.take(loaded@.len() as int) =~= loaded@);
    progress
}

/// Whether a projectile config is ready: every texture is loaded, and every
/// spawn sound that is set (`Some`) is loaded.
pub fn projectiles_ready(textures_loaded: &Vec<bool>, sfx_loaded: &Vec<Option<bool>>) -> (ready: bool)
    ensures
        ready == ((forall|i: int| 0 <= i < textures_loaded@.len() ==> #[trigger] textures_loaded@[i])
            && (forall|i: int|
            0 <= i < sfx_loaded@.len() ==> #[trigger] sfx_loaded@[i] != Some(false))),
{
    let mut i: usize = 0;
    while i < textures_loaded.len()
        invariant
            0 <= i <= textures_loaded@.len(),
            forall|j: int| 0 <= j < i ==> #[trigger] textures_loaded@[j],
        decreases textures_loaded@.len() - i,
    {
        if !textures_loaded[i] {
            return false;
        }
        i = i + 1;
    }
    let mut k: usize = 0;
    while k < sfx_loaded.len()
        invariant
            0 <= k <= sfx_loaded@.len(),
            forall|j: int| 0 <= j < textures_loaded@.len() ==> #[trigger] textures_loaded@[j],
            forall|j: int| 0 <= j < k ==> #[trigger] sfx_loaded@[j] != Some(false),
        decreases sfx_loaded@.len() - k,
    {
        if let Some(false) = sfx_loaded[k] {
            return false;
        }
        k = k + 1;
    }
    true
}

/// Progress never claims more done than tracked, and is complete exactly when
/// every asset is loaded.
pub proof fn law_progress_complete_iff_all_loaded(loaded: Seq<bool>)
    ensures
        count_true(loaded) <= loaded.len(),
        count_true(loaded) == loaded.len() <==> forall|i: int| 0 <= i < loaded.len() ==> #[trigger] loaded[i],
    decreases loaded.len(),
{
    lemma_count_true_bounded(loaded);
    if loaded.len() > 0 {
        law_progress_complete_iff_all_loaded(loaded.drop_last());
        lemma_count_true_bounded(loaded.drop_last());
        if forall|i: int| 0 <= i < loaded.len() ==> #[trigger] loaded[i] {
            assert forall|i: int| 0 <= i < loaded.drop_last().len() implies #[trigger] loaded.drop_last()[i] by {
                assert(loaded[i]);
            }
            assert(loaded[loaded.len() - 1]);
        }
        if count_true(loaded) == loaded.len() {
            if !loaded.last() {
                assert(count_true(loaded) == count_true(loaded.drop_last()));
            }
            assert forall|i: int| 0 <= i < loaded.len() implies #[trigger] loaded[i] by {
                if i < loaded.len() - 1 {
                    assert(loaded.drop_last()[i] == loaded[i]);
                }
            }
        }
    }
}

} // verus!
