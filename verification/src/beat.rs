//! Eighth-beat counting and the "every n beats" run condition.

use vstd::prelude::*;

verus! {

/// The beat counter: `total` eighth-beats counted so far, of which
/// `this_tick` were counted during the current frame.
#[derive(Clone, Copy, Default)]
pub struct Beat {
    /// The total number of eighth-beats counted.
    pub total: usize,
    /// The number of new eighth-beats finished this tick (usually 0 or 1).
    pub this_tick: usize,
}

/// `hi / n > lo / n`: some multiple of `n` lies in the half-open range `(lo, hi]`.
pub open spec fn crosses_multiple(lo: int, hi: int, n: int) -> bool {
    hi / n > lo / n
}

/// A beat counter is consistent when the beats of this tick are part of the total.
pub open spec fn beat_wf(beat: Beat) -> bool {
    beat.this_tick <= beat.total
}

impl Beat {
    /// Synchronize the counter with the position of the music, measured in
    /// whole eighth-beats. When the music loops back, no new beats are counted.
    pub fn sync_to(&mut self, real_beats: usize)
        ensures
            final(self).total == real_beats,
            final(self).this_tick == (if real_beats >= old(self).total {
                real_beats - old(self).total
            } else {
                0
            }),
    {
        self.this_tick = real_beats.saturating_sub(self.total);
        self.total = real_beats;
    }

    /// Count the beats that a repeating beat timer finished this tick.
    pub fn count_finished(&mut self, finished: usize)
        requires
            old(self).total + finished <= usize::MAX,
        ensures
            final(self).this_tick == finished,
            final(self).total == old(self).total + finished,
    {
        self.this_tick = finished;
        self.total = self.total + finished;
    }
}

/// A run condition that holds once every `n` eighth-beats: the beats counted
/// this tick crossed a multiple of `n`.
pub fn on_beat(n: usize, beat: &Beat) -> (r: bool)
    requires
        n > 0,
        beat_wf(*beat),
    ensures
        r == crosses_multiple(beat.total - beat.this_tick, beat.total as int, n as int),
{
    let hi = beat.total;
    let lo = hi - beat.this_tick;
    hi / n > lo / n
}

/// A run condition that holds once every `n` full beats (eight eighth-beats each).
pub fn on_full_beat(n: usize, beat: &Beat) -> (r: bool)
    requires
        0 < n,
        8 * n <= usize::MAX,
        beat_wf(*beat),
    ensures
        r == crosses_multiple(beat.total - beat.this_tick, beat.total as int, 8 * n),
{
    on_beat(8 * n, beat)
}

/// For `0 <= lo <= hi` and `n > 0`: `hi / n > lo / n` exactly when some
/// multiple `k * n` lies in `(lo, hi]`.
pub proof fn lemma_crosses_multiple(lo: int, hi: int, n: int)
    requires
        0 <= lo <= hi,
        n > 0,
    ensures
        crosses_multiple(lo, hi, n) <==> exists|k: int| lo < #[trigger] (k * n) <= hi,
{
    vstd::arithmetic::div_mod::lemma_fundamental_div_mod(lo, n);
    vstd::arithmetic::div_mod::lemma_fundamental_div_mod(hi, n);
    let ql = lo / n;
    let qh = hi / n;
    if crosses_multiple(lo, hi, n) {
        assert(qh * n <= hi) by (nonlinear_arith)
            requires
                hi == n * qh + hi % n,
                0 <= hi % n,
        ;
        assert(qh * n > lo) by (nonlinear_arith)
            requires
                qh >= ql + 1,
                lo == n * ql + lo % n,
                lo % n < n,
                n > 0,
        ;
        assert(lo < qh * n <= hi);
    }
    if exists|k: int| lo < #[trigger] (k * n) <= hi {
        let k = choose|k: int| lo < #[trigger] (k * n) <= hi;
        assert(k > ql) by (nonlinear_arith)
            requires
                lo < k * n,
                lo == n * ql + lo % n,
                0 <= lo % n,
                n > 0,
        ;
        assert(k <= qh) by (nonlinear_arith)
            requires
                k * n <= hi,
                hi == n * qh + hi % n,
                hi % n < n,
                n > 0,
        ;
    }
}

/// `on_beat(n)` holds exactly when a multiple of `n` eighth-beats was reached
/// during this tick.
pub proof fn law_on_beat_fires_on_multiples(beat: Beat, n: int)
    requires
        beat_wf(beat),
        n > 0,
    ensures
        crosses_multiple(beat.total - beat.this_tick, beat.total as int, n) <==> exists|k: int|
            beat.total - beat.this_tick < #[trigger] (k * n) <= beat.total,
{
    lemma_crosses_multiple(beat.total - beat.this_tick, beat.total as int, n);
}

/// `on_beat(1)` holds exactly when at least one eighth-beat was counted this tick.
pub proof fn law_on_every_beat(beat: Beat)
    requires
        beat_wf(beat),
    ensures
        crosses_multiple(beat.total - beat.this_tick, beat.total as int, 1) <==> beat.this_tick > 0,
{
}

/// After synchronizing forward to `real_beats`, `on_beat(n)` holds exactly when a
/// multiple of `n` lies between the previous total (exclusive) and `real_beats`.
pub proof fn law_sync_then_on_beat(before: Beat, after: Beat, real_beats: usize, n: int)
    requires
        real_beats >= before.total,
        after.total == real_beats,
        after.this_tick == real_beats - before.total,
        n > 0,
    ensures
        beat_wf(after),
        crosses_multiple(after.total - after.this_tick, after.total as int, n) <==> exists|k: int|
            before.total < #[trigger] (k * n) <= real_beats,
{
    lemma_crosses_multiple(before.total as int, real_beats as int, n);
}

} // verus!
