//! Beat-driven sprite animation: each frame is shown for a number of beats.

use vstd::prelude::*;

verus! {

/// One animation frame: a texture atlas index shown for `beats` eighth-beats.
#[derive(Clone, Copy)]
pub struct SpriteAnimationFrame {
    pub index: usize,
    pub beats: usize,
}

/// A looping animation over a list of frames.
#[derive(Clone)]
pub struct SpriteAnimation {
    pub frames: Vec<SpriteAnimationFrame>,
    pub total_beats: usize,
}

/// The number of beats that one loop of `frames` lasts.
pub open spec fn beats_sum(frames: Seq<SpriteAnimationFrame>) -> int
    decreases frames.len(),
{
    if frames.len() == 0 {
        0
    } else {
        frames[0].beats + beats_sum(frames.drop_first())
    }
}

/// The atlas index shown `beat` beats into one loop of `frames`.
pub open spec fn frame_at(frames: Seq<SpriteAnimationFrame>, beat: int) -> usize
    decreases frames.len(),
{
    if frames.len() == 0 {
        0
    } else if beat < frames[0].beats {
        frames[0].index
    } else {
        frame_at(frames.drop_first(), beat - frames[0].beats)
    }
}

proof fn lemma_beats_sum_skip(frames: Seq<SpriteAnimationFrame>, i: int)
    requires
        0 <= i < frames.len(),
    ensures
        beats_sum(frames.skip(i)) == frames[i].beats + beats_sum(frames.skip(i + 1)),
{
    assert(frames.skip(i).drop_first() =~= frames.skip(i + 1));
}

proof fn lemma_beats_sum_nonneg(frames: Seq<SpriteAnimationFrame>)
    ensures
        beats_sum(frames) >= 0,
    decreases frames.len(),
{
    if frames.len() > 0 {
        lemma_beats_sum_nonneg(frames.drop_first());
    }
}

impl SpriteAnimation {
    /// Store the length of one loop of the animation, in beats.
    pub fn calculate_total_beats(&mut self)
        requires
            beats_sum(old(self).frames@) <= usize::MAX,
        ensures
            final(self).frames@ == old(self).frames@,
            final(self).total_beats == beats_sum(old(self).frames@),
    {
        let mut total: usize = 0;
        let mut i: usize = 0;
        let ghost frames = self.frames@;
        assert(frames.skip(0) =~= frames);
        while i < self.frames.len()
            invariant
                frames == self.frames@,
                0 <= i <= frames.len(),
                beats_sum(frames) <= usize::MAX,
                total == beats_sum(frames) - beats_sum(frames.skip(i as int)),
            decreases frames.len() - i,
        {
            proof {
                lemma_beats_sum_skip(frames, i as int);
                lemma_beats_sum_nonneg(frames.skip(i + 1));
            }
            total = total + self.frames[i].beats;
            i = i + 1;
        }
        assert(frames.skip(i as int) =~= Seq::<SpriteAnimationFrame>::empty());
        self.total_beats = total;
    }

    /// The texture atlas index of the animation after `beats` beats.
    pub fn index(&self, beats: usize) -> (idx: usize)
        requires
            0 < self.total_beats <= beats_sum(self.frames@),
        ensures
            idx == frame_at(self.frames@, beats as int % self.total_beats as int),
    {
        let ghost frames = self.frames@;
        let mut beats = beats % self.total_beats;
        let ghost target = beats as int;
        let mut i: usize = 0;
        let n = self.frames.len();
        assert(frames.skip(0) =~= frames);
        while beats >= self.frames[i].beats
            invariant
                frames == self.frames@,
                n == frames.len(),
                0 <= i < frames.len(),
                beats < beats_sum(frames.skip(i as int)),
                frame_at(frames.skip(i as int), beats as int) == frame_at(frames, target),
            decreases frames.len() - i,
        {
            proof {
                lemma_beats_sum_skip(frames, i as int);
                assert(frames.skip(i as int).drop_first() =~= frames.skip(i + 1));
                assert(frames.skip(i as int)[0] == frames[i as int]);
            }
            beats = beats - self.frames[i].beats;
            proof {
                if i + 1 >= frames.len() {
                    assert(frames.skip(i + 1) =~= Seq::<SpriteAnimationFrame>::empty());
                }
            }
            i = i + 1;
        }
        proof {
            assert(frames.skip(i as int)[0] == frames[i as int]);
        }
        self.frames[i].index
    }
}

/// The frame shown at any beat of a loop is one of the animation's frames,
/// and one that lasts at least one beat.
pub proof fn law_frame_shown_is_a_frame(frames: Seq<SpriteAnimationFrame>, beat: int)
    requires
        0 <= beat < beats_sum(frames),
    ensures
        exists|j: int|
            0 <= j < frames.len() && frames[j].beats > 0 && #[trigger] frames[j].index == frame_at(
                frames,
                beat,
            ),
    decreases frames.len(),
{
    if beat < frames[0].beats {
        assert(frames[0].index == frame_at(frames, beat));
    } else {
        law_frame_shown_is_a_frame(frames.drop_first(), beat - frames[0].beats);
        let j = choose|j: int|
            0 <= j < frames.drop_first().len() && frames.drop_first()[j].beats > 0
                && #[trigger] frames.drop_first()[j].index == frame_at(
                frames.drop_first(),
                beat - frames[0].beats,
            );
        assert(frames[j + 1].index == frame_at(frames, beat));
    }
}

/// The beats that the first `k` frames of `frames` last together.
pub open spec fn prefix_beats(frames: Seq<SpriteAnimationFrame>, k: int) -> int {
    beats_sum(frames.take(k))
}

proof fn lemma_prefix_beats_step(frames: Seq<SpriteAnimationFrame>, k: int)
    requires
        frames.len() > 0,
        0 <= k < frames.len(),
    ensures
        prefix_beats(frames, k + 1) == frames[0].beats + prefix_beats(frames.drop_first(), k),
        prefix_beats(frames, 0) == 0,
{
    assert(frames.take(k + 1).drop_first() =~= frames.drop_first().take(k));
    assert(frames.take(0) =~= Seq::<SpriteAnimationFrame>::empty());
}

/// The frame shown `beat` beats into a loop is the first frame whose running
/// beat total exceeds `beat`: the frame `i` with `prefix(i) <= beat < prefix(i + 1)`,
/// every earlier frame having already run out. Frames of zero beats are
/// never shown.
pub proof fn law_frame_shown_is_first_covering(frames: Seq<SpriteAnimationFrame>, beat: int)
    requires
        0 <= beat < beats_sum(frames),
    ensures
        exists|i: int|
            {
                &&& 0 <= i < frames.len()
                &&& prefix_beats(frames, i) <= beat < prefix_beats(frames, i + 1)
                &&& frames[i].beats > 0
                &&& frame_at(frames, beat) == frames[i].index
                &&& forall|j: int| 0 <= j < i ==> #[trigger] prefix_beats(frames, j + 1) <= beat
            },
    decreases frames.len(),
{
    lemma_prefix_beats_step(frames, 0);
    if beat < frames[0].beats {
        assert(frames.take(1).drop_first() =~= Seq::<SpriteAnimationFrame>::empty());
        assert(prefix_beats(frames, 0) <= beat < prefix_beats(frames, 1));
    } else {
        let tail = frames.drop_first();
        let b = beat - frames[0].beats;
        law_frame_shown_is_first_covering(tail, b);
        let k = choose|k: int|
            {
                &&& 0 <= k < tail.len()
                &&& prefix_beats(tail, k) <= b < prefix_beats(tail, k + 1)
                &&& tail[k].beats > 0
                &&& frame_at(tail, b) == tail[k].index
                &&& forall|j: int| 0 <= j < k ==> #[trigger] prefix_beats(tail, j + 1) <= b
            };
        lemma_prefix_beats_step(frames, k);
        lemma_prefix_beats_step(frames, k + 1);
        assert forall|j: int| 0 <= j < k + 1 implies #[trigger] prefix_beats(frames, j + 1) <= beat by {
            lemma_prefix_beats_step(frames, j);
            if j > 0 {
                assert(prefix_beats(tail, (j - 1) + 1) <= b);
            } else {
                assert(tail.take(0) =~= Seq::<SpriteAnimationFrame>::empty());
            }
        }
        assert(frames[k + 1] == tail[k]);
        assert(prefix_beats(frames, k + 1) <= beat < prefix_beats(frames, k + 2));
    }
}

/// What an animation of `frames`, whose loop lasts `total` beats, shows after
/// `beats` beats: the first frame whose running beat total exceeds
/// `beats mod total`; and the same frame again `total` beats later.
pub proof fn law_sprite_index(frames: Seq<SpriteAnimationFrame>, total: int, beats: int)
    requires
        total == beats_sum(frames),
        total > 0,
        beats >= 0,
    ensures
        exists|i: int|
            {
                &&& 0 <= i < frames.len()
                &&& prefix_beats(frames, i) <= beats % total < prefix_beats(frames, i + 1)
                &&& frames[i].beats > 0
                &&& frame_at(frames, beats % total) == frames[i].index
                &&& forall|j: int| 0 <= j < i ==> #[trigger] prefix_beats(frames, j + 1) <= beats % total
            },
        frame_at(frames, (beats + total) % total) == frame_at(frames, beats % total),
{
    law_frame_shown_is_first_covering(frames, beats % total);
    law_animation_loops(frames, beats, total);
}

/// The animation repeats every `total` beats.
pub proof fn law_animation_loops(frames: Seq<SpriteAnimationFrame>, beats: int, total: int)
    requires
        total > 0,
        beats >= 0,
    ensures
        frame_at(frames, (beats + total) % total) == frame_at(frames, beats % total),
{
    vstd::arithmetic::div_mod::lemma_mod_add_multiples_vanish(beats, total);
}

} // verus!
