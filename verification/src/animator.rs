use vstd::prelude::*;

use crate::timer::RepeatTimer;

verus! {

/// The fixed frame range of an entity's sprite sheet: the animation loops
/// over the indices from `first` to `last`.
#[derive(Clone, Copy, PartialEq, Eq, Structural, Debug)]
pub struct AnimationIndices {
    pub first: usize,
    pub last: usize,
}

impl AnimationIndices {
    /// Well-formedness: the range is non-empty.
    pub open spec fn wf(self) -> bool {
        self.first <= self.last
    }
}

/// The repeating countdown that paces an entity's animation.
#[derive(Clone, Copy, PartialEq, Eq, Structural, Debug)]
pub struct AnimationTimer(pub RepeatTimer);

/// The frame displayed after one animation step: one index forward, wrapping
/// to `first` after `last`.
pub open spec fn next_frame(indices: AnimationIndices, index: usize) -> usize {
    if index == indices.last {
        indices.first
    } else {
        (index + 1) as usize
    }
}

/// Advance the animation countdown by `delta` time units; each time the
/// countdown completes, step the displayed frame, wrapping from `last` back
/// to `first`. Between completions the frame is left untouched.
pub fn animate_sprite(
    indices: &AnimationIndices,
    timer: &mut AnimationTimer,
    index: &mut usize,
    delta: u64,
)
    requires
        indices.wf(),
        old(timer).0.wf(),
        old(timer).0.elapsed + delta <= u64::MAX,
        indices.first <= *old(index) <= indices.last,
    ensures
        final(timer).0 == old(timer).0.spec_tick(delta),
        final(timer).0.wf(),
        *final(index) == if final(timer).0.finished_this_tick {
            next_frame(*indices, *old(index))
        } else {
            *old(index)
        },
        indices.first <= *final(index) <= indices.last,
{
    timer.0.tick(delta);
    if timer.0.just_finished() {
        if *index == indices.last {
            *index = indices.first;
        } else {
            *index = *index + 1;
        }
    }
}

/// The animation state (timer and displayed frame) after a whole sequence of
/// time deltas, each handled as `animate_sprite` handles it.
pub open spec fn run_animation(
    indices: AnimationIndices,
    timer: RepeatTimer,
    index: usize,
    deltas: Seq<u64>,
) -> (RepeatTimer, usize)
    decreases deltas.len(),
{
    if deltas.len() == 0 {
        (timer, index)
    } else {
        let ticked = timer.spec_tick(deltas[0]);
        let stepped = if ticked.finished_this_tick {
            next_frame(indices, index)
        } else {
            index
        };
        run_animation(indices, ticked, stepped, deltas.drop_first())
    }
}

/// One animation step stays within the frame range and cycles in order —
/// `first`, …, `last`, then `first` again — for any frame in the range.
pub proof fn lemma_next_frame_cycles(indices: AnimationIndices, index: usize)
    requires
        indices.wf(),
        indices.first <= index <= indices.last,
    ensures
        indices.first <= next_frame(indices, index) <= indices.last,
        index == indices.last ==> next_frame(indices, index) == indices.first,
        index < indices.last ==> next_frame(indices, index) == index + 1,
{
}

/// For any sequence of time deltas, the displayed frame never exceeds
/// `last` and never goes below `first`, and the timer stays well formed.
pub proof fn lemma_animation_stays_in_range(
    indices: AnimationIndices,
    timer: RepeatTimer,
    index: usize,
    deltas: Seq<u64>,
)
    requires
        indices.wf(),
        timer.wf(),
        indices.first <= index <= indices.last,
    ensures
        run_animation(indices, timer, index, deltas).0.wf(),
        indices.first <= run_animation(indices, timer, index, deltas).1 <= indices.last,
    decreases deltas.len(),
{
    if deltas.len() > 0 {
        crate::timer::lemma_tick_preserves_wf(timer, deltas[0]);
        let ticked = timer.spec_tick(deltas[0]);
        let stepped = if ticked.finished_this_tick {
            next_frame(indices, index)
        } else {
            index
        };
        lemma_animation_stays_in_range(indices, ticked, stepped, deltas.drop_first());
    }
}

} // verus!
