use vstd::prelude::*;

verus! {

/// The frames of a sprite-sheet animation: `first..=last`, looping or played once.
#[derive(Debug, Clone, Copy)]
pub struct AnimationIndices {
    pub first: usize,
    pub last: usize,
    pub is_repeating: bool,
}

/// The frame an animation shows after one timer period.
pub open spec fn spec_next_frame(indices: AnimationIndices, index: usize) -> int {
    if indices.is_repeating {
        if index == indices.last {
            indices.first as int
        } else {
            index + 1
        }
    } else if index < indices.last {
        index + 1
    } else {
        index as int
    }
}

/// Moves an animation one frame on: a looping animation wraps from `last` back to `first`,
/// an animation played once stops on `last`.
pub fn next_frame(indices: &AnimationIndices, index: usize) -> (r: usize)
    requires
        indices.is_repeating && index != indices.last ==> index < usize::MAX,
    ensures
        r == spec_next_frame(*indices, index),
        index < indices.last ==> r == index + 1,
        index == indices.last && indices.is_repeating ==> r == indices.first,
        index >= indices.last && !indices.is_repeating ==> r == index,
{
    if indices.is_repeating {
        if index == indices.last {
            indices.first
        } else {
            index + 1
        }
    } else if index < indices.last {
        index + 1
    } else {
        index
    }
}

/// An animation that starts on one of its frames never leaves them, and one played once never
/// goes backward.
pub proof fn lemma_frames_stay_in_range(indices: AnimationIndices, index: usize)
    requires
        indices.first <= index <= indices.last,
    ensures
        indices.first <= spec_next_frame(indices, index) <= indices.last,
        !indices.is_repeating ==> index <= spec_next_frame(indices, index),
{
}

/// Before its last frame an animation, looping or played once, moves on by exactly one frame;
/// on its last frame a looping animation goes back to its first and one played once stays.
pub proof fn lemma_frame_steps(indices: AnimationIndices, index: usize)
    ensures
        index < indices.last ==> spec_next_frame(indices, index) == index + 1,
        index == indices.last && indices.is_repeating ==> spec_next_frame(indices, index)
            == indices.first,
        index >= indices.last && !indices.is_repeating ==> spec_next_frame(indices, index)
            == index,
{
}

/// Frame by frame, an animation played once climbs one frame at a time from any of its frames
/// to its last and stays there: `n` steps from frame `index` reach `min(index + n, last)`.
pub proof fn lemma_one_shot_reaches_last(indices: AnimationIndices, index: usize, n: nat)
    requires
        !indices.is_repeating,
        index <= indices.last,
    ensures
        frames_after(indices, index, n) == if index + n <= indices.last {
            index + n
        } else {
            indices.last as int
        },
    decreases n,
{
    if n > 0 {
        lemma_one_shot_reaches_last(indices, index, (n - 1) as nat);
        let m = frames_after(indices, index, (n - 1) as nat);
        assert(0 <= m <= indices.last);
        lemma_frame_steps(indices, m as usize);
    }
}

/// The frame shown `n` timer periods after frame `index`.
pub open spec fn frames_after(indices: AnimationIndices, index: usize, n: nat) -> int
    decreases n,
{
    if n == 0 {
        index as int
    } else {
        let m = frames_after(indices, index, (n - 1) as nat);
        if 0 <= m <= usize::MAX {
            spec_next_frame(indices, m as usize)
        } else {
            m
        }
    }
}

} // verus!
