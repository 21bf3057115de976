//! Frame selection for the looping sprite-sheet animation.
//!
//! The animation is purely a function of the host's monotonic animation
//! clock: every `INTERVAL_US` microseconds the displayed frame advances by
//! one, wrapping around after `FRAME_COUNT` frames. No tick counter is kept,
//! so the animation stays visually continuous even when individual ticks are
//! delayed or dropped.

use vstd::prelude::*;

verus! {

/// Number of frames in the sprite sheet.
pub const FRAME_COUNT: usize = 5;

/// Microseconds between frame advances (one tick of the periodic task).
pub const INTERVAL_US: u64 = 200_000;

/// The frame that a running animation shows at clock time `time_us`.
pub open spec fn spec_frame_index(time_us: u64) -> int {
    (time_us as int / INTERVAL_US as int) % (FRAME_COUNT as int)
}

/// Every clock time maps to a frame index in `[0, FRAME_COUNT)`, so the
/// displayed buffer is always one of the pre-decoded frames.
pub proof fn lemma_frame_index_in_range(time_us: u64)
    ensures
        0 <= spec_frame_index(time_us) < FRAME_COUNT,
{
}

/// The frame a running animation shows at clock time `time_us`, computed as
/// the number of whole intervals elapsed, modulo the frame count.
pub fn frame_index(time_us: u64) -> (i: usize)
    ensures
        i == spec_frame_index(time_us),
        i < FRAME_COUNT,
{
    ((time_us / INTERVAL_US) % (FRAME_COUNT as u64)) as usize
}

} // verus!
