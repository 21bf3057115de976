//! Acceptance of the decoded frame set.
//!
//! The sprite sheet is a fixed set of `FRAME_COUNT` images embedded in the
//! module and decoded exactly once at initialisation. Decoding is
//! all-or-nothing: the module starts only if every embedded image decoded
//! into a displayable pixel buffer, and a shortfall is a build error, not a
//! runtime condition. The decoder itself lives outside the verified core;
//! the core is handed the dimensions each decode reported and decides
//! whether the set is acceptable.

use vstd::prelude::*;

use crate::frame::FRAME_COUNT;

verus! {

/// The displayable properties of one decoded pixel buffer, as the decoder
/// reported them.
#[derive(Clone, Copy, Debug, PartialEq, Eq, Structural)]
pub struct FrameInfo {
    /// Width in pixels.
    pub width: i32,
    /// Height in pixels.
    pub height: i32,
}

/// A decoded buffer is displayable when both of its dimensions are positive.
pub open spec fn frame_valid(f: FrameInfo) -> bool {
    f.width > 0 && f.height > 0
}

/// A frame set is complete when all `FRAME_COUNT` embedded images decoded
/// into displayable buffers — no fewer, no more, none degenerate.
pub open spec fn frame_set_valid(frames: Seq<FrameInfo>) -> bool {
    frames.len() == FRAME_COUNT && forall|i: int| 0 <= i < frames.len() ==> frame_valid(frames[i])
}

/// Decides whether the decoded frame set may back the widget: exactly
/// `FRAME_COUNT` buffers, every one with positive dimensions. A false
/// answer means initialisation must abort.
pub fn frame_set_complete(frames: &Vec<FrameInfo>) -> (ok: bool)
    ensures
        ok == frame_set_valid(frames@),
{
    if frames.len() != FRAME_COUNT {
        return false;
    }
    let mut i: usize = 0;
    while i < frames.len()
        invariant
            0 <= i <= frames@.len(),
            frames@.len() == FRAME_COUNT,
            forall|j: int| 0 <= j < i ==> frame_valid(frames@[j]),
        decreases frames@.len() - i,
    {
        if frames[i].width <= 0 || frames[i].height <= 0 {
            return false;
        }
        i = i + 1;
    }
    true
}

} // verus!
