//! The frame counter: a monotonically increasing tick counter, starting at
//! 0 and incremented exactly once per confirmed simulation step.  Owned by
//! the frame scheduler; a rollback never changes it.

use vstd::prelude::*;

verus! {

/// The current simulation frame.
#[derive(Clone, Copy, PartialEq, Eq, Structural, Debug, Hash)]
pub struct FrameCount {
    pub frame: u32,
}

impl FrameCount {
    /// The counter at the start of a session.
    pub fn zero() -> (c: FrameCount)
        ensures
            c.frame == 0,
    {
        FrameCount { frame: 0 }
    }
}

/// Advances the frame counter by exactly one: the once-per-confirmed-step
/// increment that only the scheduler performs.
pub fn increase_frame_system(frame_count: &mut FrameCount)
    requires
        old(frame_count).frame < u32::MAX,
    ensures
        final(frame_count).frame == old(frame_count).frame + 1,
{
    frame_count.frame = frame_count.frame + 1;
}

} // verus!
