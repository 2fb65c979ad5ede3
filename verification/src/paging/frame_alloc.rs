//! The source of frames for new translation tables.

use super::frame::Frame;
use super::PageSize;
use vstd::prelude::*;

verus! {

/// A source of unused frames.
///
/// What an allocator answers is a matter of its state alone: `spec_answer` tells the answers
/// of the calls to come, and each call moves on by one.
pub trait FrameAllocator<S: PageSize> {
    /// What the call answers that comes after `calls` further calls. Nothing is known of the
    /// answers of an allocator that does not say what they are.
    open spec fn spec_answer(&self, calls: nat) -> Option<Frame<S>> {
        arbitrary()
    }

    /// Hands out a frame that nothing else uses, or `None` when no frame is left.
    fn allocate_frame(&mut self) -> (r: Option<Frame<S>>)
        ensures
            r == old(self).spec_answer(0),
            forall|calls: nat| #[trigger]
                final(self).spec_answer(calls) == old(self).spec_answer(calls + 1),
    ;
}

} // verus!
