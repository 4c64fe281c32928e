//! The per-frame context that hands the tracked object's position from the
//! motion step to the label step.
//!
//! Each frame the motion step writes the object's new position, then the label
//! step takes it. Taking empties the context, so a label step can only ever
//! read a position written in its own frame, never one left from a frame before.
use vstd::prelude::*;

verus! {

/// The tracked object's position as written by the current frame's motion
/// step, until the label step takes it.
#[derive(Clone, Copy, Debug)]
pub struct FrameContext<P> {
    pending: Option<P>,
}

impl<P> FrameContext<P> {
    /// The position written in this frame and not yet taken, if any.
    pub closed spec fn pending(self) -> Option<P> {
        self.pending
    }

    /// The context after the motion step writes `position`.
    pub closed spec fn recorded(self, position: P) -> FrameContext<P> {
        FrameContext { pending: Some(position) }
    }

    /// The context after the label step has taken the pending position.
    pub closed spec fn taken(self) -> FrameContext<P> {
        FrameContext { pending: None }
    }

    /// A context in which no motion step has run yet.
    pub fn new() -> (r: FrameContext<P>)
        ensures
            r.pending() is None,
    {
        FrameContext { pending: None }
    }

    /// The motion step: writes this frame's position of the tracked object,
    /// over whatever was written before.
    pub fn record_motion(&mut self, position: P)
        ensures
            *final(self) == old(self).recorded(position),
            final(self).pending() == Some(position),
    {
        self.pending = Some(position);
    }

    /// The label step: hands out the position written in this frame, if the
    /// motion step ran, and empties the context for the next frame.
    pub fn take_for_label(&mut self) -> (r: Option<P>)
        ensures
            r == old(self).pending(),
            *final(self) == old(self).taken(),
            final(self).pending() is None,
    {
        let r = self.pending.take();
        r
    }
}

/// The label step of a frame reads the position that the motion step of the
/// same frame wrote, whatever any earlier frame left; and once taken, that
/// position is not handed out again in a later frame.
pub proof fn lemma_label_reads_current_frame<P>(ctx: FrameContext<P>, position: P)
    ensures
        ctx.recorded(position).pending() == Some(position),
        ctx.recorded(position).taken().pending() is None,
        ctx.taken().pending() is None,
{
}

} // verus!
