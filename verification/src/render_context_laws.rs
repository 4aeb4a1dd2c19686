//! What holds of the frame scheduler whatever its driver reports.

use crate::render_context::{
    lemma_count_bounded, lemma_count_update, lemma_rebuilt_wf, lemma_step_wf, RenderContextSpec,
};
use crate::render_frame::{FrameAction, FrameEvent, FrameState};
use vstd::prelude::*;

verus! {

/// One thing that can happen to a scheduler: its driver reports an event, or
/// asks for a rebuild of the swapchain, which takes place where a rebuild
/// can start.
pub enum FrameOp {
    Event(FrameEvent),
    Rebuild,
}

/// The scheduler after `op`.
pub open spec fn apply(c: RenderContextSpec, op: FrameOp) -> RenderContextSpec {
    match op {
        FrameOp::Event(event) => c.step(event).0,
        FrameOp::Rebuild => if c.can_rebuild() {
            c.rebuilt()
        } else {
            c
        },
    }
}

/// The scheduler after `ops`, one after the other.
pub open spec fn run(c: RenderContextSpec, ops: Seq<FrameOp>) -> RenderContextSpec
    decreases ops.len(),
{
    if ops.len() == 0 {
        c
    } else {
        run(apply(c, ops[0]), ops.drop_first())
    }
}

/// However many frames are submitted and in whatever order events arrive,
/// the command buffers that are submitted and not yet known to have
/// completed are never more than the slots.
pub proof fn lemma_in_flight_bounded(c: RenderContextSpec, ops: Seq<FrameOp>)
    requires
        c.wf(),
    ensures
        run(c, ops).wf(),
        run(c, ops).frames.len() == c.frames.len(),
        run(c, ops).in_flight <= c.frames.len(),
    decreases ops.len(),
{
    if ops.len() == 0 {
        lemma_count_bounded(c.frames);
    } else {
        match ops[0] {
            FrameOp::Event(event) => {
                lemma_step_wf(c, event);
            },
            FrameOp::Rebuild => {
                if c.can_rebuild() {
                    lemma_rebuilt_wf(c);
                }
            },
        }
        lemma_in_flight_bounded(apply(c, ops[0]), ops.drop_first());
    }
}

/// A command buffer is handed to the queue only for a slot whose earlier use
/// is known to have completed: whenever a step answers with a submit, the
/// slot was not in flight and its fence had been waited for and reset.
pub proof fn lemma_submit_is_throttled(c: RenderContextSpec, event: FrameEvent)
    requires
        c.wf(),
        c.step(event).1 is Submit,
    ensures
        c.step(event).1 == (FrameAction::Submit { slot: c.current_frame }),
        !c.frames[c.current_frame as int].submitted,
        c.state == FrameState::Recording,
        c.in_flight < c.frames.len(),
        c.step(event).0.in_flight == c.in_flight + 1,
{
    let frame = c.frames[c.current_frame as int].cycle(c.state, event).0;
    lemma_step_wf(c, event);
    lemma_count_update(c.frames, c.current_frame as int, frame);
    lemma_count_bounded(c.frames.update(c.current_frame as int, frame));
}

/// Once the surface was found stale, nothing happens until the swapchain is
/// rebuilt: every event is rejected and leaves the scheduler as it was, so
/// that one stale signal calls for one rebuild.
pub proof fn lemma_stale_waits_for_rebuild(c: RenderContextSpec, event: FrameEvent)
    requires
        c.wf(),
        c.state == FrameState::Rebuild,
    ensures
        c.step(event) == (c, FrameAction::Rejected),
{
    assert(c.step(event).0.frames =~= c.frames);
}

/// A stale surface found at acquire ends the cycle before the fence is
/// reset and before anything is recorded or submitted.
pub proof fn lemma_stale_acquire_aborts(c: RenderContextSpec, code: i32)
    requires
        c.wf(),
        c.state == FrameState::Acquiring,
        code == crate::render_frame::ERROR_OUT_OF_DATE,
    ensures
        c.step(FrameEvent::AcquireFailed { code }).1 == FrameAction::Rebuild,
        c.step(FrameEvent::AcquireFailed { code }).0 == (RenderContextSpec {
            state: FrameState::Rebuild,
            ..c
        }),
        c.frames[c.current_frame as int].fence_signaled,
        !c.frames[c.current_frame as int].submitted,
{
    assert(c.step(FrameEvent::AcquireFailed { code }).0.frames =~= c.frames);
}

} // verus!
