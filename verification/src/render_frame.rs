//! One frame-in-flight slot and the cycle it runs through: throttle, acquire,
//! reset, record, submit, present. The slot decides; whoever drives it
//! performs the action it is handed and reports what came of it.

use vstd::prelude::*;

verus! {

/// The result code with which acquire and present report a surface that no
/// longer matches the window.
pub const ERROR_OUT_OF_DATE: i32 = -1000001004;

/// Where the cycle of the current slot stands.
#[derive(Clone, Copy, Debug, PartialEq, Eq, Structural)]
pub enum FrameState {
    /// No cycle is under way.
    Idle,
    /// The slot's fence has signaled; an image has been asked for.
    Acquiring,
    /// An image was acquired; the commands are being recorded.
    Recording,
    /// The commands were handed to the queue.
    Submitted,
    /// Presentation of the image was asked for.
    Presenting,
    /// The surface is stale: the swapchain must be rebuilt before anything
    /// else happens.
    Rebuild,
    /// The device reported an error that has no recovery.
    Failed,
}

/// What the driver of the frame loop reports.
#[derive(Clone, Copy, Debug, PartialEq, Eq, Structural)]
pub enum FrameEvent {
    /// The next frame is wanted.
    Begin,
    /// The wait on the slot's fence has returned.
    FenceSignaled,
    /// The swapchain handed out an image.
    Acquired { image_index: u32, suboptimal: bool },
    /// The swapchain refused to hand out an image.
    AcquireFailed { code: i32 },
    /// The fence and the command buffer were reset, and the commands of the
    /// frame recorded.
    Recorded,
    /// The queue took the commands.
    Submitted,
    /// The queue took the request to present.
    Presented { suboptimal: bool },
    /// The queue refused the request to present.
    PresentFailed { code: i32 },
}

/// What the driver of the frame loop is to do next.
#[derive(Clone, Copy, Debug, PartialEq, Eq, Structural)]
pub enum FrameAction {
    /// Block until the fence of `slot` has signaled.
    WaitFence { slot: usize },
    /// Ask the swapchain for the next image, to signal the slot's
    /// image-available semaphore.
    Acquire { slot: usize },
    /// Reset the slot's fence and command buffer and record the frame into
    /// the image `image_index`.
    Record { slot: usize, image_index: u32 },
    /// Submit the slot's command buffer: wait for image-available, signal
    /// render-finished and the slot's fence.
    Submit { slot: usize },
    /// Present the image, waiting for render-finished.
    Present { slot: usize, image_index: u32 },
    /// The frame is on its way; ask for the next redraw.
    RequestRedraw,
    /// Rebuild the swapchain.
    Rebuild,
    /// Give up with the device's result code.
    Fatal { code: i32 },
    /// The event does not belong to the state the cycle is in; nothing
    /// changed.
    Rejected,
}

/// One frame-in-flight slot: what the host knows of its fence, its command
/// buffer and its two semaphores.
#[derive(Clone, Copy, Debug, PartialEq, Eq, Structural)]
pub struct RenderFrame {
    /// The position of the slot among the slots.
    pub index: usize,
    /// The fence was last seen signaled and has not been reset since.
    pub fence_signaled: bool,
    /// The command buffer was submitted and its fence has not been seen
    /// signaled since.
    pub submitted: bool,
    /// A signal of the image-available semaphore is queued that nothing
    /// waits for yet.
    pub image_available: bool,
    /// A signal of the render-finished semaphore is queued that nothing
    /// waits for yet.
    pub render_finished: bool,
    /// The image that the cycle under way renders into.
    pub image_index: u32,
}

impl RenderFrame {
    /// A slot as it is created: the fence signaled, nothing queued.
    pub open spec fn fresh(index: usize) -> RenderFrame {
        RenderFrame {
            index,
            fence_signaled: true,
            submitted: false,
            image_available: false,
            render_finished: false,
            image_index: 0,
        }
    }

    /// What holds of a slot while its cycle is in `state`.
    pub open spec fn consistent(self, state: FrameState) -> bool {
        match state {
            FrameState::Idle => self.fence_signaled != self.submitted && !self.image_available
                && !self.render_finished,
            FrameState::Acquiring => self.fence_signaled && !self.submitted
                && !self.image_available && !self.render_finished,
            FrameState::Recording => !self.fence_signaled && !self.submitted
                && self.image_available && !self.render_finished,
            FrameState::Submitted => !self.fence_signaled && self.submitted
                && !self.image_available && self.render_finished,
            FrameState::Presenting => !self.fence_signaled && self.submitted
                && !self.image_available && !self.render_finished,
            FrameState::Rebuild | FrameState::Failed => self.submitted ==> !self.fence_signaled,
        }
    }

    /// One step of the cycle: the slot, the state and the action that follow
    /// from the event `event` arriving in the state `state`.
    pub open spec fn cycle(self, state: FrameState, event: FrameEvent) -> (
        RenderFrame,
        FrameState,
        FrameAction,
    ) {
        match (state, event) {
            (FrameState::Idle, FrameEvent::Begin) => (
                self,
                FrameState::Idle,
                FrameAction::WaitFence { slot: self.index },
            ),
            (FrameState::Idle, FrameEvent::FenceSignaled) => (
                RenderFrame { fence_signaled: true, submitted: false, ..self },
                FrameState::Acquiring,
                FrameAction::Acquire { slot: self.index },
            ),
            (FrameState::Acquiring, FrameEvent::Acquired { image_index, suboptimal }) => if suboptimal {
                (RenderFrame { image_available: true, ..self }, FrameState::Rebuild, FrameAction::Rebuild)
            } else {
                (
                    RenderFrame { fence_signaled: false, image_available: true, image_index, ..self },
                    FrameState::Recording,
                    FrameAction::Record { slot: self.index, image_index },
                )
            },
            (FrameState::Acquiring, FrameEvent::AcquireFailed { code }) => if code
                == ERROR_OUT_OF_DATE {
                (self, FrameState::Rebuild, FrameAction::Rebuild)
            } else {
                (self, FrameState::Failed, FrameAction::Fatal { code })
            },
            (FrameState::Recording, FrameEvent::Recorded) => (
                RenderFrame {
                    submitted: true,
                    image_available: false,
                    render_finished: true,
                    ..self
                },
                FrameState::Submitted,
                FrameAction::Submit { slot: self.index },
            ),
            (FrameState::Submitted, FrameEvent::Submitted) => (
                RenderFrame { render_finished: false, ..self },
                FrameState::Presenting,
                FrameAction::Present { slot: self.index, image_index: self.image_index },
            ),
            (FrameState::Presenting, FrameEvent::Presented { suboptimal }) => if suboptimal {
                (self, FrameState::Rebuild, FrameAction::Rebuild)
            } else {
                (self, FrameState::Idle, FrameAction::RequestRedraw)
            },
            (FrameState::Presenting, FrameEvent::PresentFailed { code }) => if code
                == ERROR_OUT_OF_DATE {
                (self, FrameState::Rebuild, FrameAction::Rebuild)
            } else {
                (self, FrameState::Failed, FrameAction::Fatal { code })
            },
            _ => (self, state, FrameAction::Rejected),
        }
    }

    /// The slot at position `index`, as it is created.
    pub fn new(index: usize) -> (r: RenderFrame)
        ensures
            r == RenderFrame::fresh(index),
    {
        RenderFrame {
            index,
            fence_signaled: true,
            submitted: false,
            image_available: false,
            render_finished: false,
            image_index: 0,
        }
    }

    /// Takes the cycle of this slot one step further: from the state `state`
    /// and the event `event` to the next state and the action to perform.
    pub fn draw_frame(&mut self, state: FrameState, event: FrameEvent) -> (r: (
        FrameState,
        FrameAction,
    ))
        ensures
            (*final(self), r.0, r.1) == old(self).cycle(state, event),
    {
        match (state, event) {
            (FrameState::Idle, FrameEvent::Begin) => (
                FrameState::Idle,
                FrameAction::WaitFence { slot: self.index },
            ),
            (FrameState::Idle, FrameEvent::FenceSignaled) => {
                self.fence_signaled = true;
                self.submitted = false;
                (FrameState::Acquiring, FrameAction::Acquire { slot: self.index })
            },
            (FrameState::Acquiring, FrameEvent::Acquired { image_index, suboptimal }) => {
                self.image_available = true;
                if suboptimal {
                    (FrameState::Rebuild, FrameAction::Rebuild)
                } else {
                    self.fence_signaled = false;
                    self.image_index = image_index;
                    (FrameState::Recording, FrameAction::Record { slot: self.index, image_index })
                }
            },
            (FrameState::Acquiring, FrameEvent::AcquireFailed { code }) => {
                if code == ERROR_OUT_OF_DATE {
                    (FrameState::Rebuild, FrameAction::Rebuild)
                } else {
                    (FrameState::Failed, FrameAction::Fatal { code })
                }
            },
            (FrameState::Recording, FrameEvent::Recorded) => {
                self.submitted = true;
                self.image_available = false;
                self.render_finished = true;
                (FrameState::Submitted, FrameAction::Submit { slot: self.index })
            },
            (FrameState::Submitted, FrameEvent::Submitted) => {
                self.render_finished = false;
                (
                    FrameState::Presenting,
                    FrameAction::Present { slot: self.index, image_index: self.image_index },
                )
            },
            (FrameState::Presenting, FrameEvent::Presented { suboptimal }) => {
                if suboptimal {
                    (FrameState::Rebuild, FrameAction::Rebuild)
                } else {
                    (FrameState::Idle, FrameAction::RequestRedraw)
                }
            },
            (FrameState::Presenting, FrameEvent::PresentFailed { code }) => {
                if code == ERROR_OUT_OF_DATE {
                    (FrameState::Rebuild, FrameAction::Rebuild)
                } else {
                    (FrameState::Failed, FrameAction::Fatal { code })
                }
            },
            _ => (state, FrameAction::Rejected),
        }
    }
}

/// Every step of the cycle leaves the slot in keeping with the state it
/// leads to.
pub proof fn lemma_cycle_consistent(frame: RenderFrame, state: FrameState, event: FrameEvent)
    requires
        frame.consistent(state),
    ensures
        frame.cycle(state, event).0.consistent(frame.cycle(state, event).1),
        frame.cycle(state, event).0.index == frame.index,
{
}

} // verus!
