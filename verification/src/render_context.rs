//! The frame scheduler: a fixed number of frame-in-flight slots, driven
//! round-robin, with the swapchain rebuilt whenever the surface goes stale.

use crate::buffer::{AllocationCreateInfo, MemoryUsage, SHARING_MODE_EXCLUSIVE};
use crate::extent::Extent3D;
use crate::graphics_pipeline::SAMPLE_COUNT_1;
use crate::image::{ImageCreateInfo, IMAGE_LAYOUT_UNDEFINED, IMAGE_TYPE_2D};
use crate::physical_device::PhysicalDevice;
use crate::render_frame::{
    lemma_cycle_consistent, FrameAction, FrameEvent, FrameState, RenderFrame,
};
use crate::setup::{
    details_chosen, draw_image_info, get_surface_details, presentable, swapchain_info,
    SurfaceDetails, DRAW_IMAGE_USAGE, FORMAT_R16G16B16A16_SFLOAT, IMAGE_TILING_OPTIMAL,
    MEMORY_PROPERTY_DEVICE_LOCAL, SWAPCHAIN_IMAGE_USAGE,
};
use crate::swapchain::{Swapchain, SwapchainCreateInfo, SwapchainSpec, COMPOSITE_ALPHA_OPAQUE};
use vstd::prelude::*;

verus! {

/// The slots of a scheduler, the slot whose turn it is, where that slot's
/// cycle stands, and the frames completed so far.
pub struct RenderContext {
    render_frames: Vec<RenderFrame>,
    current_frame: usize,
    frame_count: u64,
    state: FrameState,
    in_flight: usize,
}

/// What a [`RenderContext`] holds.
pub struct RenderContextSpec {
    pub frames: Seq<RenderFrame>,
    pub current_frame: usize,
    pub frame_count: u64,
    pub state: FrameState,
    /// The command buffers that were submitted and whose fence has not been
    /// seen signaled since, as counted at each submit and each wait.
    pub in_flight: usize,
}

/// How many of `frames` are submitted and not yet seen signaled.
pub open spec fn count_submitted(frames: Seq<RenderFrame>) -> nat
    decreases frames.len(),
{
    if frames.len() == 0 {
        0
    } else {
        count_submitted(frames.drop_last()) + (if frames.last().submitted {
            1nat
        } else {
            0nat
        })
    }
}

/// `n` fresh slots.
pub open spec fn fresh_frames(n: nat) -> Seq<RenderFrame> {
    Seq::new(n, |i: int| RenderFrame::fresh(i as usize))
}

impl RenderContextSpec {
    /// The slots are numbered by position, the slot whose turn it is agrees
    /// with the state of the cycle, every other slot is at rest, and the
    /// count of submitted command buffers is that of the slots.
    pub open spec fn wf(self) -> bool {
        &&& 0 < self.frames.len() <= usize::MAX
        &&& self.current_frame < self.frames.len()
        &&& forall|i: int| 0 <= i < self.frames.len() ==> (#[trigger] self.frames[i]).index == i
        &&& forall|i: int|
            0 <= i < self.frames.len() && i != self.current_frame ==> (
            #[trigger] self.frames[i]).consistent(FrameState::Idle)
        &&& self.frames[self.current_frame as int].consistent(self.state)
        &&& self.in_flight == count_submitted(self.frames)
    }

    /// The scheduler after `event`, and the action that the event calls for.
    pub open spec fn step(self, event: FrameEvent) -> (RenderContextSpec, FrameAction) {
        let current = self.frames[self.current_frame as int];
        let (frame, state, action) = current.cycle(self.state, event);
        let done = action == FrameAction::RequestRedraw;
        (
            RenderContextSpec {
                frames: self.frames.update(self.current_frame as int, frame),
                current_frame: if done {
                    ((self.current_frame + 1) % (self.frames.len() as int)) as usize
                } else {
                    self.current_frame
                },
                frame_count: if done && self.frame_count < u64::MAX {
                    (self.frame_count + 1) as u64
                } else {
                    self.frame_count
                },
                state,
                in_flight: (self.in_flight + (if frame.submitted {
                    1int
                } else {
                    0int
                }) - (if current.submitted {
                    1int
                } else {
                    0int
                })) as usize,
            },
            action,
        )
    }

    /// A rebuild can start: no cycle is under way, or the surface was found
    /// stale.
    pub open spec fn can_rebuild(self) -> bool {
        self.state == FrameState::Idle || self.state == FrameState::Rebuild
    }

    /// The scheduler after the swapchain was rebuilt: the device has gone
    /// idle, and every slot has new synchronization objects.
    pub open spec fn rebuilt(self) -> RenderContextSpec {
        RenderContextSpec {
            frames: fresh_frames(self.frames.len()),
            current_frame: self.current_frame,
            frame_count: self.frame_count,
            state: FrameState::Idle,
            in_flight: 0,
        }
    }
}

/// What a rebuild of the swapchain consists of: how the surface is
/// presented to, what the new swapchain is created from, and what each of
/// the images drawn into, one per slot, is created from.
#[derive(Clone, Copy, Debug, PartialEq, Eq, Structural)]
pub struct SwapchainRebuild {
    pub details: SurfaceDetails,
    pub swapchain: SwapchainCreateInfo,
    pub draw_image: ImageCreateInfo,
    pub draw_image_allocation: AllocationCreateInfo,
    pub draw_image_count: usize,
}

/// The rebuild for a surface presented to as `details` say: the swapchain
/// takes over from the swapchain `old_swapchain`, and swapchain and draw
/// images alike have the extent of `details`.
pub open spec fn rebuild_for(
    surface: u64,
    physical_device: &PhysicalDevice,
    details: SurfaceDetails,
    old_swapchain: u64,
    slots: usize,
) -> SwapchainRebuild {
    SwapchainRebuild {
        details,
        swapchain: SwapchainCreateInfo {
            flags: 0,
            surface,
            min_image_count: physical_device.surface_capabilities.ideal_image_count(),
            image_format: details.format.format,
            image_color_space: details.format.color_space,
            image_extent: details.extent,
            image_array_layers: 1,
            image_usage: SWAPCHAIN_IMAGE_USAGE,
            image_sharing_mode: SHARING_MODE_EXCLUSIVE,
            pre_transform: physical_device.surface_capabilities.current_transform,
            composite_alpha: COMPOSITE_ALPHA_OPAQUE,
            present_mode: details.present_mode,
            clipped: true,
            old_swapchain,
        },
        draw_image: ImageCreateInfo {
            flags: 0,
            image_type: IMAGE_TYPE_2D,
            format: FORMAT_R16G16B16A16_SFLOAT,
            extent: Extent3D { width: details.extent.width, height: details.extent.height, depth: 1 },
            mip_levels: 1,
            array_layers: 1,
            samples: SAMPLE_COUNT_1,
            tiling: IMAGE_TILING_OPTIMAL,
            usage: DRAW_IMAGE_USAGE,
            sharing_mode: SHARING_MODE_EXCLUSIVE,
            initial_layout: IMAGE_LAYOUT_UNDEFINED,
        },
        draw_image_allocation: AllocationCreateInfo {
            flags: 0,
            usage: MemoryUsage::AutoPreferDevice,
            required_flags: MEMORY_PROPERTY_DEVICE_LOCAL,
            preferred_flags: 0,
            memory_type_bits: 0,
            user_data: 0,
        },
        draw_image_count: slots,
    }
}

/// No more command buffers are submitted than there are slots.
pub proof fn lemma_count_bounded(frames: Seq<RenderFrame>)
    ensures
        count_submitted(frames) <= frames.len(),
    decreases frames.len(),
{
    if frames.len() > 0 {
        lemma_count_bounded(frames.drop_last());
    }
}

/// Replacing one slot changes the count by what that slot contributes.
pub proof fn lemma_count_update(frames: Seq<RenderFrame>, i: int, frame: RenderFrame)
    requires
        0 <= i < frames.len(),
    ensures
        count_submitted(frames.update(i, frame)) == count_submitted(frames) + (if frame.submitted {
            1int
        } else {
            0int
        }) - (if frames[i].submitted {
            1int
        } else {
            0int
        }),
    decreases frames.len(),
{
    let updated = frames.update(i, frame);
    if i == frames.len() - 1 {
        assert(updated.drop_last() =~= frames.drop_last());
    } else {
        assert(updated.drop_last() =~= frames.drop_last().update(i, frame));
        lemma_count_update(frames.drop_last(), i, frame);
    }
}

/// Among fresh slots none is submitted.
pub proof fn lemma_count_fresh(n: nat)
    ensures
        count_submitted(fresh_frames(n)) == 0,
    decreases n,
{
    if n > 0 {
        assert(fresh_frames(n).drop_last() =~= fresh_frames((n - 1) as nat));
        lemma_count_fresh((n - 1) as nat);
    }
}

/// A step keeps a well-formed scheduler well-formed.
pub proof fn lemma_step_wf(c: RenderContextSpec, event: FrameEvent)
    requires
        c.wf(),
    ensures
        c.step(event).0.wf(),
        c.step(event).0.frames.len() == c.frames.len(),
{
    let current = c.frames[c.current_frame as int];
    let (frame, state, action) = current.cycle(c.state, event);
    let next = c.step(event).0;
    lemma_cycle_consistent(current, c.state, event);
    lemma_count_update(c.frames, c.current_frame as int, frame);
    lemma_count_bounded(next.frames);
    lemma_count_bounded(c.frames);
    vstd::arithmetic::div_mod::lemma_mod_bound(c.current_frame + 1, c.frames.len() as int);
    assert forall|i: int| 0 <= i < next.frames.len() implies (#[trigger] next.frames[i]).index
        == i by {
        if i != c.current_frame {
            assert(next.frames[i] == c.frames[i]);
        }
    }
    assert forall|i: int|
        0 <= i < next.frames.len() && i != next.current_frame implies (
    #[trigger] next.frames[i]).consistent(FrameState::Idle) by {
        if i != c.current_frame {
            assert(next.frames[i] == c.frames[i]);
        }
    }
}

/// A rebuild leaves a well-formed scheduler well-formed.
pub proof fn lemma_rebuilt_wf(c: RenderContextSpec)
    requires
        c.wf(),
    ensures
        c.rebuilt().wf(),
{
    lemma_count_fresh(c.frames.len());
}

impl View for RenderContext {
    type V = RenderContextSpec;

    closed spec fn view(&self) -> RenderContextSpec {
        RenderContextSpec {
            frames: self.render_frames@,
            current_frame: self.current_frame,
            frame_count: self.frame_count,
            state: self.state,
            in_flight: self.in_flight,
        }
    }
}

impl RenderContext {
    /// A scheduler with `max_frames_in_flight` fresh slots, the first of
    /// which has the first turn.
    pub fn new(max_frames_in_flight: usize) -> (r: RenderContext)
        requires
            max_frames_in_flight > 0,
        ensures
            r@ == (RenderContextSpec {
                frames: fresh_frames(max_frames_in_flight as nat),
                current_frame: 0,
                frame_count: 0,
                state: FrameState::Idle,
                in_flight: 0,
            }),
            r@.wf(),
    {
        let mut render_frames: Vec<RenderFrame> = Vec::new();
        let mut i: usize = 0;
        while i < max_frames_in_flight
            invariant
                i <= max_frames_in_flight,
                render_frames@ == fresh_frames(i as nat),
            decreases max_frames_in_flight - i,
        {
            render_frames.push(RenderFrame::new(i));
            assert(render_frames@ =~= fresh_frames((i + 1) as nat));
            i = i + 1;
        }
        proof {
            lemma_count_fresh(max_frames_in_flight as nat);
        }
        RenderContext {
            render_frames,
            current_frame: 0,
            frame_count: 0,
            state: FrameState::Idle,
            in_flight: 0,
        }
    }

    /// Takes the cycle of the current slot one step further, moves on to the
    /// next slot when a frame is done, and keeps count of the command
    /// buffers in flight.
    pub fn step(&mut self, event: FrameEvent) -> (action: FrameAction)
        requires
            old(self)@.wf(),
        ensures
            (final(self)@, action) == old(self)@.step(event),
            final(self)@.wf(),
            final(self)@.in_flight <= final(self)@.frames.len(),
            final(self)@.frames.len() == old(self)@.frames.len(),
    {
        proof {
            lemma_step_wf(self@, event);
            lemma_count_bounded(self@.frames);
            lemma_count_bounded(self@.step(event).0.frames);
            lemma_count_update(
                self@.frames,
                self.current_frame as int,
                self@.frames[self.current_frame as int].cycle(self.state, event).0,
            );
        }
        let slots = self.render_frames.len();
        let mut frame = self.render_frames[self.current_frame];
        let was_submitted = frame.submitted;
        let (state, action) = frame.draw_frame(self.state, event);
        self.render_frames.set(self.current_frame, frame);
        if frame.submitted && !was_submitted {
            self.in_flight = self.in_flight + 1;
        } else if !frame.submitted && was_submitted {
            self.in_flight = self.in_flight - 1;
        }
        self.state = state;
        match action {
            FrameAction::RequestRedraw => {
                self.current_frame = if self.current_frame + 1 == slots {
                    0
                } else {
                    self.current_frame + 1
                };
                if self.frame_count < u64::MAX {
                    self.frame_count = self.frame_count + 1;
                }
                proof {
                    let n = slots as int;
                    let c = old(self).current_frame as int;
                    if c + 1 == n {
                        vstd::arithmetic::div_mod::lemma_mod_self_0(n);
                    } else {
                        vstd::arithmetic::div_mod::lemma_small_mod((c + 1) as nat, n as nat);
                    }
                }
            },
            _ => {},
        }
        action
    }

    /// Asks for the next frame: the answer is the wait on the fence of the
    /// slot whose turn it is, or a refusal while a cycle is under way, a
    /// rebuild is due or the device has failed.
    pub fn draw_next_frame(&mut self) -> (action: FrameAction)
        requires
            old(self)@.wf(),
        ensures
            (final(self)@, action) == old(self)@.step(FrameEvent::Begin),
            final(self)@ == old(self)@,
            action == (if old(self)@.state == FrameState::Idle {
                FrameAction::WaitFence { slot: old(self)@.current_frame }
            } else {
                FrameAction::Rejected
            }),
    {
        let action = self.step(FrameEvent::Begin);
        assert(self@.frames =~= old(self)@.frames);
        action
    }

    /// Plans the rebuild of the swapchain for a window of `width` by
    /// `height` pixels, which is to happen after the device has gone idle,
    /// and records it: `old_swapchain` is handed over to the new swapchain
    /// and retired, and every slot starts over with new synchronization
    /// objects. The new swapchain and every image drawn into have the
    /// extent that the surface dictates or else the window's, moved into the
    /// range that the surface allows. Nothing is planned, and nothing
    /// changes, while a cycle is under way, after the device has failed, and
    /// where the surface offers no present mode or no format.
    pub fn recreate_swapchain(
        &mut self,
        width: u32,
        height: u32,
        surface: u64,
        physical_device: &PhysicalDevice,
        old_swapchain: &mut Swapchain,
    ) -> (r: Option<SwapchainRebuild>)
        requires
            old(self)@.wf(),
            physical_device.surface_capabilities.wf(),
        ensures
            final(self)@.wf(),
            r is Some == (old(self)@.can_rebuild() && presentable(physical_device)),
            r is Some ==> {
                &&& details_chosen(physical_device, width, height, r->0.details)
                &&& r->0 == rebuild_for(
                    surface,
                    physical_device,
                    r->0.details,
                    old(old_swapchain)@.handle,
                    old(self)@.frames.len() as usize,
                )
                &&& r->0.swapchain.image_extent == physical_device.surface_capabilities.extent_for(
                    width,
                    height,
                )
                &&& r->0.draw_image.extent == (Extent3D {
                    width: r->0.swapchain.image_extent.width,
                    height: r->0.swapchain.image_extent.height,
                    depth: 1,
                })
                &&& final(self)@ == old(self)@.rebuilt()
                &&& final(old_swapchain)@ == (SwapchainSpec {
                    retired: true,
                    ..old(old_swapchain)@
                })
            },
            r is None ==> final(self)@ == old(self)@ && final(old_swapchain)@ == old(
                old_swapchain,
            )@,
    {
        match self.state {
            FrameState::Idle | FrameState::Rebuild => {},
            _ => {
                return None;
            },
        }
        let details = match get_surface_details(physical_device, width, height) {
            Some(d) => d,
            None => {
                return None;
            },
        };
        let slots = self.render_frames.len();
        let swapchain = swapchain_info(surface, physical_device, &details, Some(old_swapchain));
        let (draw_image, draw_image_allocation) = draw_image_info(details.extent.flat());
        let mut render_frames: Vec<RenderFrame> = Vec::new();
        let mut i: usize = 0;
        while i < slots
            invariant
                i <= slots,
                render_frames@ == fresh_frames(i as nat),
            decreases slots - i,
        {
            render_frames.push(RenderFrame::new(i));
            assert(render_frames@ =~= fresh_frames((i + 1) as nat));
            i = i + 1;
        }
        proof {
            lemma_rebuilt_wf(self@);
        }
        self.render_frames = render_frames;
        self.state = FrameState::Idle;
        self.in_flight = 0;
        Some(
            SwapchainRebuild {
                details,
                swapchain,
                draw_image,
                draw_image_allocation,
                draw_image_count: slots,
            },
        )
    }

    /// The number of slots.
    pub fn max_frames_in_flight(&self) -> (r: usize)
        ensures
            r == self@.frames.len(),
    {
        self.render_frames.len()
    }

    /// The slot whose turn it is.
    pub fn current_frame(&self) -> (r: usize)
        ensures
            r == self@.current_frame,
    {
        self.current_frame
    }

    /// The frames completed so far.
    pub fn frame_count(&self) -> (r: u64)
        ensures
            r == self@.frame_count,
    {
        self.frame_count
    }

    /// Where the cycle of the current slot stands.
    pub fn state(&self) -> (r: FrameState)
        ensures
            r == self@.state,
    {
        self.state
    }

    /// The command buffers that are submitted and not yet known to have
    /// completed.
    pub fn frames_in_flight(&self) -> (r: usize)
        ensures
            r == self@.in_flight,
    {
        self.in_flight
    }

    /// The slot at position `index`, if there is one.
    pub fn frame(&self, index: usize) -> (r: Option<RenderFrame>)
        ensures
            r == (if index < self@.frames.len() {
                Some(self@.frames[index as int])
            } else {
                None
            }),
    {
        if index < self.render_frames.len() {
            Some(self.render_frames[index])
        } else {
            None
        }
    }
}

} // verus!
