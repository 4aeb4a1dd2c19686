//! What a frame records: the draw image is cleared and drawn into, then
//! blitted into the acquired swapchain image, which is left ready to be
//! presented.

use crate::command::{
    BlitImageInfo, CommandSpec, ImageBlit, ImageSubresourceLayers, RenderingAttachmentInfo,
    FILTER_LINEAR, IMAGE_ASPECT_COLOR, IMAGE_LAYOUT_COLOR_ATTACHMENT_OPTIMAL,
    IMAGE_LAYOUT_GENERAL, IMAGE_LAYOUT_PRESENT_SRC, IMAGE_LAYOUT_TRANSFER_DST_OPTIMAL,
    IMAGE_LAYOUT_TRANSFER_SRC_OPTIMAL, REMAINING_ARRAY_LAYERS, REMAINING_MIP_LEVELS,
};
use crate::command_buffer::{
    buffer_handles, buffer_offsets, transition_barrier, CommandBuffer, CommandBufferSpec,
    RecordingState,
};
use crate::descriptor_set::DescriptorSet;
use crate::extent::{Extent2D, Extent3D, Offset3D, Rect2D};
use crate::image::{Image, IMAGE_LAYOUT_UNDEFINED};
use crate::image_view::ImageSubresourceRange;
use crate::queue::{CommandBufferSubmitInfo, PresentInfo, Queue, SemaphoreSubmitInfo, SubmitInfo};
use crate::raw_handle::HasRawVkHandle;
use crate::render_frame::RenderFrame;
use crate::render_pass::PIPELINE_BIND_POINT_GRAPHICS;
use vstd::prelude::*;

verus! {

/// The usage flag of a command buffer that is submitted once per recording.
pub const COMMAND_BUFFER_USAGE_ONE_TIME_SUBMIT: u32 = 0x1;

pub const ATTACHMENT_LOAD_OP_DONT_CARE: i32 = 2;

pub const ATTACHMENT_STORE_OP_STORE: i32 = 0;

pub const INDEX_TYPE_UINT16: i32 = 0;

/// The largest extent component that fits a signed offset.
pub const MAX_OFFSET: u32 = 0x7FFF_FFFF;

/// The stage at which a frame waits for its image: the writing of color
/// attachments.
pub const PIPELINE_STAGE_COLOR_ATTACHMENT_OUTPUT: u64 = 0x400;

/// The stages after which a frame signals that it is rendered: all of
/// graphics.
pub const PIPELINE_STAGE_ALL_GRAPHICS: u64 = 0x8000;

/// The native objects of one slot that take part in submitting and
/// presenting its frame.
#[derive(Clone, Copy, Debug, PartialEq, Eq, Structural)]
pub struct FrameSync {
    pub command_buffer: u64,
    /// Signaled when the acquired image is ready to be rendered into.
    pub image_available: u64,
    /// Signaled when the frame is rendered.
    pub render_finished: u64,
    /// Signaled when the device is done with the slot.
    pub in_flight: u64,
}

/// Why a frame could not be recorded.
#[derive(Clone, Copy, Debug, PartialEq, Eq, Structural)]
pub enum FrameRecordError {
    /// The command buffer was not reset.
    NotReset,
    /// An image is too large for the corners of a blit to be expressed.
    ExtentTooLarge,
}

/// What a frame draws with.
#[derive(Debug)]
pub struct FrameResources {
    /// The extent of the swapchain.
    pub extent: Extent2D,
    /// The image of this slot that is drawn into.
    pub draw_image: Image,
    /// The view of `draw_image` that is rendered to.
    pub draw_image_view: u64,
    /// The acquired image of the swapchain.
    pub swapchain_image: Image,
    pub pipeline: u64,
    pub pipeline_layout: u64,
    /// The descriptor set of this slot.
    pub descriptor_set: DescriptorSet,
    pub index_buffer: u64,
    /// The vertex buffers, bound from binding 0 on at offset 0.
    pub vertex_buffers: Vec<u64>,
    pub index_count: u32,
}

/// The whole of a flat image of the extent `extent`, as corners of a blit.
pub open spec fn whole_image(extent: Extent3D) -> (Offset3D, Offset3D) {
    (
        Offset3D { x: 0, y: 0, z: 0 },
        Offset3D { x: extent.width as i32, y: extent.height as i32, z: 1 },
    )
}

/// The first mip level and array layer of the color aspect.
pub open spec fn color_layer() -> ImageSubresourceLayers {
    ImageSubresourceLayers {
        aspect_mask: IMAGE_ASPECT_COLOR,
        mip_level: 0,
        base_array_layer: 0,
        layer_count: 1,
    }
}

/// The blit that scales all of `src` onto all of `dst`.
pub open spec fn image_to_image_blit(src: Image, dst: Image) -> BlitImageInfo {
    BlitImageInfo {
        src_image: src.handle,
        src_image_layout: IMAGE_LAYOUT_TRANSFER_SRC_OPTIMAL,
        dst_image: dst.handle,
        dst_image_layout: IMAGE_LAYOUT_TRANSFER_DST_OPTIMAL,
        filter: FILTER_LINEAR,
        region: ImageBlit {
            src_subresource: color_layer(),
            src_start: whole_image(src.extent).0,
            src_end: whole_image(src.extent).1,
            dst_subresource: color_layer(),
            dst_start: whole_image(dst.extent).0,
            dst_end: whole_image(dst.extent).1,
        },
    }
}

/// The extents of both images fit the corners of a blit.
pub open spec fn blittable(src: Image, dst: Image) -> bool {
    &&& src.extent.width <= MAX_OFFSET
    &&& src.extent.height <= MAX_OFFSET
    &&& dst.extent.width <= MAX_OFFSET
    &&& dst.extent.height <= MAX_OFFSET
}

/// The attachment that a frame renders to: the view of the draw image, whose
/// former contents do not matter and whose new contents are kept.
pub open spec fn frame_attachment(view: u64) -> RenderingAttachmentInfo {
    RenderingAttachmentInfo {
        image_view: view,
        image_layout: IMAGE_LAYOUT_COLOR_ATTACHMENT_OPTIMAL,
        resolve_mode: 0,
        resolve_image_view: 0,
        resolve_image_layout: IMAGE_LAYOUT_UNDEFINED,
        load_op: ATTACHMENT_LOAD_OP_DONT_CARE,
        store_op: ATTACHMENT_STORE_OP_STORE,
    }
}

/// All of a surface of the extent `extent`.
pub open spec fn whole_area(extent: Extent2D) -> Rect2D {
    Rect2D { x: 0, y: 0, extent }
}

/// Every mip level and array layer of the color aspect.
pub open spec fn whole_color_range() -> ImageSubresourceRange {
    ImageSubresourceRange {
        aspect_mask: IMAGE_ASPECT_COLOR,
        base_mip_level: 0,
        level_count: REMAINING_MIP_LEVELS,
        base_array_layer: 0,
        layer_count: REMAINING_ARRAY_LAYERS,
    }
}

/// Each of `buffers` paired with offset 0.
pub open spec fn at_offset_zero(buffers: Seq<u64>) -> Seq<(u64, u64)> {
    Seq::new(buffers.len(), |i: int| (buffers[i], 0u64))
}

/// The commands of one frame, in order.
pub open spec fn frame_commands(
    extent: Extent2D,
    draw_image: Image,
    draw_image_view: u64,
    swapchain_image: Image,
    pipeline: u64,
    pipeline_layout: u64,
    descriptor_set: u64,
    index_buffer: u64,
    vertex_buffers: Seq<u64>,
    index_count: u32,
) -> Seq<CommandSpec> {
    seq![
        CommandSpec::PipelineBarrier {
            barrier: transition_barrier(
                draw_image.handle,
                IMAGE_LAYOUT_UNDEFINED,
                IMAGE_LAYOUT_GENERAL,
            ),
        },
        CommandSpec::ClearColorImage {
            image: draw_image.handle,
            image_layout: IMAGE_LAYOUT_GENERAL,
            ranges: seq![whole_color_range()],
        },
        CommandSpec::PipelineBarrier {
            barrier: transition_barrier(
                draw_image.handle,
                IMAGE_LAYOUT_GENERAL,
                IMAGE_LAYOUT_COLOR_ATTACHMENT_OPTIMAL,
            ),
        },
        CommandSpec::BeginRendering {
            flags: 0,
            render_area: whole_area(extent),
            layer_count: 1,
            view_mask: 0,
            color_attachments: seq![frame_attachment(draw_image_view)],
            depth_attachment: None,
            stencil_attachment: None,
        },
        CommandSpec::BindPipeline { bind_point: PIPELINE_BIND_POINT_GRAPHICS, pipeline },
        CommandSpec::SetViewport { first_viewport: 0, viewport_count: 1 },
        CommandSpec::SetScissor { first_scissor: 0, scissors: seq![whole_area(extent)] },
        CommandSpec::BindIndexBuffer {
            buffer: index_buffer,
            offset: 0,
            index_type: INDEX_TYPE_UINT16,
        },
        CommandSpec::BindVertexBuffers {
            first_binding: 0,
            buffers: buffer_handles(at_offset_zero(vertex_buffers)),
            offsets: buffer_offsets(at_offset_zero(vertex_buffers)),
        },
        CommandSpec::BindDescriptorSets {
            bind_point: PIPELINE_BIND_POINT_GRAPHICS,
            layout: pipeline_layout,
            first_set: 0,
            descriptor_sets: seq![descriptor_set],
        },
        CommandSpec::DrawIndexed {
            index_count,
            instance_count: 1,
            first_index: 0,
            vertex_offset: 0,
            first_instance: 0,
        },
        CommandSpec::EndRendering,
        CommandSpec::PipelineBarrier {
            barrier: transition_barrier(
                draw_image.handle,
                IMAGE_LAYOUT_COLOR_ATTACHMENT_OPTIMAL,
                IMAGE_LAYOUT_TRANSFER_SRC_OPTIMAL,
            ),
        },
        CommandSpec::PipelineBarrier {
            barrier: transition_barrier(
                swapchain_image.handle,
                IMAGE_LAYOUT_UNDEFINED,
                IMAGE_LAYOUT_TRANSFER_DST_OPTIMAL,
            ),
        },
        CommandSpec::BlitImage { info: image_to_image_blit(draw_image, swapchain_image) },
        CommandSpec::PipelineBarrier {
            barrier: transition_barrier(
                swapchain_image.handle,
                IMAGE_LAYOUT_TRANSFER_DST_OPTIMAL,
                IMAGE_LAYOUT_PRESENT_SRC,
            ),
        },
    ]
}

/// Nothing is recorded in the command buffer, and nothing is being recorded.
pub open spec fn was_reset(c: CommandBufferSpec) -> bool {
    c.state == RecordingState::Initial && c.commands.len() == 0
}

/// What recording a frame with `resources` leaves in a command buffer that
/// was reset.
pub open spec fn recorded_frame(before: CommandBufferSpec, resources: &FrameResources) -> CommandBufferSpec {
    CommandBufferSpec {
        state: RecordingState::Executable,
        usage: COMMAND_BUFFER_USAGE_ONE_TIME_SUBMIT,
        commands: frame_commands(
            resources.extent,
            resources.draw_image,
            resources.draw_image_view,
            resources.swapchain_image,
            resources.pipeline,
            resources.pipeline_layout,
            resources.descriptor_set.handle,
            resources.index_buffer,
            resources.vertex_buffers@,
            resources.index_count,
        ),
        ..before
    }
}

/// The corners of all of a flat image of the extent `extent`.
pub fn whole_image_corners(extent: Extent3D) -> (r: (Offset3D, Offset3D))
    requires
        extent.width <= MAX_OFFSET,
        extent.height <= MAX_OFFSET,
    ensures
        r == whole_image(extent),
{
    (
        Offset3D { x: 0, y: 0, z: 0 },
        Offset3D { x: extent.width as i32, y: extent.height as i32, z: 1 },
    )
}

/// Whether the extents of both images fit the corners of a blit.
pub fn can_blit(src: &Image, dst: &Image) -> (r: bool)
    ensures
        r == blittable(*src, *dst),
{
    src.extent.width <= MAX_OFFSET && src.extent.height <= MAX_OFFSET && dst.extent.width
        <= MAX_OFFSET && dst.extent.height <= MAX_OFFSET
}

impl RenderFrame {
    /// Records the blit that scales all of `src`, which is in the transfer
    /// source layout, onto all of `dst`, which is in the transfer
    /// destination layout. Nothing is recorded where an image is too large
    /// or the command buffer is not recording.
    pub fn copy_image_to_image(cmd: &mut CommandBuffer, src: &Image, dst: &Image) -> (r: Result<
        (),
        FrameRecordError,
    >)
        ensures
            r == (if old(cmd)@.state != RecordingState::Recording {
                Err::<(), FrameRecordError>(FrameRecordError::NotReset)
            } else if !blittable(*src, *dst) {
                Err::<(), FrameRecordError>(FrameRecordError::ExtentTooLarge)
            } else {
                Ok::<(), FrameRecordError>(())
            }),
            final(cmd)@ == (if r is Ok {
                old(cmd)@.record(CommandSpec::BlitImage { info: image_to_image_blit(*src, *dst) }).0
            } else {
                old(cmd)@
            }),
    {
        match cmd.state() {
            RecordingState::Recording => {},
            _ => {
                return Err(FrameRecordError::NotReset);
            },
        }
        if !can_blit(src, dst) {
            return Err(FrameRecordError::ExtentTooLarge);
        }
        let (src_start, src_end) = whole_image_corners(src.extent());
        let (dst_start, dst_end) = whole_image_corners(dst.extent());
        let layer = ImageSubresourceLayers {
            aspect_mask: IMAGE_ASPECT_COLOR,
            mip_level: 0,
            base_array_layer: 0,
            layer_count: 1,
        };
        let info = BlitImageInfo {
            src_image: src.get_vk_handle(),
            src_image_layout: IMAGE_LAYOUT_TRANSFER_SRC_OPTIMAL,
            dst_image: dst.get_vk_handle(),
            dst_image_layout: IMAGE_LAYOUT_TRANSFER_DST_OPTIMAL,
            filter: FILTER_LINEAR,
            region: ImageBlit {
                src_subresource: layer,
                src_start,
                src_end,
                dst_subresource: layer,
                dst_start,
                dst_end,
            },
        };
        let _ = cmd.blit_image(&info);
        Ok(())
    }

    /// Records the frame into `cmd`, which was reset: the draw image is
    /// made writable, cleared, drawn into, and blitted into the swapchain
    /// image, which is left in the layout for presentation. Nothing is
    /// recorded where `cmd` was not reset or an image is too large to blit.
    pub fn record_commands(cmd: &mut CommandBuffer, resources: &FrameResources) -> (r: Result<
        (),
        FrameRecordError,
    >)
        ensures
            r == (if !was_reset(old(cmd)@) {
                Err::<(), FrameRecordError>(FrameRecordError::NotReset)
            } else if !blittable(resources.draw_image, resources.swapchain_image) {
                Err::<(), FrameRecordError>(FrameRecordError::ExtentTooLarge)
            } else {
                Ok::<(), FrameRecordError>(())
            }),
            final(cmd)@ == (if r is Ok {
                recorded_frame(old(cmd)@, resources)
            } else {
                old(cmd)@
            }),
    {
        match cmd.state() {
            RecordingState::Initial => {},
            _ => {
                return Err(FrameRecordError::NotReset);
            },
        }
        if cmd.commands().len() != 0 {
            return Err(FrameRecordError::NotReset);
        }
        if !can_blit(&resources.draw_image, &resources.swapchain_image) {
            return Err(FrameRecordError::ExtentTooLarge);
        }
        let ghost before = cmd@;
        let extent = resources.extent;
        let area = Rect2D { x: 0, y: 0, extent };
        let draw_image = &resources.draw_image;
        let swapchain_image = &resources.swapchain_image;
        let _ = cmd.begin(COMMAND_BUFFER_USAGE_ONE_TIME_SUBMIT);
        let _ = cmd.transition_image(draw_image, IMAGE_LAYOUT_UNDEFINED, IMAGE_LAYOUT_GENERAL);
        let mut ranges: Vec<ImageSubresourceRange> = Vec::new();
        ranges.push(
            ImageSubresourceRange {
                aspect_mask: IMAGE_ASPECT_COLOR,
                base_mip_level: 0,
                level_count: REMAINING_MIP_LEVELS,
                base_array_layer: 0,
                layer_count: REMAINING_ARRAY_LAYERS,
            },
        );
        assert(ranges@ =~= seq![whole_color_range()]);
        let _ = cmd.clear_color_image(draw_image, ranges);
        let _ = cmd.transition_image(
            draw_image,
            IMAGE_LAYOUT_GENERAL,
            IMAGE_LAYOUT_COLOR_ATTACHMENT_OPTIMAL,
        );
        let mut colors: Vec<RenderingAttachmentInfo> = Vec::new();
        colors.push(
            RenderingAttachmentInfo {
                image_view: resources.draw_image_view,
                image_layout: IMAGE_LAYOUT_COLOR_ATTACHMENT_OPTIMAL,
                resolve_mode: 0,
                resolve_image_view: 0,
                resolve_image_layout: IMAGE_LAYOUT_UNDEFINED,
                load_op: ATTACHMENT_LOAD_OP_DONT_CARE,
                store_op: ATTACHMENT_STORE_OP_STORE,
            },
        );
        assert(colors@ =~= seq![frame_attachment(resources.draw_image_view)]);
        let _ = cmd.begin_rendering(0, area, 1, 0, Some(&colors), None, None);
        let _ = cmd.bind_pipeline(resources.pipeline);
        let _ = cmd.set_viewport(0, 1);
        let mut scissors: Vec<Rect2D> = Vec::new();
        scissors.push(area);
        assert(scissors@ =~= seq![whole_area(extent)]);
        let _ = cmd.set_scissor(0, scissors);
        let _ = cmd.record(
            crate::command::Command::BindIndexBuffer {
                buffer: resources.index_buffer,
                offset: 0,
                index_type: INDEX_TYPE_UINT16,
            },
        );
        let mut vertex_buffers: Vec<(u64, u64)> = Vec::new();
        let mut i: usize = 0;
        while i < resources.vertex_buffers.len()
            invariant
                i <= resources.vertex_buffers@.len(),
                vertex_buffers@.len() == i,
                forall|j: int|
                    0 <= j < i ==> vertex_buffers@[j] == (resources.vertex_buffers@[j], 0u64),
            decreases resources.vertex_buffers.len() - i,
        {
            vertex_buffers.push((resources.vertex_buffers[i], 0u64));
            i = i + 1;
        }
        assert(vertex_buffers@ =~= at_offset_zero(resources.vertex_buffers@));
        let _ = cmd.bind_vertex_buffers(0, &vertex_buffers);
        let mut sets: Vec<DescriptorSet> = Vec::new();
        sets.push(resources.descriptor_set);
        assert(crate::command_buffer::set_handles(sets@) =~= seq![
            resources.descriptor_set.handle,
        ]);
        let _ = cmd.bind_descriptor_sets(
            PIPELINE_BIND_POINT_GRAPHICS,
            resources.pipeline_layout,
            0,
            &sets,
        );
        let _ = cmd.draw_indexed(resources.index_count, 1, 0, 0, 0);
        let _ = cmd.end_rendering();
        let _ = cmd.transition_image(
            draw_image,
            IMAGE_LAYOUT_COLOR_ATTACHMENT_OPTIMAL,
            IMAGE_LAYOUT_TRANSFER_SRC_OPTIMAL,
        );
        let _ = cmd.transition_image(
            swapchain_image,
            IMAGE_LAYOUT_UNDEFINED,
            IMAGE_LAYOUT_TRANSFER_DST_OPTIMAL,
        );
        let _ = RenderFrame::copy_image_to_image(cmd, draw_image, swapchain_image);
        let _ = cmd.transition_image(
            swapchain_image,
            IMAGE_LAYOUT_TRANSFER_DST_OPTIMAL,
            IMAGE_LAYOUT_PRESENT_SRC,
        );
        let _ = cmd.end();
        assert(cmd@.commands =~= recorded_frame(before, resources).commands);
        Ok(())
    }
}

impl FrameSync {
    /// The batch that submits the frame of this slot: it waits for the
    /// image to be available before color is written, executes the slot's
    /// command buffer, signals that the frame is rendered once all of
    /// graphics is through, and signals the slot's fence at the end.
    pub fn submit(&self, queue: &Queue) -> (r: SubmitInfo)
        ensures
            r.wait_semaphore_infos@ == seq![
                SemaphoreSubmitInfo {
                    semaphore: self.image_available,
                    value: 1,
                    stage_mask: PIPELINE_STAGE_COLOR_ATTACHMENT_OUTPUT,
                    device_index: 0,
                },
            ],
            r.command_buffer_infos@ == seq![
                CommandBufferSubmitInfo { command_buffer: self.command_buffer, device_mask: 0 },
            ],
            r.signal_semaphore_infos@ == seq![
                SemaphoreSubmitInfo {
                    semaphore: self.render_finished,
                    value: 1,
                    stage_mask: PIPELINE_STAGE_ALL_GRAPHICS,
                    device_index: 0,
                },
            ],
            r.fence == self.in_flight,
    {
        let mut wait: Vec<(u64, u64)> = Vec::new();
        wait.push((self.image_available, PIPELINE_STAGE_COLOR_ATTACHMENT_OUTPUT));
        let mut command_buffers: Vec<u64> = Vec::new();
        command_buffers.push(self.command_buffer);
        let mut signal: Vec<(u64, u64)> = Vec::new();
        signal.push((self.render_finished, PIPELINE_STAGE_ALL_GRAPHICS));
        let info = queue.submit(Some(&wait), &command_buffers, Some(&signal), Some(self.in_flight));
        assert(info.wait_semaphore_infos@ =~= seq![
            SemaphoreSubmitInfo {
                semaphore: self.image_available,
                value: 1,
                stage_mask: PIPELINE_STAGE_COLOR_ATTACHMENT_OUTPUT,
                device_index: 0,
            },
        ]);
        assert(info.command_buffer_infos@ =~= seq![
            CommandBufferSubmitInfo { command_buffer: self.command_buffer, device_mask: 0 },
        ]);
        assert(info.signal_semaphore_infos@ =~= seq![
            SemaphoreSubmitInfo {
                semaphore: self.render_finished,
                value: 1,
                stage_mask: PIPELINE_STAGE_ALL_GRAPHICS,
                device_index: 0,
            },
        ]);
        info
    }

    /// The request to present the image `image_index` of `swapchain` once
    /// the frame of this slot is rendered.
    pub fn present(&self, queue: &Queue, swapchain: u64, image_index: u32) -> (r: PresentInfo)
        ensures
            r.wait_semaphores@ == seq![self.render_finished],
            r.swapchain == swapchain,
            r.image_index == image_index,
    {
        let mut wait: Vec<u64> = Vec::new();
        wait.push(self.render_finished);
        let info = queue.submit_present(&wait, swapchain, image_index);
        assert(info.wait_semaphores@ =~= seq![self.render_finished]);
        info
    }
}

} // verus!
