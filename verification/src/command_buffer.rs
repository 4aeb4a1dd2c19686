//! Command pools and command buffers. A command buffer records a linear
//! sequence of commands between `begin` and `end`; whoever owns the native
//! command buffer replays what was recorded.

use crate::buffer::Buffer;
use crate::command::{
    BlitImageInfo, BufferCopy, BufferImageCopy, Command, CommandSpec, ImageMemoryBarrier,
    ImageSubresourceLayers, RenderingAttachmentInfo, ACCESS_MEMORY_READ_WRITE,
    ACCESS_MEMORY_WRITE, IMAGE_ASPECT_COLOR, IMAGE_ASPECT_DEPTH,
    IMAGE_LAYOUT_DEPTH_ATTACHMENT_OPTIMAL, IMAGE_LAYOUT_GENERAL,
    IMAGE_LAYOUT_TRANSFER_DST_OPTIMAL, PIPELINE_STAGE_ALL_COMMANDS, REMAINING_ARRAY_LAYERS,
    REMAINING_MIP_LEVELS,
};
use crate::descriptor_set::DescriptorSet;
use crate::device::QueueFamily;
use crate::extent::{Extent3D, Offset3D, Rect2D};
use crate::framebuffer::Framebuffer;
use crate::image::Image;
use crate::image_view::ImageSubresourceRange;
use crate::raw_handle::HasRawVkHandle;
use crate::render_pass::{RenderPass, PIPELINE_BIND_POINT_GRAPHICS};
use vstd::prelude::*;

verus! {

/// What a command pool is created from.
#[derive(Clone, Copy, Debug, PartialEq, Eq, Structural)]
pub struct CommandPoolCreateInfo {
    pub flags: u32,
    pub queue_family_index: u32,
}

/// What command buffers are allocated from.
#[derive(Clone, Copy, Debug, PartialEq, Eq, Structural)]
pub struct CommandBufferAllocateInfo {
    pub command_pool: u64,
    pub level: i32,
    pub command_buffer_count: u32,
}

/// A command pool, which owns the command buffers allocated from it.
#[derive(Clone, Copy, Debug, PartialEq, Eq, Structural)]
pub struct CommandPool {
    pub handle: u64,
}

impl CommandPool {
    /// What to create a pool for the queues of `queue_family` from.
    pub fn create_info(queue_family: &QueueFamily, flags: u32) -> (r: CommandPoolCreateInfo)
        ensures
            r == (CommandPoolCreateInfo { flags, queue_family_index: queue_family@.config.index }),
    {
        CommandPoolCreateInfo { flags, queue_family_index: queue_family.index() }
    }

    pub fn new(handle: u64) -> (r: CommandPool)
        ensures
            r.handle == handle,
    {
        CommandPool { handle }
    }

    pub fn handle(&self) -> (r: u64)
        ensures
            r == self.handle,
    {
        self.handle
    }

    /// What to allocate one command buffer of the level `level` from.
    pub fn allocate_one(&self, level: i32) -> (r: CommandBufferAllocateInfo)
        ensures
            r == (CommandBufferAllocateInfo {
                command_pool: self.handle,
                level,
                command_buffer_count: 1,
            }),
    {
        CommandBufferAllocateInfo { command_pool: self.handle, level, command_buffer_count: 1 }
    }
}

impl HasRawVkHandle<u64> for CommandPool {
    open spec fn raw_handle(&self) -> u64 {
        self.handle
    }

    fn get_vk_handle(&self) -> u64 {
        self.handle
    }
}

/// Where a command buffer stands between resets.
#[derive(Clone, Copy, Debug, PartialEq, Eq, Structural)]
pub enum RecordingState {
    /// Nothing is recorded.
    Initial,
    /// `begin` was called and `end` was not.
    Recording,
    /// `end` was called: the commands can be submitted.
    Executable,
}

/// Why a command buffer refused a call.
#[derive(Clone, Copy, Debug, PartialEq, Eq, Structural)]
pub enum RecordError {
    /// `begin` on a command buffer that was not reset.
    NotInitial,
    /// A command, or `end`, outside `begin` and `end`.
    NotRecording,
}

/// A command buffer.
#[derive(Debug)]
pub struct CommandBuffer {
    pool: u64,
    handle: u64,
    state: RecordingState,
    usage: u32,
    commands: Vec<Command>,
}

/// What a [`CommandBuffer`] holds.
pub struct CommandBufferSpec {
    pub pool: u64,
    pub handle: u64,
    pub state: RecordingState,
    /// The usage flags that recording was begun with.
    pub usage: u32,
    pub commands: Seq<CommandSpec>,
}

impl View for CommandBuffer {
    type V = CommandBufferSpec;

    closed spec fn view(&self) -> CommandBufferSpec {
        CommandBufferSpec {
            pool: self.pool,
            handle: self.handle,
            state: self.state,
            usage: self.usage,
            commands: Seq::new(self.commands@.len(), |i: int| self.commands@[i]@),
        }
    }
}

impl CommandBufferSpec {
    /// The command buffer after it was asked to record `command`, and the
    /// answer: the command is appended while recording, and refused
    /// otherwise.
    pub open spec fn record(self, command: CommandSpec) -> (
        CommandBufferSpec,
        Result<(), RecordError>,
    ) {
        if self.state == RecordingState::Recording {
            (CommandBufferSpec { commands: self.commands.push(command), ..self }, Ok(()))
        } else {
            (self, Err(RecordError::NotRecording))
        }
    }
}

/// The aspect of an image that a transition to `new_layout` touches: depth
/// for the depth attachment layout, color for every other.
pub open spec fn aspect_for(new_layout: i32) -> u32 {
    if new_layout == IMAGE_LAYOUT_DEPTH_ATTACHMENT_OPTIMAL {
        IMAGE_ASPECT_DEPTH
    } else {
        IMAGE_ASPECT_COLOR
    }
}

/// The barrier that moves all of `image` from `old_layout` to `new_layout`
/// and makes every earlier write visible to every later access.
pub open spec fn transition_barrier(image: u64, old_layout: i32, new_layout: i32) -> ImageMemoryBarrier {
    ImageMemoryBarrier {
        src_stage_mask: PIPELINE_STAGE_ALL_COMMANDS,
        src_access_mask: ACCESS_MEMORY_WRITE,
        dst_stage_mask: PIPELINE_STAGE_ALL_COMMANDS,
        dst_access_mask: ACCESS_MEMORY_READ_WRITE,
        old_layout,
        new_layout,
        src_queue_family_index: 0,
        dst_queue_family_index: 0,
        image,
        subresource_range: ImageSubresourceRange {
            aspect_mask: aspect_for(new_layout),
            base_mip_level: 0,
            level_count: REMAINING_MIP_LEVELS,
            base_array_layer: 0,
            layer_count: REMAINING_ARRAY_LAYERS,
        },
    }
}

/// The copy that fills the first mip level of a flat image of the extent
/// `extent` from the start of a tightly packed buffer.
pub open spec fn whole_image_copy(extent: Extent3D) -> BufferImageCopy {
    BufferImageCopy {
        buffer_offset: 0,
        buffer_row_length: 0,
        buffer_image_height: 0,
        image_subresource: ImageSubresourceLayers {
            aspect_mask: IMAGE_ASPECT_COLOR,
            mip_level: 0,
            base_array_layer: 0,
            layer_count: 1,
        },
        image_offset: Offset3D { x: 0, y: 0, z: 0 },
        image_extent: Extent3D { width: extent.width, height: extent.height, depth: 1 },
    }
}

/// The handles of `buffers`.
pub open spec fn buffer_handles(buffers: Seq<(u64, u64)>) -> Seq<u64> {
    Seq::new(buffers.len(), |i: int| buffers[i].0)
}

/// The offsets of `buffers`.
pub open spec fn buffer_offsets(buffers: Seq<(u64, u64)>) -> Seq<u64> {
    Seq::new(buffers.len(), |i: int| buffers[i].1)
}

/// The handles of `sets`.
pub open spec fn set_handles(sets: Seq<DescriptorSet>) -> Seq<u64> {
    Seq::new(sets.len(), |i: int| sets[i].handle)
}

/// The number of clear values to hand to a render pass.
pub open spec fn clear_count(clear_value_count: Option<u32>) -> u32 {
    match clear_value_count {
        Some(n) => n,
        None => 0,
    }
}

/// The color attachments to hand to a dynamic rendering pass; none counts
/// as an empty list.
pub open spec fn color_list(color_attachments: Option<&Vec<RenderingAttachmentInfo>>) -> Seq<
    RenderingAttachmentInfo,
> {
    match color_attachments {
        Some(v) => v@,
        None => Seq::empty(),
    }
}

impl CommandBuffer {
    /// The command buffer `handle` of the pool `pool`, with nothing
    /// recorded.
    pub fn new(pool: u64, handle: u64) -> (r: CommandBuffer)
        ensures
            r@ == (CommandBufferSpec {
                pool,
                handle,
                state: RecordingState::Initial,
                usage: 0,
                commands: Seq::empty(),
            }),
    {
        let r = CommandBuffer {
            pool,
            handle,
            state: RecordingState::Initial,
            usage: 0,
            commands: Vec::new(),
        };
        assert(r@.commands =~= Seq::empty());
        r
    }

    /// The handle of the pool that this command buffer was allocated from
    /// and is freed to.
    pub fn pool(&self) -> (r: u64)
        ensures
            r == self@.pool,
    {
        self.pool
    }

    pub fn handle(&self) -> (r: u64)
        ensures
            r == self@.handle,
    {
        self.handle
    }

    pub fn state(&self) -> (r: RecordingState)
        ensures
            r == self@.state,
    {
        self.state
    }

    /// The usage flags that recording was begun with.
    pub fn usage(&self) -> (r: u32)
        ensures
            r == self@.usage,
    {
        self.usage
    }

    /// The commands recorded since the last reset, in order.
    pub fn commands(&self) -> (r: &Vec<Command>)
        ensures
            r@.len() == self@.commands.len(),
            forall|i: int| 0 <= i < r@.len() ==> (#[trigger] r@[i])@ == self@.commands[i],
    {
        &self.commands
    }

    /// Appends `command` while recording, and refuses it otherwise.
    pub fn record(&mut self, command: Command) -> (r: Result<(), RecordError>)
        ensures
            (final(self)@, r) == old(self)@.record(command@),
    {
        match self.state {
            RecordingState::Recording => {
                self.commands.push(command);
                assert(self@.commands =~= old(self)@.commands.push(command@));
                Ok(())
            },
            _ => Err(RecordError::NotRecording),
        }
    }

    /// Opens the bracket: a command buffer that was reset starts recording.
    pub fn begin(&mut self, flags: u32) -> (r: Result<(), RecordError>)
        ensures
            old(self)@.state == RecordingState::Initial ==> r is Ok && final(self)@ == (
            CommandBufferSpec { state: RecordingState::Recording, usage: flags, ..old(self)@ }),
            old(self)@.state != RecordingState::Initial ==> r == Err::<(), RecordError>(
                RecordError::NotInitial,
            ) && final(self)@ == old(self)@,
    {
        match self.state {
            RecordingState::Initial => {
                self.state = RecordingState::Recording;
                self.usage = flags;
                Ok(())
            },
            _ => Err(RecordError::NotInitial),
        }
    }

    /// Closes the bracket: what was recorded can be submitted.
    pub fn end(&mut self) -> (r: Result<(), RecordError>)
        ensures
            old(self)@.state == RecordingState::Recording ==> r is Ok && final(self)@ == (
            CommandBufferSpec { state: RecordingState::Executable, ..old(self)@ }),
            old(self)@.state != RecordingState::Recording ==> r == Err::<(), RecordError>(
                RecordError::NotRecording,
            ) && final(self)@ == old(self)@,
    {
        match self.state {
            RecordingState::Recording => {
                self.state = RecordingState::Executable;
                Ok(())
            },
            _ => Err(RecordError::NotRecording),
        }
    }

    /// Forgets what was recorded; the command buffer can begin anew.
    pub fn reset(&mut self)
        ensures
            final(self)@ == (CommandBufferSpec {
                state: RecordingState::Initial,
                usage: 0,
                commands: Seq::empty(),
                ..old(self)@
            }),
    {
        self.state = RecordingState::Initial;
        self.usage = 0;
        self.commands = Vec::new();
        assert(self@.commands =~= Seq::empty());
    }

    /// Clears `clear_range` of `image`, which is in the general layout.
    pub fn clear_color_image(&mut self, image: &Image, clear_range: Vec<ImageSubresourceRange>) -> (r:
        Result<(), RecordError>)
        ensures
            (final(self)@, r) == old(self)@.record(
                CommandSpec::ClearColorImage {
                    image: image.handle,
                    image_layout: IMAGE_LAYOUT_GENERAL,
                    ranges: clear_range@,
                },
            ),
    {
        self.record(
            Command::ClearColorImage {
                image: image.get_vk_handle(),
                image_layout: IMAGE_LAYOUT_GENERAL,
                ranges: clear_range,
            },
        )
    }

    /// Begins `render_pass` on `framebuffer` with `clear_value_count` clear
    /// values, or none.
    pub fn begin_render_pass(
        &mut self,
        render_pass: &RenderPass,
        framebuffer: &Framebuffer,
        render_area: Rect2D,
        clear_value_count: Option<u32>,
        contents: i32,
    ) -> (r: Result<(), RecordError>)
        ensures
            (final(self)@, r) == old(self)@.record(
                CommandSpec::BeginRenderPass {
                    render_pass: render_pass.handle,
                    framebuffer: framebuffer.handle,
                    render_area,
                    clear_value_count: clear_count(clear_value_count),
                    contents,
                },
            ),
    {
        self.record(
            Command::BeginRenderPass {
                render_pass: render_pass.handle,
                framebuffer: framebuffer.get_vk_handle(),
                render_area,
                clear_value_count: match clear_value_count {
                    Some(n) => n,
                    None => 0,
                },
                contents,
            },
        )
    }

    /// Begins a dynamic rendering pass.
    pub fn begin_rendering(
        &mut self,
        flags: u32,
        render_area: Rect2D,
        layer_count: u32,
        view_mask: u32,
        color_attachments: Option<&Vec<RenderingAttachmentInfo>>,
        depth_attachment: Option<RenderingAttachmentInfo>,
        stencil_attachment: Option<RenderingAttachmentInfo>,
    ) -> (r: Result<(), RecordError>)
        ensures
            (final(self)@, r) == old(self)@.record(
                CommandSpec::BeginRendering {
                    flags,
                    render_area,
                    layer_count,
                    view_mask,
                    color_attachments: color_list(color_attachments),
                    depth_attachment,
                    stencil_attachment,
                },
            ),
    {
        let mut colors: Vec<RenderingAttachmentInfo> = Vec::new();
        match color_attachments {
            Some(list) => {
                let mut i: usize = 0;
                while i < list.len()
                    invariant
                        i <= list@.len(),
                        colors@ == list@.subrange(0, i as int),
                    decreases list.len() - i,
                {
                    colors.push(list[i]);
                    assert(colors@ =~= list@.subrange(0, i + 1));
                    i = i + 1;
                }
                assert(colors@ =~= list@);
            },
            None => {},
        }
        self.record(
            Command::BeginRendering {
                flags,
                render_area,
                layer_count,
                view_mask,
                color_attachments: colors,
                depth_attachment,
                stencil_attachment,
            },
        )
    }

    /// Binds a graphics pipeline.
    pub fn bind_pipeline(&mut self, pipeline: u64) -> (r: Result<(), RecordError>)
        ensures
            (final(self)@, r) == old(self)@.record(
                CommandSpec::BindPipeline { bind_point: PIPELINE_BIND_POINT_GRAPHICS, pipeline },
            ),
    {
        self.record(Command::BindPipeline { bind_point: PIPELINE_BIND_POINT_GRAPHICS, pipeline })
    }

    /// Sets `viewport_count` viewports from `first_viewport` on.
    pub fn set_viewport(&mut self, first_viewport: u32, viewport_count: u32) -> (r: Result<
        (),
        RecordError,
    >)
        ensures
            (final(self)@, r) == old(self)@.record(
                CommandSpec::SetViewport { first_viewport, viewport_count },
            ),
    {
        self.record(Command::SetViewport { first_viewport, viewport_count })
    }

    pub fn set_scissor(&mut self, first_scissor: u32, scissors: Vec<Rect2D>) -> (r: Result<
        (),
        RecordError,
    >)
        ensures
            (final(self)@, r) == old(self)@.record(
                CommandSpec::SetScissor { first_scissor, scissors: scissors@ },
            ),
    {
        self.record(Command::SetScissor { first_scissor, scissors })
    }

    pub fn bind_index_buffer(&mut self, buffer: &Buffer, offset: u64, index_type: i32) -> (r:
        Result<(), RecordError>)
        ensures
            (final(self)@, r) == old(self)@.record(
                CommandSpec::BindIndexBuffer { buffer: buffer.raw_handle(), offset, index_type },
            ),
    {
        self.record(Command::BindIndexBuffer { buffer: buffer.get_vk_handle(), offset, index_type })
    }

    /// Binds each buffer of `buffers`, given as handle and offset, from
    /// `first_binding` on.
    pub fn bind_vertex_buffers(&mut self, first_binding: u32, buffers: &Vec<(u64, u64)>) -> (r:
        Result<(), RecordError>)
        ensures
            (final(self)@, r) == old(self)@.record(
                CommandSpec::BindVertexBuffers {
                    first_binding,
                    buffers: buffer_handles(buffers@),
                    offsets: buffer_offsets(buffers@),
                },
            ),
    {
        let mut handles: Vec<u64> = Vec::new();
        let mut offsets: Vec<u64> = Vec::new();
        let mut i: usize = 0;
        while i < buffers.len()
            invariant
                i <= buffers@.len(),
                handles@.len() == i,
                offsets@.len() == i,
                forall|j: int| 0 <= j < i ==> handles@[j] == buffers@[j].0,
                forall|j: int| 0 <= j < i ==> offsets@[j] == buffers@[j].1,
            decreases buffers.len() - i,
        {
            let pair = buffers[i];
            handles.push(pair.0);
            offsets.push(pair.1);
            i = i + 1;
        }
        assert(handles@ =~= buffer_handles(buffers@));
        assert(offsets@ =~= buffer_offsets(buffers@));
        self.record(Command::BindVertexBuffers { first_binding, buffers: handles, offsets })
    }

    pub fn bind_descriptor_sets(
        &mut self,
        pipeline_bind_point: i32,
        layout: u64,
        first_set: u32,
        descriptor_sets: &Vec<DescriptorSet>,
    ) -> (r: Result<(), RecordError>)
        ensures
            (final(self)@, r) == old(self)@.record(
                CommandSpec::BindDescriptorSets {
                    bind_point: pipeline_bind_point,
                    layout,
                    first_set,
                    descriptor_sets: set_handles(descriptor_sets@),
                },
            ),
    {
        let mut handles: Vec<u64> = Vec::new();
        let mut i: usize = 0;
        while i < descriptor_sets.len()
            invariant
                i <= descriptor_sets@.len(),
                handles@.len() == i,
                forall|j: int| 0 <= j < i ==> handles@[j] == descriptor_sets@[j].handle,
            decreases descriptor_sets.len() - i,
        {
            handles.push(descriptor_sets[i].get_vk_handle());
            i = i + 1;
        }
        assert(handles@ =~= set_handles(descriptor_sets@));
        self.record(
            Command::BindDescriptorSets {
                bind_point: pipeline_bind_point,
                layout,
                first_set,
                descriptor_sets: handles,
            },
        )
    }

    pub fn draw(
        &mut self,
        vertex_count: u32,
        instance_count: u32,
        first_vertex: u32,
        first_instance: u32,
    ) -> (r: Result<(), RecordError>)
        ensures
            (final(self)@, r) == old(self)@.record(
                CommandSpec::Draw { vertex_count, instance_count, first_vertex, first_instance },
            ),
    {
        self.record(Command::Draw { vertex_count, instance_count, first_vertex, first_instance })
    }

    pub fn draw_indexed(
        &mut self,
        index_count: u32,
        instance_count: u32,
        first_index: u32,
        vertex_offset: i32,
        first_instance: u32,
    ) -> (r: Result<(), RecordError>)
        ensures
            (final(self)@, r) == old(self)@.record(
                CommandSpec::DrawIndexed {
                    index_count,
                    instance_count,
                    first_index,
                    vertex_offset,
                    first_instance,
                },
            ),
    {
        self.record(
            Command::DrawIndexed {
                index_count,
                instance_count,
                first_index,
                vertex_offset,
                first_instance,
            },
        )
    }

    pub fn end_render_pass(&mut self) -> (r: Result<(), RecordError>)
        ensures
            (final(self)@, r) == old(self)@.record(CommandSpec::EndRenderPass),
    {
        self.record(Command::EndRenderPass)
    }

    pub fn end_rendering(&mut self) -> (r: Result<(), RecordError>)
        ensures
            (final(self)@, r) == old(self)@.record(CommandSpec::EndRendering),
    {
        self.record(Command::EndRendering)
    }

    /// Moves all of `image` from `old_layout` to `new_layout`.
    pub fn transition_image(&mut self, image: &Image, old_layout: i32, new_layout: i32) -> (r:
        Result<(), RecordError>)
        ensures
            (final(self)@, r) == old(self)@.record(
                CommandSpec::PipelineBarrier {
                    barrier: transition_barrier(image.handle, old_layout, new_layout),
                },
            ),
    {
        let aspect_mask = if new_layout == IMAGE_LAYOUT_DEPTH_ATTACHMENT_OPTIMAL {
            IMAGE_ASPECT_DEPTH
        } else {
            IMAGE_ASPECT_COLOR
        };
        self.record(
            Command::PipelineBarrier {
                barrier: ImageMemoryBarrier {
                    src_stage_mask: PIPELINE_STAGE_ALL_COMMANDS,
                    src_access_mask: ACCESS_MEMORY_WRITE,
                    dst_stage_mask: PIPELINE_STAGE_ALL_COMMANDS,
                    dst_access_mask: ACCESS_MEMORY_READ_WRITE,
                    old_layout,
                    new_layout,
                    src_queue_family_index: 0,
                    dst_queue_family_index: 0,
                    image: image.get_vk_handle(),
                    subresource_range: ImageSubresourceRange {
                        aspect_mask,
                        base_mip_level: 0,
                        level_count: REMAINING_MIP_LEVELS,
                        base_array_layer: 0,
                        layer_count: REMAINING_ARRAY_LAYERS,
                    },
                },
            },
        )
    }

    pub fn blit_image(&mut self, blit_image_info: &BlitImageInfo) -> (r: Result<(), RecordError>)
        ensures
            (final(self)@, r) == old(self)@.record(
                CommandSpec::BlitImage { info: *blit_image_info },
            ),
    {
        self.record(Command::BlitImage { info: *blit_image_info })
    }

    pub fn copy_buffer(&mut self, src: &Buffer, dst: &Buffer, regions: Vec<BufferCopy>) -> (r:
        Result<(), RecordError>)
        ensures
            (final(self)@, r) == old(self)@.record(
                CommandSpec::CopyBuffer {
                    src: src.raw_handle(),
                    dst: dst.raw_handle(),
                    regions: regions@,
                },
            ),
    {
        self.record(
            Command::CopyBuffer { src: src.get_vk_handle(), dst: dst.get_vk_handle(), regions },
        )
    }

    /// Fills the first mip level of `dst`, which is in the transfer
    /// destination layout, from the start of `src`.
    pub fn copy_buffer_to_image(&mut self, src: &Buffer, dst: &Image) -> (r: Result<
        (),
        RecordError,
    >)
        ensures
            (final(self)@, r) == old(self)@.record(
                CommandSpec::CopyBufferToImage {
                    src: src.raw_handle(),
                    dst: dst.handle,
                    dst_layout: IMAGE_LAYOUT_TRANSFER_DST_OPTIMAL,
                    region: whole_image_copy(dst.extent),
                },
            ),
    {
        let extent = dst.extent();
        let region = BufferImageCopy {
            buffer_offset: 0,
            buffer_row_length: 0,
            buffer_image_height: 0,
            image_subresource: ImageSubresourceLayers {
                aspect_mask: IMAGE_ASPECT_COLOR,
                mip_level: 0,
                base_array_layer: 0,
                layer_count: 1,
            },
            image_offset: Offset3D { x: 0, y: 0, z: 0 },
            image_extent: Extent3D { width: extent.width, height: extent.height, depth: 1 },
        };
        self.record(
            Command::CopyBufferToImage {
                src: src.get_vk_handle(),
                dst: dst.get_vk_handle(),
                dst_layout: IMAGE_LAYOUT_TRANSFER_DST_OPTIMAL,
                region,
            },
        )
    }
}

impl HasRawVkHandle<u64> for CommandBuffer {
    open spec fn raw_handle(&self) -> u64 {
        self@.handle
    }

    fn get_vk_handle(&self) -> u64 {
        self.handle
    }
}

} // verus!
