//! The commands that a command buffer records, as plain values.

use crate::extent::{Extent3D, Offset3D, Rect2D};
use crate::image_view::ImageSubresourceRange;
use vstd::prelude::*;

verus! {

pub const IMAGE_LAYOUT_GENERAL: i32 = 1;

pub const IMAGE_LAYOUT_COLOR_ATTACHMENT_OPTIMAL: i32 = 2;

pub const IMAGE_LAYOUT_TRANSFER_SRC_OPTIMAL: i32 = 6;

pub const IMAGE_LAYOUT_TRANSFER_DST_OPTIMAL: i32 = 7;

pub const IMAGE_LAYOUT_PRESENT_SRC: i32 = 1000001002;

pub const IMAGE_LAYOUT_DEPTH_ATTACHMENT_OPTIMAL: i32 = 1000241000;

pub const IMAGE_ASPECT_COLOR: u32 = 0x1;

pub const IMAGE_ASPECT_DEPTH: u32 = 0x2;

pub const PIPELINE_STAGE_ALL_COMMANDS: u64 = 0x10000;

pub const ACCESS_MEMORY_READ: u64 = 0x8000;

pub const ACCESS_MEMORY_WRITE: u64 = 0x10000;

/// Both kinds of memory access.
pub const ACCESS_MEMORY_READ_WRITE: u64 = 0x18000;

/// "All mip levels from the base level on."
pub const REMAINING_MIP_LEVELS: u32 = 0xFFFF_FFFF;

/// "All array layers from the base layer on."
pub const REMAINING_ARRAY_LAYERS: u32 = 0xFFFF_FFFF;

pub const FILTER_LINEAR: i32 = 1;

/// One mip level and some array layers of an image.
#[derive(Clone, Copy, Debug, PartialEq, Eq, Structural)]
pub struct ImageSubresourceLayers {
    pub aspect_mask: u32,
    pub mip_level: u32,
    pub base_array_layer: u32,
    pub layer_count: u32,
}

/// A change of layout of an image, with the memory dependency that makes
/// earlier writes visible to what follows.
#[derive(Clone, Copy, Debug, PartialEq, Eq, Structural)]
pub struct ImageMemoryBarrier {
    pub src_stage_mask: u64,
    pub src_access_mask: u64,
    pub dst_stage_mask: u64,
    pub dst_access_mask: u64,
    pub old_layout: i32,
    pub new_layout: i32,
    pub src_queue_family_index: u32,
    pub dst_queue_family_index: u32,
    pub image: u64,
    pub subresource_range: ImageSubresourceRange,
}

/// A copy between two buffers.
#[derive(Clone, Copy, Debug, PartialEq, Eq, Structural)]
pub struct BufferCopy {
    pub src_offset: u64,
    pub dst_offset: u64,
    pub size: u64,
}

/// A copy from a buffer into an image.
#[derive(Clone, Copy, Debug, PartialEq, Eq, Structural)]
pub struct BufferImageCopy {
    pub buffer_offset: u64,
    pub buffer_row_length: u32,
    pub buffer_image_height: u32,
    pub image_subresource: ImageSubresourceLayers,
    pub image_offset: Offset3D,
    pub image_extent: Extent3D,
}

/// A scaled copy between two regions of two images.
#[derive(Clone, Copy, Debug, PartialEq, Eq, Structural)]
pub struct ImageBlit {
    pub src_subresource: ImageSubresourceLayers,
    pub src_start: Offset3D,
    pub src_end: Offset3D,
    pub dst_subresource: ImageSubresourceLayers,
    pub dst_start: Offset3D,
    pub dst_end: Offset3D,
}

/// A blit of one region between two images.
#[derive(Clone, Copy, Debug, PartialEq, Eq, Structural)]
pub struct BlitImageInfo {
    pub src_image: u64,
    pub src_image_layout: i32,
    pub dst_image: u64,
    pub dst_image_layout: i32,
    pub filter: i32,
    pub region: ImageBlit,
}

/// One attachment of a dynamic rendering pass. What it is cleared to is
/// left to whoever replays the command.
#[derive(Clone, Copy, Debug, PartialEq, Eq, Structural)]
pub struct RenderingAttachmentInfo {
    pub image_view: u64,
    pub image_layout: i32,
    pub resolve_mode: u32,
    pub resolve_image_view: u64,
    pub resolve_image_layout: i32,
    pub load_op: i32,
    pub store_op: i32,
}

/// One recorded command.
#[derive(Debug)]
pub enum Command {
    ClearColorImage { image: u64, image_layout: i32, ranges: Vec<ImageSubresourceRange> },
    BeginRenderPass {
        render_pass: u64,
        framebuffer: u64,
        render_area: Rect2D,
        clear_value_count: u32,
        contents: i32,
    },
    BeginRendering {
        flags: u32,
        render_area: Rect2D,
        layer_count: u32,
        view_mask: u32,
        color_attachments: Vec<RenderingAttachmentInfo>,
        depth_attachment: Option<RenderingAttachmentInfo>,
        stencil_attachment: Option<RenderingAttachmentInfo>,
    },
    BindPipeline { bind_point: i32, pipeline: u64 },
    SetViewport { first_viewport: u32, viewport_count: u32 },
    SetScissor { first_scissor: u32, scissors: Vec<Rect2D> },
    BindIndexBuffer { buffer: u64, offset: u64, index_type: i32 },
    BindVertexBuffers { first_binding: u32, buffers: Vec<u64>, offsets: Vec<u64> },
    BindDescriptorSets { bind_point: i32, layout: u64, first_set: u32, descriptor_sets: Vec<u64> },
    Draw { vertex_count: u32, instance_count: u32, first_vertex: u32, first_instance: u32 },
    DrawIndexed {
        index_count: u32,
        instance_count: u32,
        first_index: u32,
        vertex_offset: i32,
        first_instance: u32,
    },
    EndRenderPass,
    EndRendering,
    PipelineBarrier { barrier: ImageMemoryBarrier },
    BlitImage { info: BlitImageInfo },
    CopyBuffer { src: u64, dst: u64, regions: Vec<BufferCopy> },
    CopyBufferToImage { src: u64, dst: u64, dst_layout: i32, region: BufferImageCopy },
}

/// What a [`Command`] holds.
pub enum CommandSpec {
    ClearColorImage { image: u64, image_layout: i32, ranges: Seq<ImageSubresourceRange> },
    BeginRenderPass {
        render_pass: u64,
        framebuffer: u64,
        render_area: Rect2D,
        clear_value_count: u32,
        contents: i32,
    },
    BeginRendering {
        flags: u32,
        render_area: Rect2D,
        layer_count: u32,
        view_mask: u32,
        color_attachments: Seq<RenderingAttachmentInfo>,
        depth_attachment: Option<RenderingAttachmentInfo>,
        stencil_attachment: Option<RenderingAttachmentInfo>,
    },
    BindPipeline { bind_point: i32, pipeline: u64 },
    SetViewport { first_viewport: u32, viewport_count: u32 },
    SetScissor { first_scissor: u32, scissors: Seq<Rect2D> },
    BindIndexBuffer { buffer: u64, offset: u64, index_type: i32 },
    BindVertexBuffers { first_binding: u32, buffers: Seq<u64>, offsets: Seq<u64> },
    BindDescriptorSets { bind_point: i32, layout: u64, first_set: u32, descriptor_sets: Seq<u64> },
    Draw { vertex_count: u32, instance_count: u32, first_vertex: u32, first_instance: u32 },
    DrawIndexed {
        index_count: u32,
        instance_count: u32,
        first_index: u32,
        vertex_offset: i32,
        first_instance: u32,
    },
    EndRenderPass,
    EndRendering,
    PipelineBarrier { barrier: ImageMemoryBarrier },
    BlitImage { info: BlitImageInfo },
    CopyBuffer { src: u64, dst: u64, regions: Seq<BufferCopy> },
    CopyBufferToImage { src: u64, dst: u64, dst_layout: i32, region: BufferImageCopy },
}

impl View for Command {
    type V = CommandSpec;

    open spec fn view(&self) -> CommandSpec {
        match *self {
            Command::ClearColorImage { image, image_layout, ranges } => CommandSpec::ClearColorImage {
                image,
                image_layout,
                ranges: ranges@,
            },
            Command::BeginRenderPass {
                render_pass,
                framebuffer,
                render_area,
                clear_value_count,
                contents,
            } => CommandSpec::BeginRenderPass {
                render_pass,
                framebuffer,
                render_area,
                clear_value_count,
                contents,
            },
            Command::BeginRendering {
                flags,
                render_area,
                layer_count,
                view_mask,
                color_attachments,
                depth_attachment,
                stencil_attachment,
            } => CommandSpec::BeginRendering {
                flags,
                render_area,
                layer_count,
                view_mask,
                color_attachments: color_attachments@,
                depth_attachment,
                stencil_attachment,
            },
            Command::BindPipeline { bind_point, pipeline } => CommandSpec::BindPipeline {
                bind_point,
                pipeline,
            },
            Command::SetViewport { first_viewport, viewport_count } => CommandSpec::SetViewport {
                first_viewport,
                viewport_count,
            },
            Command::SetScissor { first_scissor, scissors } => CommandSpec::SetScissor {
                first_scissor,
                scissors: scissors@,
            },
            Command::BindIndexBuffer { buffer, offset, index_type } => CommandSpec::BindIndexBuffer {
                buffer,
                offset,
                index_type,
            },
            Command::BindVertexBuffers {
                first_binding,
                buffers,
                offsets,
            } => CommandSpec::BindVertexBuffers {
                first_binding,
                buffers: buffers@,
                offsets: offsets@,
            },
            Command::BindDescriptorSets {
                bind_point,
                layout,
                first_set,
                descriptor_sets,
            } => CommandSpec::BindDescriptorSets {
                bind_point,
                layout,
                first_set,
                descriptor_sets: descriptor_sets@,
            },
            Command::Draw {
                vertex_count,
                instance_count,
                first_vertex,
                first_instance,
            } => CommandSpec::Draw { vertex_count, instance_count, first_vertex, first_instance },
            Command::DrawIndexed {
                index_count,
                instance_count,
                first_index,
                vertex_offset,
                first_instance,
            } => CommandSpec::DrawIndexed {
                index_count,
                instance_count,
                first_index,
                vertex_offset,
                first_instance,
            },
            Command::EndRenderPass => CommandSpec::EndRenderPass,
            Command::EndRendering => CommandSpec::EndRendering,
            Command::PipelineBarrier { barrier } => CommandSpec::PipelineBarrier { barrier },
            Command::BlitImage { info } => CommandSpec::BlitImage { info },
            Command::CopyBuffer { src, dst, regions } => CommandSpec::CopyBuffer {
                src,
                dst,
                regions: regions@,
            },
            Command::CopyBufferToImage {
                src,
                dst,
                dst_layout,
                region,
            } => CommandSpec::CopyBufferToImage { src, dst, dst_layout, region },
        }
    }
}

} // verus!
