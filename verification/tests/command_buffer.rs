use ash::vk;
use vulka::buffer::Buffer;
use vulka::command::{
    BlitImageInfo, BufferCopy, BufferImageCopy, Command, ImageBlit, ImageMemoryBarrier,
    ImageSubresourceLayers, RenderingAttachmentInfo, ACCESS_MEMORY_READ, ACCESS_MEMORY_READ_WRITE,
    ACCESS_MEMORY_WRITE, FILTER_LINEAR, IMAGE_ASPECT_COLOR, IMAGE_ASPECT_DEPTH,
    IMAGE_LAYOUT_COLOR_ATTACHMENT_OPTIMAL, IMAGE_LAYOUT_DEPTH_ATTACHMENT_OPTIMAL,
    IMAGE_LAYOUT_GENERAL, IMAGE_LAYOUT_PRESENT_SRC, IMAGE_LAYOUT_TRANSFER_DST_OPTIMAL,
    IMAGE_LAYOUT_TRANSFER_SRC_OPTIMAL, PIPELINE_STAGE_ALL_COMMANDS, REMAINING_ARRAY_LAYERS,
    REMAINING_MIP_LEVELS,
};
use vulka::command_buffer::{
    CommandBuffer, CommandBufferAllocateInfo, CommandPool, CommandPoolCreateInfo, RecordError,
    RecordingState,
};
use vulka::descriptor_set::DescriptorSet;
use vulka::device::{QueueFamily, QueueFamilyConfig};
use vulka::extent::{Extent2D, Extent3D, Offset3D, Rect2D};
use vulka::frame_commands::{
    FrameRecordError, FrameResources, ATTACHMENT_LOAD_OP_DONT_CARE, ATTACHMENT_STORE_OP_STORE,
    COMMAND_BUFFER_USAGE_ONE_TIME_SUBMIT, INDEX_TYPE_UINT16,
};
use vulka::framebuffer::Framebuffer;
use vulka::image::{Image, IMAGE_LAYOUT_UNDEFINED, IMAGE_TYPE_2D};
use vulka::image_view::ImageSubresourceRange;
use vulka::physical_device::QueueFamilyProperties;
use vulka::raw_handle::HasRawVkHandle;
use vulka::render_frame::RenderFrame;
use vulka::render_pass::RenderPass;

fn image(handle: u64, width: u32, height: u32) -> Image {
    Image::new(handle, IMAGE_TYPE_2D, 97, Extent3D { width, height, depth: 1 })
}

fn barrier(image: u64, old_layout: i32, new_layout: i32, aspect_mask: u32) -> ImageMemoryBarrier {
    ImageMemoryBarrier {
        src_stage_mask: 0x10000,
        src_access_mask: 0x10000,
        dst_stage_mask: 0x10000,
        dst_access_mask: 0x18000,
        old_layout,
        new_layout,
        src_queue_family_index: 0,
        dst_queue_family_index: 0,
        image,
        subresource_range: ImageSubresourceRange {
            aspect_mask,
            base_mip_level: 0,
            level_count: u32::MAX,
            base_array_layer: 0,
            layer_count: u32::MAX,
        },
    }
}

fn shown(commands: &Vec<Command>) -> Vec<String> {
    commands.iter().map(|c| format!("{:?}", c)).collect()
}

#[test]
fn a_pool_belongs_to_a_queue_family_and_allocates_one_buffer_at_a_time() {
    let properties = QueueFamilyProperties {
        queue_flags: 1,
        queue_count: 1,
        timestamp_valid_bits: 0,
        min_image_transfer_granularity: Extent3D { width: 1, height: 1, depth: 1 },
    };
    let family = QueueFamily::new(QueueFamilyConfig::new(3, properties), false);
    assert_eq!(
        CommandPool::create_info(&family, 0x2),
        CommandPoolCreateInfo { flags: 0x2, queue_family_index: 3 }
    );
    let pool = CommandPool::new(60);
    assert_eq!(pool.handle(), 60);
    assert_eq!(pool.get_vk_handle(), 60);
    assert_eq!(
        pool.allocate_one(0),
        CommandBufferAllocateInfo { command_pool: 60, level: 0, command_buffer_count: 1 }
    );
}

#[test]
fn commands_are_recorded_between_begin_and_end_only() {
    let mut cmd = CommandBuffer::new(60, 61);
    assert_eq!((cmd.pool(), cmd.handle(), cmd.get_vk_handle()), (60, 61, 61));
    assert_eq!(cmd.state(), RecordingState::Initial);
    assert_eq!(cmd.draw(3, 1, 0, 0), Err(RecordError::NotRecording));
    assert_eq!(cmd.end(), Err(RecordError::NotRecording));
    assert!(cmd.commands().is_empty());

    assert_eq!(cmd.begin(1), Ok(()));
    assert_eq!(cmd.state(), RecordingState::Recording);
    assert_eq!(cmd.usage(), 1);
    assert_eq!(cmd.begin(1), Err(RecordError::NotInitial));
    assert_eq!(cmd.draw(3, 1, 0, 0), Ok(()));
    assert_eq!(cmd.draw_indexed(36, 1, 0, -2, 0), Ok(()));
    assert_eq!(cmd.end(), Ok(()));
    assert_eq!(cmd.state(), RecordingState::Executable);

    assert_eq!(cmd.draw(3, 1, 0, 0), Err(RecordError::NotRecording));
    assert_eq!(cmd.begin(0), Err(RecordError::NotInitial));
    assert_eq!(cmd.end(), Err(RecordError::NotRecording));
    assert_eq!(
        shown(cmd.commands()),
        vec![
            "Draw { vertex_count: 3, instance_count: 1, first_vertex: 0, first_instance: 0 }",
            "DrawIndexed { index_count: 36, instance_count: 1, first_index: 0, vertex_offset: -2, first_instance: 0 }",
        ]
    );

    cmd.reset();
    assert_eq!(cmd.state(), RecordingState::Initial);
    assert_eq!(cmd.usage(), 0);
    assert!(cmd.commands().is_empty());
    assert_eq!(cmd.begin(0), Ok(()));
}

#[test]
fn a_transition_touches_depth_only_for_the_depth_layout() {
    let mut cmd = CommandBuffer::new(1, 2);
    cmd.begin(0).unwrap();
    let target = image(9, 4, 4);
    cmd.transition_image(&target, IMAGE_LAYOUT_UNDEFINED, IMAGE_LAYOUT_GENERAL).unwrap();
    cmd.transition_image(&target, IMAGE_LAYOUT_UNDEFINED, IMAGE_LAYOUT_DEPTH_ATTACHMENT_OPTIMAL)
        .unwrap();
    cmd.transition_image(&target, IMAGE_LAYOUT_DEPTH_ATTACHMENT_OPTIMAL, IMAGE_LAYOUT_GENERAL)
        .unwrap();
    let expected = vec![
        Command::PipelineBarrier { barrier: barrier(9, 0, 1, IMAGE_ASPECT_COLOR) },
        Command::PipelineBarrier { barrier: barrier(9, 0, 1000241000, IMAGE_ASPECT_DEPTH) },
        Command::PipelineBarrier { barrier: barrier(9, 1000241000, 1, IMAGE_ASPECT_COLOR) },
    ];
    assert_eq!(shown(cmd.commands()), shown(&expected));
}

#[test]
fn a_copy_into_an_image_fills_its_first_level() {
    let mut cmd = CommandBuffer::new(1, 2);
    cmd.begin(0).unwrap();
    let src = Buffer::new(70, 64, true);
    let dst = Image::new(71, IMAGE_TYPE_2D, 43, Extent3D { width: 8, height: 2, depth: 5 });
    cmd.copy_buffer_to_image(&src, &dst).unwrap();
    cmd.copy_buffer(&src, &Buffer::new(72, 64, false), vec![BufferCopy {
        src_offset: 1,
        dst_offset: 2,
        size: 3,
    }])
    .unwrap();
    let expected = vec![
        Command::CopyBufferToImage {
            src: 70,
            dst: 71,
            dst_layout: IMAGE_LAYOUT_TRANSFER_DST_OPTIMAL,
            region: BufferImageCopy {
                buffer_offset: 0,
                buffer_row_length: 0,
                buffer_image_height: 0,
                image_subresource: ImageSubresourceLayers {
                    aspect_mask: IMAGE_ASPECT_COLOR,
                    mip_level: 0,
                    base_array_layer: 0,
                    layer_count: 1,
                },
                image_offset: Offset3D { x: 0, y: 0, z: 0 },
                image_extent: Extent3D { width: 8, height: 2, depth: 1 },
            },
        },
        Command::CopyBuffer {
            src: 70,
            dst: 72,
            regions: vec![BufferCopy { src_offset: 1, dst_offset: 2, size: 3 }],
        },
    ];
    assert_eq!(shown(cmd.commands()), shown(&expected));
}

#[test]
fn every_command_records_what_it_was_given() {
    let mut cmd = CommandBuffer::new(1, 2);
    cmd.begin(0).unwrap();
    let area = Rect2D { x: 1, y: 2, extent: Extent2D { width: 3, height: 4 } };
    let pass = RenderPass::new(80, 1);
    let framebuffer = Framebuffer::new(81, pass, vec![]);
    let attachment = RenderingAttachmentInfo {
        image_view: 5,
        image_layout: 2,
        resolve_mode: 0,
        resolve_image_view: 0,
        resolve_image_layout: 0,
        load_op: 1,
        store_op: 0,
    };
    let range = ImageSubresourceRange {
        aspect_mask: 1,
        base_mip_level: 0,
        level_count: 1,
        base_array_layer: 0,
        layer_count: 1,
    };
    cmd.clear_color_image(&image(9, 1, 1), vec![range, range]).unwrap();
    cmd.begin_render_pass(&pass, &framebuffer, area, Some(2), 0).unwrap();
    cmd.begin_render_pass(&pass, &framebuffer, area, None, 1).unwrap();
    cmd.end_render_pass().unwrap();
    cmd.begin_rendering(4, area, 1, 0, Some(&vec![attachment]), Some(attachment), None).unwrap();
    cmd.begin_rendering(0, area, 2, 3, None, None, Some(attachment)).unwrap();
    cmd.end_rendering().unwrap();
    cmd.bind_pipeline(90).unwrap();
    cmd.set_viewport(1, 2).unwrap();
    cmd.set_scissor(0, vec![area]).unwrap();
    cmd.bind_index_buffer(&Buffer::new(91, 4, false), 8, 1).unwrap();
    cmd.bind_vertex_buffers(2, &vec![(92, 0), (93, 16)]).unwrap();
    cmd.bind_descriptor_sets(0, 94, 1, &vec![DescriptorSet::new(95), DescriptorSet::new(96)])
        .unwrap();
    let expected = vec![
        Command::ClearColorImage {
            image: 9,
            image_layout: IMAGE_LAYOUT_GENERAL,
            ranges: vec![range, range],
        },
        Command::BeginRenderPass {
            render_pass: 80,
            framebuffer: 81,
            render_area: area,
            clear_value_count: 2,
            contents: 0,
        },
        Command::BeginRenderPass {
            render_pass: 80,
            framebuffer: 81,
            render_area: area,
            clear_value_count: 0,
            contents: 1,
        },
        Command::EndRenderPass,
        Command::BeginRendering {
            flags: 4,
            render_area: area,
            layer_count: 1,
            view_mask: 0,
            color_attachments: vec![attachment],
            depth_attachment: Some(attachment),
            stencil_attachment: None,
        },
        Command::BeginRendering {
            flags: 0,
            render_area: area,
            layer_count: 2,
            view_mask: 3,
            color_attachments: vec![],
            depth_attachment: None,
            stencil_attachment: Some(attachment),
        },
        Command::EndRendering,
        Command::BindPipeline { bind_point: 0, pipeline: 90 },
        Command::SetViewport { first_viewport: 1, viewport_count: 2 },
        Command::SetScissor { first_scissor: 0, scissors: vec![area] },
        Command::BindIndexBuffer { buffer: 91, offset: 8, index_type: 1 },
        Command::BindVertexBuffers { first_binding: 2, buffers: vec![92, 93], offsets: vec![0, 16] },
        Command::BindDescriptorSets {
            bind_point: 0,
            layout: 94,
            first_set: 1,
            descriptor_sets: vec![95, 96],
        },
    ];
    assert_eq!(shown(cmd.commands()), shown(&expected));
}

fn whole(extent_width: i32, extent_height: i32) -> (Offset3D, Offset3D) {
    (Offset3D { x: 0, y: 0, z: 0 }, Offset3D { x: extent_width, y: extent_height, z: 1 })
}

fn blit(src: u64, src_size: (i32, i32), dst: u64, dst_size: (i32, i32)) -> BlitImageInfo {
    let layer = ImageSubresourceLayers {
        aspect_mask: IMAGE_ASPECT_COLOR,
        mip_level: 0,
        base_array_layer: 0,
        layer_count: 1,
    };
    BlitImageInfo {
        src_image: src,
        src_image_layout: IMAGE_LAYOUT_TRANSFER_SRC_OPTIMAL,
        dst_image: dst,
        dst_image_layout: IMAGE_LAYOUT_TRANSFER_DST_OPTIMAL,
        filter: FILTER_LINEAR,
        region: ImageBlit {
            src_subresource: layer,
            src_start: whole(src_size.0, src_size.1).0,
            src_end: whole(src_size.0, src_size.1).1,
            dst_subresource: layer,
            dst_start: whole(dst_size.0, dst_size.1).0,
            dst_end: whole(dst_size.0, dst_size.1).1,
        },
    }
}

#[test]
fn an_image_is_blitted_whole_onto_another() {
    let mut cmd = CommandBuffer::new(1, 2);
    let src = image(10, 800, 600);
    let dst = image(11, 1024, 768);
    assert_eq!(
        RenderFrame::copy_image_to_image(&mut cmd, &src, &dst),
        Err(FrameRecordError::NotReset)
    );
    cmd.begin(0).unwrap();
    assert_eq!(RenderFrame::copy_image_to_image(&mut cmd, &src, &dst), Ok(()));
    let expected = vec![Command::BlitImage { info: blit(10, (800, 600), 11, (1024, 768)) }];
    assert_eq!(shown(cmd.commands()), shown(&expected));
    cmd.blit_image(&blit(1, (1, 1), 2, (2, 2))).unwrap();
    assert_eq!(cmd.commands().len(), 2);
}

#[test]
fn an_image_too_large_for_signed_corners_is_not_blitted() {
    let mut cmd = CommandBuffer::new(1, 2);
    cmd.begin(0).unwrap();
    let huge = image(10, 0x8000_0000, 1);
    let small = image(11, 0x7FFF_FFFF, 0x7FFF_FFFF);
    assert_eq!(
        RenderFrame::copy_image_to_image(&mut cmd, &huge, &small),
        Err(FrameRecordError::ExtentTooLarge)
    );
    assert_eq!(
        RenderFrame::copy_image_to_image(&mut cmd, &small, &huge),
        Err(FrameRecordError::ExtentTooLarge)
    );
    assert!(cmd.commands().is_empty());
    assert_eq!(RenderFrame::copy_image_to_image(&mut cmd, &small, &small), Ok(()));
    assert_eq!(cmd.commands().len(), 1);
}

fn resources() -> FrameResources {
    FrameResources {
        extent: Extent2D { width: 1024, height: 768 },
        draw_image: image(100, 1024, 768),
        draw_image_view: 101,
        swapchain_image: Image::from_swapchain(
            102,
            IMAGE_TYPE_2D,
            50,
            Extent3D { width: 1024, height: 768, depth: 1 },
        ),
        pipeline: 103,
        pipeline_layout: 104,
        descriptor_set: DescriptorSet::new(105),
        index_buffer: 106,
        vertex_buffers: vec![107, 108],
        index_count: 36,
    }
}

#[test]
fn a_frame_records_the_whole_sequence_and_closes_the_bracket() {
    let mut cmd = CommandBuffer::new(1, 2);
    assert_eq!(RenderFrame::record_commands(&mut cmd, &resources()), Ok(()));
    assert_eq!(cmd.state(), RecordingState::Executable);
    assert_eq!(cmd.usage(), COMMAND_BUFFER_USAGE_ONE_TIME_SUBMIT);
    let area = Rect2D { x: 0, y: 0, extent: Extent2D { width: 1024, height: 768 } };
    let expected = vec![
        Command::PipelineBarrier {
            barrier: barrier(100, IMAGE_LAYOUT_UNDEFINED, IMAGE_LAYOUT_GENERAL, 1),
        },
        Command::ClearColorImage {
            image: 100,
            image_layout: IMAGE_LAYOUT_GENERAL,
            ranges: vec![ImageSubresourceRange {
                aspect_mask: IMAGE_ASPECT_COLOR,
                base_mip_level: 0,
                level_count: REMAINING_MIP_LEVELS,
                base_array_layer: 0,
                layer_count: REMAINING_ARRAY_LAYERS,
            }],
        },
        Command::PipelineBarrier {
            barrier: barrier(100, IMAGE_LAYOUT_GENERAL, IMAGE_LAYOUT_COLOR_ATTACHMENT_OPTIMAL, 1),
        },
        Command::BeginRendering {
            flags: 0,
            render_area: area,
            layer_count: 1,
            view_mask: 0,
            color_attachments: vec![RenderingAttachmentInfo {
                image_view: 101,
                image_layout: IMAGE_LAYOUT_COLOR_ATTACHMENT_OPTIMAL,
                resolve_mode: 0,
                resolve_image_view: 0,
                resolve_image_layout: IMAGE_LAYOUT_UNDEFINED,
                load_op: ATTACHMENT_LOAD_OP_DONT_CARE,
                store_op: ATTACHMENT_STORE_OP_STORE,
            }],
            depth_attachment: None,
            stencil_attachment: None,
        },
        Command::BindPipeline { bind_point: 0, pipeline: 103 },
        Command::SetViewport { first_viewport: 0, viewport_count: 1 },
        Command::SetScissor { first_scissor: 0, scissors: vec![area] },
        Command::BindIndexBuffer { buffer: 106, offset: 0, index_type: INDEX_TYPE_UINT16 },
        Command::BindVertexBuffers { first_binding: 0, buffers: vec![107, 108], offsets: vec![0, 0] },
        Command::BindDescriptorSets {
            bind_point: 0,
            layout: 104,
            first_set: 0,
            descriptor_sets: vec![105],
        },
        Command::DrawIndexed {
            index_count: 36,
            instance_count: 1,
            first_index: 0,
            vertex_offset: 0,
            first_instance: 0,
        },
        Command::EndRendering,
        Command::PipelineBarrier {
            barrier: barrier(
                100,
                IMAGE_LAYOUT_COLOR_ATTACHMENT_OPTIMAL,
                IMAGE_LAYOUT_TRANSFER_SRC_OPTIMAL,
                1,
            ),
        },
        Command::PipelineBarrier {
            barrier: barrier(102, IMAGE_LAYOUT_UNDEFINED, IMAGE_LAYOUT_TRANSFER_DST_OPTIMAL, 1),
        },
        Command::BlitImage { info: blit(100, (1024, 768), 102, (1024, 768)) },
        Command::PipelineBarrier {
            barrier: barrier(102, IMAGE_LAYOUT_TRANSFER_DST_OPTIMAL, IMAGE_LAYOUT_PRESENT_SRC, 1),
        },
    ];
    assert_eq!(shown(cmd.commands()), shown(&expected));
}

#[test]
fn a_frame_is_recorded_into_a_reset_buffer_only() {
    let mut cmd = CommandBuffer::new(1, 2);
    cmd.begin(0).unwrap();
    assert_eq!(
        RenderFrame::record_commands(&mut cmd, &resources()),
        Err(FrameRecordError::NotReset)
    );
    assert!(cmd.commands().is_empty());
    cmd.end().unwrap();
    assert_eq!(
        RenderFrame::record_commands(&mut cmd, &resources()),
        Err(FrameRecordError::NotReset)
    );
    cmd.reset();
    let mut oversized = resources();
    oversized.swapchain_image.extent.width = u32::MAX;
    assert_eq!(
        RenderFrame::record_commands(&mut cmd, &oversized),
        Err(FrameRecordError::ExtentTooLarge)
    );
    assert_eq!(cmd.state(), RecordingState::Initial);
    assert_eq!(RenderFrame::record_commands(&mut cmd, &resources()), Ok(()));
    assert_eq!(cmd.commands().len(), 16);
    // Every frame is recorded anew.
    cmd.reset();
    assert_eq!(RenderFrame::record_commands(&mut cmd, &resources()), Ok(()));
    assert_eq!(cmd.commands().len(), 16);
}

#[test]
fn command_constants_are_the_native_ones() {
    assert_eq!(IMAGE_LAYOUT_UNDEFINED, vk::ImageLayout::UNDEFINED.as_raw());
    assert_eq!(IMAGE_LAYOUT_GENERAL, vk::ImageLayout::GENERAL.as_raw());
    assert_eq!(
        IMAGE_LAYOUT_COLOR_ATTACHMENT_OPTIMAL,
        vk::ImageLayout::COLOR_ATTACHMENT_OPTIMAL.as_raw()
    );
    assert_eq!(IMAGE_LAYOUT_TRANSFER_SRC_OPTIMAL, vk::ImageLayout::TRANSFER_SRC_OPTIMAL.as_raw());
    assert_eq!(IMAGE_LAYOUT_TRANSFER_DST_OPTIMAL, vk::ImageLayout::TRANSFER_DST_OPTIMAL.as_raw());
    assert_eq!(IMAGE_LAYOUT_PRESENT_SRC, vk::ImageLayout::PRESENT_SRC_KHR.as_raw());
    assert_eq!(
        IMAGE_LAYOUT_DEPTH_ATTACHMENT_OPTIMAL,
        vk::ImageLayout::DEPTH_ATTACHMENT_OPTIMAL.as_raw()
    );
    assert_eq!(IMAGE_ASPECT_COLOR, vk::ImageAspectFlags::COLOR.as_raw());
    assert_eq!(IMAGE_ASPECT_DEPTH, vk::ImageAspectFlags::DEPTH.as_raw());
    assert_eq!(PIPELINE_STAGE_ALL_COMMANDS, vk::PipelineStageFlags2::ALL_COMMANDS.as_raw());
    assert_eq!(ACCESS_MEMORY_READ, vk::AccessFlags2::MEMORY_READ.as_raw());
    assert_eq!(ACCESS_MEMORY_WRITE, vk::AccessFlags2::MEMORY_WRITE.as_raw());
    assert_eq!(
        ACCESS_MEMORY_READ_WRITE,
        (vk::AccessFlags2::MEMORY_READ | vk::AccessFlags2::MEMORY_WRITE).as_raw()
    );
    assert_eq!(REMAINING_MIP_LEVELS, vk::REMAINING_MIP_LEVELS);
    assert_eq!(REMAINING_ARRAY_LAYERS, vk::REMAINING_ARRAY_LAYERS);
    assert_eq!(FILTER_LINEAR, vk::Filter::LINEAR.as_raw());
    assert_eq!(
        COMMAND_BUFFER_USAGE_ONE_TIME_SUBMIT,
        vk::CommandBufferUsageFlags::ONE_TIME_SUBMIT.as_raw()
    );
    assert_eq!(ATTACHMENT_LOAD_OP_DONT_CARE, vk::AttachmentLoadOp::DONT_CARE.as_raw());
    assert_eq!(ATTACHMENT_STORE_OP_STORE, vk::AttachmentStoreOp::STORE.as_raw());
    assert_eq!(INDEX_TYPE_UINT16, vk::IndexType::UINT16.as_raw());
    let native = vk::ImageMemoryBarrier2::default();
    assert_eq!((native.src_queue_family_index, native.dst_queue_family_index), (0, 0));
}
