use ash::vk;
use vulka::buffer::{AllocationCreateInfo, MemoryUsage, SHARING_MODE_EXCLUSIVE};
use vulka::extent::{Extent2D, Extent3D};
use vulka::framebuffer::{Framebuffer, FramebufferError};
use vulka::image::{
    Image, ImageCreateInfo, IMAGE_LAYOUT_UNDEFINED, IMAGE_TYPE_1D, IMAGE_TYPE_2D, IMAGE_TYPE_3D,
    IMAGE_VIEW_TYPE_1D, IMAGE_VIEW_TYPE_2D, IMAGE_VIEW_TYPE_3D,
};
use vulka::image_view::{ImageSubresourceRange, ImageView, ImageViewCreateInfo};
use vulka::physical_device::SurfaceCapabilities;
use vulka::raw_handle::HasRawVkHandle;
use vulka::render_pass::RenderPass;
use vulka::swapchain::{AcquireInfo, Swapchain, SwapchainCreateInfo, COMPOSITE_ALPHA_OPAQUE};
use vulka::sync::{Fence, Semaphore, FENCE_CREATE_SIGNALED};

fn capabilities() -> SurfaceCapabilities {
    SurfaceCapabilities {
        min_image_count: 2,
        max_image_count: 0,
        current_extent: Extent2D { width: 800, height: 600 },
        min_image_extent: Extent2D { width: 1, height: 1 },
        max_image_extent: Extent2D { width: 4096, height: 4096 },
        max_image_array_layers: 1,
        supported_transforms: 0x1FF,
        current_transform: 0x4,
        supported_composite_alpha: 1,
        supported_usage_flags: 0x1F,
    }
}

fn info(old_swapchain: Option<&mut Swapchain>) -> SwapchainCreateInfo {
    Swapchain::create_info(
        33,
        &capabilities(),
        3,
        50,
        0,
        Extent2D { width: 800, height: 600 },
        0x12,
        2,
        old_swapchain,
    )
}

#[test]
fn a_first_swapchain_has_no_predecessor() {
    assert_eq!(
        info(None),
        SwapchainCreateInfo {
            flags: 0,
            surface: 33,
            min_image_count: 3,
            image_format: 50,
            image_color_space: 0,
            image_extent: Extent2D { width: 800, height: 600 },
            image_array_layers: 1,
            image_usage: 0x12,
            image_sharing_mode: SHARING_MODE_EXCLUSIVE,
            pre_transform: 0x4,
            composite_alpha: COMPOSITE_ALPHA_OPAQUE,
            present_mode: 2,
            clipped: true,
            old_swapchain: 0,
        }
    );
    assert_eq!(COMPOSITE_ALPHA_OPAQUE, vk::CompositeAlphaFlagsKHR::OPAQUE.as_raw());
}

#[test]
fn a_rebuild_hands_over_the_old_swapchain_and_retires_it() {
    let mut old = Swapchain::new(40, 50, Extent2D { width: 640, height: 480 });
    assert!(!old.is_retired());
    assert!(old.acquire_next_image(None, Some(1), None).is_some());
    let rebuilt = info(Some(&mut old));
    assert_eq!(rebuilt.old_swapchain, 40);
    assert!(old.is_retired());
    // The old swapchain must not be used again: it yields no image.
    assert_eq!(old.acquire_next_image(None, Some(1), None), None);
    assert_eq!(old.get_vk_handle(), 40);
    assert_eq!(old.format(), 50);
    assert_eq!(old.extent(), Extent2D { width: 640, height: 480 });
}

#[test]
fn an_acquire_waits_without_limit_unless_told_otherwise() {
    let swapchain = Swapchain::new(40, 50, Extent2D { width: 640, height: 480 });
    assert_eq!(
        swapchain.acquire_next_image(None, Some(7), None),
        Some(AcquireInfo { swapchain: 40, timeout: u64::MAX, semaphore: 7, fence: 0 })
    );
    assert_eq!(
        swapchain.acquire_next_image(Some(5), None, Some(8)),
        Some(AcquireInfo { swapchain: 40, timeout: 5, semaphore: 0, fence: 8 })
    );
}

#[test]
fn there_are_as_many_images_as_the_driver_lists() {
    let mut swapchain = Swapchain::new(40, 50, Extent2D { width: 640, height: 480 });
    assert!(swapchain.images().is_none());
    swapchain.cache_images(&vec![1, 2, 3, 4]);
    let extent = Extent3D { width: 640, height: 480, depth: 1 };
    let expected: Vec<Image> =
        (1..=4).map(|h| Image::from_swapchain(h, IMAGE_TYPE_2D, 50, extent)).collect();
    assert_eq!(swapchain.images(), Some(&expected));
    // The list is made once.
    swapchain.cache_images(&vec![9]);
    assert_eq!(swapchain.images(), Some(&expected));
}

#[test]
fn only_an_allocated_image_destroys_its_handle() {
    let extent = Extent3D { width: 4, height: 4, depth: 1 };
    let own = Image::new(1, IMAGE_TYPE_2D, 97, extent);
    let lent = Image::from_swapchain(2, IMAGE_TYPE_2D, 50, extent);
    assert!(own.destroys_on_drop());
    assert!(!lent.destroys_on_drop());
    assert_eq!((own.image_type(), own.format(), own.extent()), (IMAGE_TYPE_2D, 97, extent));
    assert_eq!(lent.get_vk_handle(), 2);
}

#[test]
fn an_image_is_created_exclusive_and_undefined() {
    let extent = Extent3D { width: 16, height: 8, depth: 1 };
    let (image, allocation) =
        Image::create_info(1, 43, extent, 2, 3, 4, 0, 0x6, MemoryUsage::AutoPreferDevice, 8, 1);
    assert_eq!(
        image,
        ImageCreateInfo {
            flags: 0,
            image_type: 1,
            format: 43,
            extent,
            mip_levels: 2,
            array_layers: 3,
            samples: 4,
            tiling: 0,
            usage: 0x6,
            sharing_mode: SHARING_MODE_EXCLUSIVE,
            initial_layout: IMAGE_LAYOUT_UNDEFINED,
        }
    );
    assert_eq!(
        allocation,
        AllocationCreateInfo {
            flags: 8,
            usage: MemoryUsage::AutoPreferDevice,
            required_flags: 1,
            preferred_flags: 0,
            memory_type_bits: 0,
            user_data: 0,
        }
    );
}

#[test]
fn the_default_view_matches_the_dimension_of_the_image() {
    let extent = Extent3D { width: 4, height: 4, depth: 1 };
    for (image_type, view_type) in [
        (IMAGE_TYPE_1D, IMAGE_VIEW_TYPE_1D),
        (IMAGE_TYPE_2D, IMAGE_VIEW_TYPE_2D),
        (IMAGE_TYPE_3D, IMAGE_VIEW_TYPE_3D),
    ] {
        let image = Image::new(6, image_type, 97, extent);
        assert_eq!(
            image.get_default_view(0x1),
            Some(ImageViewCreateInfo {
                flags: 0,
                image: 6,
                view_type,
                format: 97,
                subresource_range: ImageSubresourceRange {
                    aspect_mask: 0x1,
                    base_mip_level: 0,
                    level_count: 1,
                    base_array_layer: 0,
                    layer_count: 1,
                },
            })
        );
    }
    assert_eq!(Image::new(6, 3, 97, extent).get_default_view(1), None);
    assert_eq!(Image::new(6, -1, 97, extent).get_default_view(1), None);
    assert_eq!(IMAGE_TYPE_3D, vk::ImageType::TYPE_3D.as_raw());
    assert_eq!(IMAGE_VIEW_TYPE_3D, vk::ImageViewType::TYPE_3D.as_raw());
    assert_eq!(IMAGE_VIEW_TYPE_2D, vk::ImageViewType::TYPE_2D.as_raw());
}

#[test]
fn a_view_is_created_of_its_image() {
    let range = ImageSubresourceRange {
        aspect_mask: 2,
        base_mip_level: 1,
        level_count: 2,
        base_array_layer: 3,
        layer_count: 4,
    };
    assert_eq!(
        ImageView::create_info(6, 1, 97, range),
        ImageViewCreateInfo { flags: 0, image: 6, view_type: 1, format: 97, subresource_range: range }
    );
    let view = ImageView::new(7, 6);
    assert_eq!((view.get_vk_handle(), view.image), (7, 6));
}

#[test]
fn a_framebuffer_needs_one_view_per_attachment() {
    let pass = RenderPass::new(80, 2);
    let views = vec![ImageView::new(1, 10), ImageView::new(2, 20)];
    let info = Framebuffer::create_info(&pass, &views, 640, 480, 1).unwrap();
    assert_eq!(
        (info.flags, info.render_pass, info.attachments, info.width, info.height, info.layers),
        (0, 80, vec![1, 2], 640, 480, 1)
    );
    assert_eq!(
        Framebuffer::create_info(&pass, &views[..1].to_vec(), 640, 480, 1).err(),
        Some(FramebufferError::AttachmentCountMismatch { expected: 2, given: 1 })
    );
    assert_eq!(
        Framebuffer::create_info(&RenderPass::new(80, 0), &views, 1, 1, 1).err(),
        Some(FramebufferError::AttachmentCountMismatch { expected: 0, given: 2 })
    );
    let framebuffer = Framebuffer::new(81, pass, views);
    assert_eq!(framebuffer.render_pass(), pass);
    assert_eq!(framebuffer.get_vk_handle(), 81);
}

#[test]
fn a_fence_can_start_out_signaled() {
    assert_eq!(Fence::new(1), Fence { handle: 1, signaled: false });
    assert_eq!(Fence::signaled(1), Fence { handle: 1, signaled: true });
    assert_eq!(Fence::new(1).create_flags(), 0);
    assert_eq!(Fence::signaled(1).create_flags(), FENCE_CREATE_SIGNALED);
    assert_eq!(FENCE_CREATE_SIGNALED, vk::FenceCreateFlags::SIGNALED.as_raw());
    assert_eq!(Semaphore::new(2), Semaphore { handle: 2 });
}
