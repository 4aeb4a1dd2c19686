use ash::vk;
use vulka::buffer::MemoryUsage;
use vulka::extent::{Extent2D, Extent3D};
use vulka::instance::{Instance, Surface, API_MAJOR, API_MINOR, API_PATCH, API_VARIANT};
use vulka::physical_device::{
    PhysicalDevice, QueueFamilyProperties, SurfaceCapabilities, SurfaceFormat, EXTENT_UNDEFINED,
};
use vulka::raw_handle::{HasRawAshHandle, HasRawVkHandle};
use vulka::setup::{
    check_eligible, choose_present_mode, choose_surface_format, draw_image_info,
    first_least_position, get_surface_details, select_physical_device, select_queue_families,
    swapchain_info, SurfaceDetails, COLOR_SPACE_SRGB_NONLINEAR, DRAW_IMAGE_USAGE,
    FORMAT_B8G8R8A8_SRGB, FORMAT_R16G16B16A16_SFLOAT, IMAGE_TILING_OPTIMAL,
    MEMORY_PROPERTY_DEVICE_LOCAL, PHYSICAL_DEVICE_TYPE_DISCRETE_GPU,
    PHYSICAL_DEVICE_TYPE_INTEGRATED_GPU, PRESENT_MODE_FIFO, PRESENT_MODE_FIFO_RELAXED,
    QUEUE_COMPUTE, QUEUE_GRAPHICS, SWAPCHAIN_IMAGE_USAGE,
};
use vulka::swapchain::Swapchain;

const MAILBOX: i32 = 1;
const IMMEDIATE: i32 = 0;

fn chars(bytes: &[u8]) -> Vec<i8> {
    bytes.iter().map(|b| *b as i8).collect()
}

fn family(queue_flags: u32) -> QueueFamilyProperties {
    QueueFamilyProperties {
        queue_flags,
        queue_count: 1,
        timestamp_valid_bits: 0,
        min_image_transfer_granularity: Extent3D { width: 1, height: 1, depth: 1 },
    }
}

fn adapter(handle: u64, device_type: i32) -> PhysicalDevice {
    let mut d = PhysicalDevice::new(handle);
    d.device_type = device_type;
    d.queue_family_properties = vec![family(4), family(QUEUE_GRAPHICS | QUEUE_COMPUTE)];
    d.surface_support = vec![false, true];
    d.sampler_anisotropy = true;
    d.extension_properties =
        vec![chars(b"VK_KHR_swapchain\0\0"), chars(b"VK_KHR_dynamic_rendering\0")];
    d
}

fn required() -> (Vec<u32>, Vec<Vec<u8>>) {
    (vec![QUEUE_GRAPHICS], vec![b"VK_KHR_swapchain\0".to_vec(), b"VK_KHR_dynamic_rendering\0".to_vec()])
}

#[test]
fn the_first_adapter_of_the_best_kind_is_selected() {
    let (flags, extensions) = required();
    let select = |types: &[i32]| {
        let devices: Vec<PhysicalDevice> =
            types.iter().enumerate().map(|(i, t)| adapter(i as u64, *t)).collect();
        select_physical_device(&devices, &flags, &extensions)
    };
    let (cpu, integrated, discrete) =
        (4, PHYSICAL_DEVICE_TYPE_INTEGRATED_GPU, PHYSICAL_DEVICE_TYPE_DISCRETE_GPU);
    assert_eq!(select(&[]), None);
    assert_eq!(select(&[cpu]), Some(0));
    assert_eq!(select(&[cpu, integrated, discrete]), Some(2));
    assert_eq!(select(&[integrated, cpu, integrated]), Some(0));
    assert_eq!(select(&[cpu, discrete, discrete]), Some(1));
    assert_eq!(select(&[0, 3, cpu]), Some(0));
    assert_eq!(discrete, vk::PhysicalDeviceType::DISCRETE_GPU.as_raw());
    assert_eq!(integrated, vk::PhysicalDeviceType::INTEGRATED_GPU.as_raw());
}

#[test]
fn only_the_preferred_adapter_is_considered() {
    let (flags, extensions) = required();
    let mut unfit = adapter(0, PHYSICAL_DEVICE_TYPE_DISCRETE_GPU);
    unfit.sampler_anisotropy = false;
    let fit = adapter(1, PHYSICAL_DEVICE_TYPE_INTEGRATED_GPU);
    assert_eq!(select_physical_device(&vec![unfit, fit], &flags, &extensions), None);
}

#[test]
fn an_adapter_must_present_have_the_queues_and_offer_the_extensions() {
    let (flags, extensions) = required();
    let fit = adapter(0, 2);
    assert!(check_eligible(&fit, &flags, &extensions));
    assert!(check_eligible(&fit, &vec![], &vec![]));

    let mut d = adapter(0, 2);
    d.surface_support = vec![false, false];
    assert!(!check_eligible(&d, &flags, &extensions));
    d.surface_support = vec![];
    assert!(!check_eligible(&d, &flags, &extensions));

    let mut d = adapter(0, 2);
    d.queue_family_properties = vec![family(4), family(QUEUE_COMPUTE)];
    assert!(!check_eligible(&d, &flags, &extensions));
    // Each required set of flags must be met by one family on its own.
    assert!(!check_eligible(&fit, &vec![QUEUE_GRAPHICS | 4 | 8], &extensions));
    assert!(check_eligible(&fit, &vec![QUEUE_GRAPHICS, 4], &extensions));

    let mut d = adapter(0, 2);
    d.sampler_anisotropy = false;
    assert!(!check_eligible(&d, &flags, &extensions));

    let mut d = adapter(0, 2);
    d.extension_properties.pop();
    assert!(!check_eligible(&d, &flags, &extensions));
    // A required name without its terminator matches nothing.
    assert!(!check_eligible(&fit, &flags, &vec![b"VK_KHR_swapchain".to_vec()]));
    assert!(!check_eligible(&fit, &flags, &vec![b"VK_KHR_swap\0".to_vec()]));
}

#[test]
fn families_that_do_graphics_or_compute_are_created() {
    let families =
        vec![family(4), family(QUEUE_GRAPHICS), family(8), family(QUEUE_COMPUTE | 4), family(3)];
    assert_eq!(select_queue_families(&families), vec![1, 3, 4]);
    assert_eq!(select_queue_families(&vec![]), Vec::<u32>::new());
    assert_eq!(select_queue_families(&vec![family(4)]), Vec::<u32>::new());
}

#[test]
fn relaxed_fifo_is_preferred_then_fifo_then_the_first_mode() {
    assert_eq!(choose_present_mode(&vec![]), None);
    assert_eq!(
        choose_present_mode(&vec![MAILBOX, PRESENT_MODE_FIFO, PRESENT_MODE_FIFO_RELAXED]),
        Some(PRESENT_MODE_FIFO_RELAXED)
    );
    assert_eq!(
        choose_present_mode(&vec![MAILBOX, PRESENT_MODE_FIFO, IMMEDIATE]),
        Some(PRESENT_MODE_FIFO)
    );
    assert_eq!(choose_present_mode(&vec![MAILBOX, IMMEDIATE]), Some(MAILBOX));
    assert_eq!(PRESENT_MODE_FIFO, vk::PresentModeKHR::FIFO.as_raw());
    assert_eq!(PRESENT_MODE_FIFO_RELAXED, vk::PresentModeKHR::FIFO_RELAXED.as_raw());
    assert_eq!(first_least_position(&vec![3, 1, 2, 1]), Some(1));
    assert_eq!(first_least_position(&vec![]), None);
}

#[test]
fn the_srgb_format_is_preferred_else_the_first() {
    let srgb = SurfaceFormat { format: FORMAT_B8G8R8A8_SRGB, color_space: COLOR_SPACE_SRGB_NONLINEAR };
    let unorm = SurfaceFormat { format: 44, color_space: COLOR_SPACE_SRGB_NONLINEAR };
    let other_space = SurfaceFormat { format: FORMAT_B8G8R8A8_SRGB, color_space: 1000104001 };
    assert_eq!(choose_surface_format(&vec![]), None);
    assert_eq!(choose_surface_format(&vec![unorm, other_space, srgb]), Some(srgb));
    assert_eq!(choose_surface_format(&vec![unorm, other_space]), Some(unorm));
    assert_eq!(choose_surface_format(&vec![other_space, unorm]), Some(other_space));
    assert_eq!(FORMAT_B8G8R8A8_SRGB, vk::Format::B8G8R8A8_SRGB.as_raw());
    assert_eq!(COLOR_SPACE_SRGB_NONLINEAR, vk::ColorSpaceKHR::SRGB_NONLINEAR.as_raw());
}

fn presenting_adapter() -> PhysicalDevice {
    let mut d = adapter(7, 2);
    d.surface_present_modes = vec![MAILBOX, PRESENT_MODE_FIFO];
    d.surface_formats = vec![SurfaceFormat { format: 44, color_space: 0 }];
    d.surface_capabilities = SurfaceCapabilities {
        min_image_count: 2,
        max_image_count: 8,
        current_extent: Extent2D { width: EXTENT_UNDEFINED, height: EXTENT_UNDEFINED },
        min_image_extent: Extent2D { width: 64, height: 64 },
        max_image_extent: Extent2D { width: 2048, height: 2048 },
        max_image_array_layers: 1,
        supported_transforms: 1,
        current_transform: 1,
        supported_composite_alpha: 1,
        supported_usage_flags: 0x1F,
    };
    d
}

#[test]
fn surface_details_combine_mode_format_and_clamped_extent() {
    let d = presenting_adapter();
    let details = get_surface_details(&d, 4000, 10).unwrap();
    assert_eq!(
        details,
        SurfaceDetails {
            present_mode: PRESENT_MODE_FIFO,
            format: SurfaceFormat { format: 44, color_space: 0 },
            extent: Extent2D { width: 2048, height: 64 },
        }
    );
    let mut without_modes = presenting_adapter();
    without_modes.surface_present_modes = vec![];
    assert_eq!(get_surface_details(&without_modes, 1, 1), None);
    let mut without_formats = presenting_adapter();
    without_formats.surface_formats = vec![];
    assert_eq!(get_surface_details(&without_formats, 1, 1), None);
}

#[test]
fn the_swapchain_asks_for_the_ideal_image_count() {
    let d = presenting_adapter();
    let details = get_surface_details(&d, 800, 600).unwrap();
    let first = swapchain_info(33, &d, &details, None);
    assert_eq!(first.min_image_count, 3);
    assert_eq!(first.image_extent, Extent2D { width: 800, height: 600 });
    assert_eq!((first.image_format, first.image_color_space), (44, 0));
    assert_eq!(first.image_usage, SWAPCHAIN_IMAGE_USAGE);
    assert_eq!(first.present_mode, PRESENT_MODE_FIFO);
    assert_eq!((first.surface, first.old_swapchain, first.pre_transform), (33, 0, 1));
    let mut old = Swapchain::new(40, 44, Extent2D { width: 800, height: 600 });
    let second = swapchain_info(33, &d, &details, Some(&mut old));
    assert_eq!(second.old_swapchain, 40);
    assert!(old.is_retired());
    assert_eq!(
        SWAPCHAIN_IMAGE_USAGE,
        (vk::ImageUsageFlags::COLOR_ATTACHMENT | vk::ImageUsageFlags::TRANSFER_DST).as_raw()
    );
}

#[test]
fn draw_images_are_device_local_color_targets() {
    let extent = Extent3D { width: 800, height: 600, depth: 1 };
    let (image, allocation) = draw_image_info(extent);
    assert_eq!(image.extent, extent);
    assert_eq!((image.image_type, image.format), (1, FORMAT_R16G16B16A16_SFLOAT));
    assert_eq!((image.mip_levels, image.array_layers, image.samples), (1, 1, 1));
    assert_eq!((image.tiling, image.usage), (IMAGE_TILING_OPTIMAL, DRAW_IMAGE_USAGE));
    assert_eq!(allocation.usage, MemoryUsage::AutoPreferDevice);
    assert_eq!((allocation.flags, allocation.required_flags), (0, MEMORY_PROPERTY_DEVICE_LOCAL));
    assert_eq!(FORMAT_R16G16B16A16_SFLOAT, vk::Format::R16G16B16A16_SFLOAT.as_raw());
    assert_eq!(IMAGE_TILING_OPTIMAL, vk::ImageTiling::OPTIMAL.as_raw());
    assert_eq!(
        DRAW_IMAGE_USAGE,
        (vk::ImageUsageFlags::TRANSFER_SRC
            | vk::ImageUsageFlags::TRANSFER_DST
            | vk::ImageUsageFlags::STORAGE
            | vk::ImageUsageFlags::COLOR_ATTACHMENT)
            .as_raw()
    );
}

#[test]
fn the_instance_names_the_application_and_the_api_version() {
    let extensions = vec![b"VK_KHR_surface\0".to_vec(), b"VK_KHR_xcb_surface\0".to_vec()];
    let info = Instance::create_info(extensions.clone(), true);
    assert_eq!(info.flags, 0);
    assert_eq!(info.application_info.application_name, b"vulka\0".to_vec());
    assert_eq!(info.application_info.engine_name, b"no engine\0".to_vec());
    assert_eq!(info.application_info.application_version, 0);
    assert_eq!(info.application_info.engine_version, 0);
    assert_eq!(info.application_info.api_version, (1 << 22) | (3 << 12) | 268);
    assert_eq!(info.application_info.api_version, vk::make_api_version(0, 1, 3, 268));
    assert_eq!((API_VARIANT, API_MAJOR, API_MINOR, API_PATCH), (0, 1, 3, 268));
    assert_eq!(info.enabled_layer_names, vec![b"VK_LAYER_KHRONOS_validation\0".to_vec()]);
    assert_eq!(info.enabled_extension_names, extensions);
    let info = Instance::create_info(vec![], false);
    assert!(info.enabled_layer_names.is_empty());
    assert!(info.enabled_extension_names.is_empty());
}

#[test]
fn the_adapters_of_an_instance_are_listed_once() {
    let mut instance = Instance::new(1, Surface::new(2));
    assert_eq!(*instance.get_ash_handle(), 1);
    assert_eq!(instance.get_surface().get_vk_handle(), 2);
    assert!(instance.get_physical_devices().is_empty());
    instance.cache_physical_devices(vec![10, 11]);
    instance.cache_physical_devices(vec![12]);
    let handles: Vec<u64> = instance.get_physical_devices().iter().map(|d| d.handle).collect();
    assert_eq!(handles, vec![10, 11]);
}
