use vulka::extent::{Extent2D, Extent3D};
use vulka::physical_device::{
    clamp, find_terminator, get_string_from_chars, PhysicalDevice, QueueFamilyProperties,
    SurfaceCapabilities, SurfaceFormat, EXTENT_UNDEFINED,
};
use vulka::raw_handle::HasRawVkHandle;

fn chars(bytes: &[u8]) -> Vec<i8> {
    bytes.iter().map(|b| *b as i8).collect()
}

fn capabilities(current: (u32, u32), min: (u32, u32), max: (u32, u32)) -> SurfaceCapabilities {
    SurfaceCapabilities {
        min_image_count: 2,
        max_image_count: 3,
        current_extent: Extent2D { width: current.0, height: current.1 },
        min_image_extent: Extent2D { width: min.0, height: min.1 },
        max_image_extent: Extent2D { width: max.0, height: max.1 },
        max_image_array_layers: 1,
        supported_transforms: 1,
        current_transform: 1,
        supported_composite_alpha: 1,
        supported_usage_flags: 0x10,
    }
}

fn device_with(caps: SurfaceCapabilities) -> PhysicalDevice {
    let mut device = PhysicalDevice::new(11);
    device.surface_capabilities = caps;
    device
}

#[test]
fn a_size_outside_the_allowed_range_is_clamped() {
    let device = device_with(capabilities(
        (EXTENT_UNDEFINED, EXTENT_UNDEFINED),
        (200, 100),
        (1600, 1200),
    ));
    assert_eq!(
        device.get_surface_current_extent_clamped(5000, 5000),
        Extent2D { width: 1600, height: 1200 }
    );
    assert_eq!(
        device.get_surface_current_extent_clamped(0, 0),
        Extent2D { width: 200, height: 100 }
    );
    assert_eq!(
        device.get_surface_current_extent_clamped(10, 4000),
        Extent2D { width: 200, height: 1200 }
    );
    assert_eq!(
        device.get_surface_current_extent_clamped(u32::MAX, u32::MAX),
        Extent2D { width: 1600, height: 1200 }
    );
}

#[test]
fn a_size_within_the_allowed_range_is_kept() {
    let device = device_with(capabilities(
        (EXTENT_UNDEFINED, EXTENT_UNDEFINED),
        (200, 100),
        (1600, 1200),
    ));
    for (w, h) in [(200, 100), (1024, 768), (1600, 1200)] {
        assert_eq!(
            device.get_surface_current_extent_clamped(w, h),
            Extent2D { width: w, height: h }
        );
    }
}

#[test]
fn a_surface_with_an_extent_of_its_own_dictates_it() {
    let device = device_with(capabilities((640, 480), (1, 1), (4096, 4096)));
    assert_eq!(
        device.get_surface_current_extent_clamped(5000, 10),
        Extent2D { width: 640, height: 480 }
    );
    // One undefined component is not enough: the size asked for is clamped.
    let device = device_with(capabilities((640, EXTENT_UNDEFINED), (1, 1), (4096, 4096)));
    assert_eq!(
        device.get_surface_current_extent_clamped(5000, 10),
        Extent2D { width: 4096, height: 10 }
    );
}

#[test]
fn clamp_moves_a_value_into_its_range() {
    assert_eq!(clamp(5, 10, 20), 10);
    assert_eq!(clamp(25, 10, 20), 20);
    assert_eq!(clamp(15, 10, 20), 15);
    assert_eq!(clamp(7, 7, 7), 7);
    for v in [0u32, 9, 10, 15, 20, 21, u32::MAX] {
        assert_eq!(clamp(v, 10, 20), v.clamp(10, 20));
    }
}

#[test]
fn one_image_more_than_the_minimum_unless_the_surface_allows_fewer() {
    let mut caps = capabilities((1, 1), (1, 1), (1, 1));
    let count = |caps: SurfaceCapabilities| device_with(caps).get_surface_ideal_image_count();
    caps.min_image_count = 2;
    caps.max_image_count = 8;
    assert_eq!(count(caps), 3);
    caps.max_image_count = 3;
    assert_eq!(count(caps), 3);
    caps.max_image_count = 2;
    assert_eq!(count(caps), 2);
    // No maximum means no limit.
    caps.max_image_count = 0;
    assert_eq!(count(caps), 3);
    caps.min_image_count = 0;
    assert_eq!(count(caps), 1);
    caps.min_image_count = u32::MAX;
    assert_eq!(count(caps), u32::MAX);
    caps.max_image_count = 5;
    assert_eq!(count(caps), 5);
}

#[test]
fn text_ends_at_the_first_terminator() {
    assert_eq!(get_string_from_chars(&chars(b"NVIDIA\0\0\0")), Some(String::from("NVIDIA")));
    assert_eq!(get_string_from_chars(&chars(b"a\0b\0")), Some(String::from("a")));
    assert_eq!(get_string_from_chars(&chars(b"\0")), Some(String::new()));
    assert_eq!(
        get_string_from_chars(&chars("Grafikkarte ü\0".as_bytes())),
        Some(String::from("Grafikkarte ü"))
    );
}

#[test]
fn text_without_terminator_or_with_broken_encoding_yields_nothing() {
    assert_eq!(get_string_from_chars(&chars(b"NVIDIA")), None);
    assert_eq!(get_string_from_chars(&[]), None);
    assert_eq!(get_string_from_chars(&chars(&[0xFF, 0xFE, 0])), None);
    assert_eq!(get_string_from_chars(&chars(&[0xC3, 0])), None);
    // Broken bytes behind the terminator do not matter.
    assert_eq!(get_string_from_chars(&chars(&[b'o', b'k', 0, 0xFF])), Some(String::from("ok")));
}

#[test]
fn the_first_terminator_is_found() {
    assert_eq!(find_terminator(&chars(b"ab\0c\0")), Some(2));
    assert_eq!(find_terminator(&chars(b"\0")), Some(0));
    assert_eq!(find_terminator(&chars(b"abc")), None);
}

#[test]
fn a_device_reports_what_it_was_told() {
    let mut device = PhysicalDevice::new(11);
    assert_eq!(device.get_vk_handle(), 11);
    assert_eq!(device.device_name(), None);
    device.device_id = 0x2484;
    device.device_type = 2;
    device.device_name = chars(b"GeForce\0garbage");
    let family = QueueFamilyProperties {
        queue_flags: 0xF,
        queue_count: 16,
        timestamp_valid_bits: 64,
        min_image_transfer_granularity: Extent3D { width: 1, height: 1, depth: 1 },
    };
    device.queue_family_properties = vec![family];
    device.surface_support = vec![true];
    device.surface_formats = vec![SurfaceFormat { format: 50, color_space: 0 }];
    device.surface_present_modes = vec![2, 3];
    assert_eq!(device.device_id(), 0x2484);
    assert_eq!(device.device_type(), 2);
    assert_eq!(device.device_name(), Some(String::from("GeForce")));
    assert_eq!(device.get_queue_family_properties(), &vec![family]);
    assert_eq!(device.get_surface_formats(), &vec![SurfaceFormat { format: 50, color_space: 0 }]);
    assert_eq!(device.get_surface_present_modes(), &vec![2, 3]);
    assert_eq!(device.get_surface_capabilities(), device.surface_capabilities);
    assert!(device.get_memory_properties().memory_types.is_empty());
    assert!(device.supports_surface(0));
    assert!(!device.supports_surface(1));
    assert!(!device.supports_surface(u32::MAX));
}

#[test]
fn extension_names_keep_their_terminator() {
    let mut device = PhysicalDevice::new(1);
    assert_eq!(device.extension_names(), Some(vec![]));
    device.extension_properties =
        vec![chars(b"VK_KHR_swapchain\0\0\0\0"), chars(b"VK_EXT_a\0VK_EXT_b\0")];
    assert_eq!(
        device.extension_names(),
        Some(vec![b"VK_KHR_swapchain\0".to_vec(), b"VK_EXT_a\0".to_vec()])
    );
    device.extension_properties.push(chars(b"VK_unterminated"));
    assert_eq!(device.extension_names(), None);
}
