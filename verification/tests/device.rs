use ash::vk;
use vulka::device::{
    check_c_string, Device, DeviceError, DeviceQueueCreateInfo, QueueFamily, QueueFamilyConfig,
    QueueSlot, NO_TIMEOUT,
};
use vulka::extent::Extent3D;
use vulka::physical_device::{PhysicalDevice, QueueFamilyProperties};
use vulka::queue::{
    CommandBufferSubmitInfo, Queue, SemaphoreSubmitInfo, NULL_HANDLE,
};
use vulka::raw_handle::{HasRawAshHandle, HasRawVkHandle};

const GRAPHICS: u32 = 0x1;
const COMPUTE: u32 = 0x2;
const TRANSFER: u32 = 0x4;

fn family(queue_flags: u32, queue_count: u32) -> QueueFamilyProperties {
    QueueFamilyProperties {
        queue_flags,
        queue_count,
        timestamp_valid_bits: 0,
        min_image_transfer_granularity: Extent3D { width: 1, height: 1, depth: 1 },
    }
}

fn adapter() -> PhysicalDevice {
    let mut physical = PhysicalDevice::new(5);
    physical.queue_family_properties = vec![
        family(TRANSFER, 1),
        family(GRAPHICS | COMPUTE | TRANSFER, 4),
        family(COMPUTE | TRANSFER, 2),
    ];
    physical.surface_support = vec![false, false, true];
    physical
}

fn device() -> Device {
    let physical = adapter();
    let (configs, _) = Device::create_info(&physical, &vec![0, 1, 2], &vec![]).unwrap();
    Device::new(900, &physical, &configs)
}

#[test]
fn a_device_is_created_with_one_entry_per_queue_family() {
    let physical = adapter();
    let extensions = vec![b"VK_KHR_swapchain\0".to_vec(), b"VK_KHR_synchronization2\0".to_vec()];
    let (configs, info) = Device::create_info(&physical, &vec![2, 1], &extensions).unwrap();
    assert_eq!(
        configs,
        vec![
            QueueFamilyConfig { index: 2, properties: family(COMPUTE | TRANSFER, 2) },
            QueueFamilyConfig { index: 1, properties: family(GRAPHICS | COMPUTE | TRANSFER, 4) },
        ]
    );
    assert_eq!(info.flags, 0);
    assert_eq!(
        info.queue_create_infos,
        vec![
            DeviceQueueCreateInfo { flags: 0, queue_family_index: 2, queue_count: 2 },
            DeviceQueueCreateInfo { flags: 0, queue_family_index: 1, queue_count: 4 },
        ]
    );
    assert_eq!(info.enabled_extension_names, extensions);
    assert_eq!(configs[0].priority_count(), 2);
    assert_eq!(configs[0].get_device_queue_create_info(), info.queue_create_infos[0]);
    assert_eq!(QueueFamilyConfig::new(2, family(COMPUTE | TRANSFER, 2)), configs[0]);
}

#[test]
fn an_unknown_queue_family_fails() {
    let physical = adapter();
    assert_eq!(
        Device::create_info(&physical, &vec![1, 3, 9], &vec![]).err(),
        Some(DeviceError::UnknownQueueFamily { index: 3 })
    );
}

#[test]
fn an_extension_name_that_is_no_c_string_fails() {
    let physical = adapter();
    let names = vec![b"ok\0".to_vec(), b"no terminator".to_vec(), b"\0".to_vec()];
    assert_eq!(
        Device::create_info(&physical, &vec![0], &names).err(),
        Some(DeviceError::MalformedExtensionName { position: 1 })
    );
    // The queue families are looked at first.
    assert_eq!(
        Device::create_info(&physical, &vec![7], &names).err(),
        Some(DeviceError::UnknownQueueFamily { index: 7 })
    );
    assert!(check_c_string(&b"VK_KHR_swapchain\0".to_vec()));
    assert!(check_c_string(&b"\0".to_vec()));
    assert!(!check_c_string(&b"".to_vec()));
    assert!(!check_c_string(&b"a\0b\0".to_vec()));
    assert!(!check_c_string(&b"ab".to_vec()));
}

#[test]
fn the_first_family_with_every_flag_is_found() {
    let device = device();
    assert_eq!(device.find_queue_family(TRANSFER), Some(0));
    assert_eq!(device.find_queue_family(GRAPHICS), Some(1));
    assert_eq!(device.find_queue_family(COMPUTE), Some(1));
    assert_eq!(device.find_queue_family(COMPUTE | TRANSFER), Some(1));
    assert_eq!(device.find_queue_family(0), Some(0));
    // Sharing some of the flags is not enough.
    assert_eq!(device.find_queue_family(GRAPHICS | 0x8), None);
    assert_eq!(device.find_queue_family(0x8), None);
    assert_eq!(device.find_present_queue_family(), Some(2));
    assert_eq!(GRAPHICS, vk::QueueFlags::GRAPHICS.as_raw());
    assert_eq!(COMPUTE, vk::QueueFlags::COMPUTE.as_raw());
}

#[test]
fn queues_are_fetched_on_first_use_and_kept() {
    let mut device = device();
    assert_eq!(
        device.get_first_queue(GRAPHICS),
        Some(QueueSlot::Pending { family_index: 1, index: 0 })
    );
    let queue = device.cache_queue(1, 0, 0x51);
    assert_eq!(queue, Queue { family_index: 1, handle: 0x51, index: 0 });
    assert_eq!(device.get_first_queue(GRAPHICS), Some(QueueSlot::Ready(queue)));
    // A second handle for the same queue does not replace the first.
    assert_eq!(device.cache_queue(1, 0, 0x99), queue);
    assert_eq!(device.get_first_queue(GRAPHICS), Some(QueueSlot::Ready(queue)));
    assert_eq!(
        device.queue_families()[1].get_queue(3),
        QueueSlot::Pending { family_index: 1, index: 3 }
    );
    assert_eq!(
        device.get_first_present_queue(),
        Some(QueueSlot::Pending { family_index: 2, index: 0 })
    );
    assert_eq!(device.get_first_queue(0x10), None);
    assert_eq!(queue.queue_family(), 1);
    assert_eq!(queue.index(), 0);
    assert_eq!(queue.get_vk_handle(), 0x51);
}

#[test]
fn a_family_without_queues_has_no_first_queue() {
    let mut physical = PhysicalDevice::new(5);
    physical.queue_family_properties = vec![family(GRAPHICS, 0), family(GRAPHICS, 1)];
    physical.surface_support = vec![true, true];
    let (configs, _) = Device::create_info(&physical, &vec![0, 1], &vec![]).unwrap();
    let device = Device::new(1, &physical, &configs);
    assert_eq!(device.get_first_queue(GRAPHICS), None);
    assert_eq!(device.get_first_present_queue(), None);
}

#[test]
fn a_device_knows_its_families() {
    let device = device();
    assert_eq!(*device.get_ash_handle(), 900);
    assert_eq!(device.physical_device(), 5);
    let families = device.queue_families();
    assert_eq!(families.len(), 3);
    assert_eq!(families[2].index(), 2);
    assert_eq!(families[2].properties(), family(COMPUTE | TRANSFER, 2));
    assert_eq!(families[2].priorities(), 2);
    assert!(families[2].supports_surface());
    assert!(!families[0].supports_surface());
    let lone = QueueFamily::new(QueueFamilyConfig::new(4, family(GRAPHICS, 1)), true);
    assert_eq!(lone.get_queue(0), QueueSlot::Pending { family_index: 4, index: 0 });
}

#[test]
fn waits_are_without_limit_unless_a_timeout_is_given() {
    let device = device();
    let wait = device.wait_for_fences(&vec![3, 4], true, None);
    assert_eq!((wait.fences, wait.wait_all, wait.timeout), (vec![3, 4], true, u64::MAX));
    let wait = device.wait_for_fences(&vec![3], false, Some(1000));
    assert_eq!((wait.fences, wait.wait_all, wait.timeout), (vec![3], false, 1000));
    assert_eq!(device.reset_fences(&vec![7, 8, 9]), vec![7, 8, 9]);
    assert_eq!(NO_TIMEOUT, u64::MAX);
}

#[test]
fn a_submission_lists_waits_commands_and_signals() {
    let queue = Queue::new(0, 1, 0);
    let info = queue.submit(
        Some(&vec![(10, 0x400)]),
        &vec![20, 21],
        Some(&vec![(30, 0x8000), (31, 0x1)]),
        Some(40),
    );
    assert_eq!(
        info.wait_semaphore_infos,
        vec![SemaphoreSubmitInfo { semaphore: 10, value: 1, stage_mask: 0x400, device_index: 0 }]
    );
    assert_eq!(
        info.command_buffer_infos,
        vec![
            CommandBufferSubmitInfo { command_buffer: 20, device_mask: 0 },
            CommandBufferSubmitInfo { command_buffer: 21, device_mask: 0 },
        ]
    );
    assert_eq!(
        info.signal_semaphore_infos,
        vec![
            SemaphoreSubmitInfo { semaphore: 30, value: 1, stage_mask: 0x8000, device_index: 0 },
            SemaphoreSubmitInfo { semaphore: 31, value: 1, stage_mask: 0x1, device_index: 0 },
        ]
    );
    assert_eq!(info.fence, 40);
    let native = vk::SemaphoreSubmitInfo::builder()
        .semaphore(vk::Semaphore::null())
        .value(1)
        .stage_mask(vk::PipelineStageFlags2::COLOR_ATTACHMENT_OUTPUT)
        .device_index(0)
        .build();
    assert_eq!(native.stage_mask.as_raw(), info.wait_semaphore_infos[0].stage_mask);
    assert_eq!(native.value, info.wait_semaphore_infos[0].value);
}

#[test]
fn a_submission_without_waits_signals_or_fence_is_bare() {
    let queue = Queue::new(0, 1, 0);
    let info = queue.submit(None, &vec![20], None, None);
    assert!(info.wait_semaphore_infos.is_empty());
    assert!(info.signal_semaphore_infos.is_empty());
    assert_eq!(info.command_buffer_infos.len(), 1);
    assert_eq!(info.fence, NULL_HANDLE);
    let info = queue.submit(Some(&vec![]), &vec![], Some(&vec![]), None);
    assert!(info.wait_semaphore_infos.is_empty());
    assert!(info.command_buffer_infos.is_empty());
}

#[test]
fn a_present_names_one_image_of_one_swapchain() {
    let queue = Queue::new(2, 1, 0);
    let info = queue.submit_present(&vec![30, 31], 500, 2);
    assert_eq!((info.wait_semaphores, info.swapchain, info.image_index), (vec![30, 31], 500, 2));
    let info = queue.submit_present(&vec![], 500, 0);
    assert!(info.wait_semaphores.is_empty());
}

#[test]
fn an_adapter_describes_its_device_and_a_device_its_swapchain() {
    let physical = adapter();
    let (configs, info) = physical.get_device(&vec![1], &vec![b"VK_KHR_swapchain\0".to_vec()]).unwrap();
    assert_eq!(configs.len(), 1);
    assert_eq!(info.queue_create_infos[0].queue_family_index, 1);
    assert_eq!(
        physical.get_device(&vec![5], &vec![]).err(),
        Some(DeviceError::UnknownQueueFamily { index: 5 })
    );
    let device = device();
    let mut old = vulka::swapchain::Swapchain::new(40, 50, vulka::extent::Extent2D { width: 1, height: 1 });
    let caps = physical.get_surface_capabilities();
    let info = device.get_swapchain(
        33,
        &caps,
        3,
        50,
        0,
        vulka::extent::Extent2D { width: 800, height: 600 },
        0x12,
        2,
        Some(&mut old),
    );
    assert_eq!((info.surface, info.min_image_count, info.old_swapchain), (33, 3, 40));
    assert_eq!(info.pre_transform, caps.current_transform);
    assert!(old.is_retired());
}
