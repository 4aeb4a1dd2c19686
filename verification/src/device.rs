//! The logical device: the queue families it was created with, the queues
//! of each, fetched on first use and kept, and the host-side waits.

use crate::flags::{mask_contains, queue_flags_contains};
use crate::extent::Extent2D;
use crate::physical_device::{PhysicalDevice, QueueFamilyProperties, SurfaceCapabilities};
use crate::swapchain::{Swapchain, SwapchainCreateInfo};
use crate::queue::Queue;
use crate::raw_handle::HasRawAshHandle;
use vstd::prelude::*;

verus! {

/// The timeout that stands for "wait without limit".
pub const NO_TIMEOUT: u64 = 0xFFFF_FFFF_FFFF_FFFF;

/// One queue family to create a device with. Every queue of it gets the
/// highest priority.
#[derive(Clone, Copy, Debug, PartialEq, Eq, Structural)]
pub struct QueueFamilyConfig {
    pub index: u32,
    pub properties: QueueFamilyProperties,
}

/// What the queues of one family are created from.
#[derive(Clone, Copy, Debug, PartialEq, Eq, Structural)]
pub struct DeviceQueueCreateInfo {
    pub flags: u32,
    pub queue_family_index: u32,
    pub queue_count: u32,
}

/// What a device is created from.
#[derive(Debug)]
pub struct DeviceCreateInfo {
    pub flags: u32,
    pub queue_create_infos: Vec<DeviceQueueCreateInfo>,
    pub enabled_extension_names: Vec<Vec<u8>>,
}

/// Why a device cannot be created from what was asked for.
#[derive(Clone, Copy, Debug, PartialEq, Eq, Structural)]
pub enum DeviceError {
    /// A queue family index is not one of the adapter's.
    UnknownQueueFamily { index: u32 },
    /// An extension name does not end in its only zero byte.
    MalformedExtensionName { position: usize },
}

/// What to wait for on the host.
#[derive(Debug)]
pub struct FenceWait {
    pub fences: Vec<u64>,
    pub wait_all: bool,
    pub timeout: u64,
}

impl QueueFamilyConfig {
    pub fn new(index: u32, properties: QueueFamilyProperties) -> (r: QueueFamilyConfig)
        ensures
            r == (QueueFamilyConfig { index, properties }),
    {
        QueueFamilyConfig { index, properties }
    }

    /// The number of priorities to hand to the device, one per queue.
    pub fn priority_count(&self) -> (r: u32)
        ensures
            r == self.properties.queue_count,
    {
        self.properties.queue_count
    }

    pub fn get_device_queue_create_info(&self) -> (r: DeviceQueueCreateInfo)
        ensures
            r == (DeviceQueueCreateInfo {
                flags: 0,
                queue_family_index: self.index,
                queue_count: self.properties.queue_count,
            }),
    {
        DeviceQueueCreateInfo {
            flags: 0,
            queue_family_index: self.index,
            queue_count: self.properties.queue_count,
        }
    }
}

/// `name` is a C string: its last byte is zero and no other is.
pub open spec fn is_c_string(name: Seq<u8>) -> bool {
    &&& name.len() > 0
    &&& name[name.len() - 1] == 0
    &&& forall|i: int| 0 <= i < name.len() - 1 ==> name[i] != 0
}

/// Whether `name` is a C string.
pub fn check_c_string(name: &Vec<u8>) -> (r: bool)
    ensures
        r == is_c_string(name@),
{
    let n = name.len();
    if n == 0 {
        return false;
    }
    if name[n - 1] != 0 {
        return false;
    }
    let mut i: usize = 0;
    while i < n - 1
        invariant
            i <= n - 1,
            n == name@.len(),
            forall|j: int| 0 <= j < i ==> name@[j] != 0,
        decreases n - 1 - i,
    {
        if name[i] == 0 {
            return false;
        }
        i = i + 1;
    }
    true
}

/// A queue of a family as the device knows it: fetched already, or still
/// to be fetched from the driver.
#[derive(Clone, Copy, Debug, PartialEq, Eq, Structural)]
pub enum QueueSlot {
    Ready(Queue),
    Pending { family_index: u32, index: u32 },
}

/// One queue family of a device and the queues of it that were fetched so
/// far.
#[derive(Debug)]
pub struct QueueFamily {
    config: QueueFamilyConfig,
    supports_surface: bool,
    queues: Vec<Option<Queue>>,
}

/// What a [`QueueFamily`] holds.
pub struct QueueFamilySpec {
    pub config: QueueFamilyConfig,
    pub supports_surface: bool,
    pub queues: Seq<Option<Queue>>,
}

impl View for QueueFamily {
    type V = QueueFamilySpec;

    closed spec fn view(&self) -> QueueFamilySpec {
        QueueFamilySpec {
            config: self.config,
            supports_surface: self.supports_surface,
            queues: self.queues@,
        }
    }
}

impl QueueFamilySpec {
    /// There is one place for each queue of the family, and a queue that
    /// was fetched knows its family and its index.
    pub open spec fn wf(self) -> bool {
        &&& self.queues.len() == self.config.properties.queue_count
        &&& forall|i: int|
            0 <= i < self.queues.len() ==> match #[trigger] self.queues[i] {
                Some(q) => q.family_index == self.config.index && q.index == i,
                None => true,
            }
    }

    /// The queue `index`, as the family knows it.
    pub open spec fn slot(self, index: u32) -> QueueSlot {
        match self.queues[index as int] {
            Some(q) => QueueSlot::Ready(q),
            None => QueueSlot::Pending { family_index: self.config.index, index },
        }
    }
}

impl QueueFamily {
    /// The family `config` with none of its queues fetched.
    pub fn new(config: QueueFamilyConfig, supports_surface: bool) -> (r: QueueFamily)
        ensures
            r@.wf(),
            r@.config == config,
            r@.supports_surface == supports_surface,
            forall|i: int| 0 <= i < r@.queues.len() ==> r@.queues[i] is None,
    {
        let mut queues: Vec<Option<Queue>> = Vec::new();
        let mut i: u32 = 0;
        while i < config.properties.queue_count
            invariant
                i <= config.properties.queue_count,
                queues@.len() == i,
                forall|j: int| 0 <= j < i ==> queues@[j] is None,
            decreases config.properties.queue_count - i,
        {
            queues.push(None);
            i = i + 1;
        }
        QueueFamily { config, supports_surface, queues }
    }

    pub fn index(&self) -> (r: u32)
        ensures
            r == self@.config.index,
    {
        self.config.index
    }

    pub fn properties(&self) -> (r: QueueFamilyProperties)
        ensures
            r == self@.config.properties,
    {
        self.config.properties
    }

    /// The number of priorities that the family was created with, one per
    /// queue.
    pub fn priorities(&self) -> (r: u32)
        ensures
            r == self@.config.properties.queue_count,
    {
        self.config.properties.queue_count
    }

    pub fn supports_surface(&self) -> (r: bool)
        ensures
            r == self@.supports_surface,
    {
        self.supports_surface
    }

    /// The queue `index` of the family: the one that was fetched, or the
    /// request to fetch it.
    pub fn get_queue(&self, index: u32) -> (r: QueueSlot)
        requires
            self@.wf(),
            index < self@.config.properties.queue_count,
        ensures
            r == self@.slot(index),
    {
        match self.queues[index as usize] {
            Some(q) => QueueSlot::Ready(q),
            None => QueueSlot::Pending { family_index: self.config.index, index },
        }
    }

    /// Keeps the handle that the driver gave for the queue `index`, unless
    /// one is kept already, and hands out the queue that is kept.
    pub fn cache_queue(&mut self, index: u32, handle: u64) -> (r: Queue)
        requires
            old(self)@.wf(),
            index < old(self)@.config.properties.queue_count,
        ensures
            final(self)@.wf(),
            final(self)@.config == old(self)@.config,
            final(self)@.supports_surface == old(self)@.supports_surface,
            r == (match old(self)@.queues[index as int] {
                Some(q) => q,
                None => Queue { family_index: old(self)@.config.index, handle, index },
            }),
            final(self)@.queues == old(self)@.queues.update(index as int, Some(r)),
    {
        match self.queues[index as usize] {
            Some(q) => {
                assert(self.queues@ =~= old(self).queues@.update(index as int, Some(q)));
                q
            },
            None => {
                let q = Queue::new(self.config.index, handle, index);
                self.queues.set(index as usize, Some(q));
                q
            },
        }
    }
}

/// The logical device.
#[derive(Debug)]
pub struct Device {
    handle: u64,
    physical_device: u64,
    queue_families: Vec<QueueFamily>,
}

/// What a [`Device`] holds.
pub struct DeviceSpec {
    pub handle: u64,
    pub physical_device: u64,
    pub queue_families: Seq<QueueFamilySpec>,
}

impl View for Device {
    type V = DeviceSpec;

    closed spec fn view(&self) -> DeviceSpec {
        DeviceSpec {
            handle: self.handle,
            physical_device: self.physical_device,
            queue_families: Seq::new(
                self.queue_families@.len(),
                |i: int| self.queue_families@[i]@,
            ),
        }
    }
}

/// The position of the first family that satisfies `wanted`, if any does.
pub open spec fn first_family(families: Seq<QueueFamilySpec>, wanted: spec_fn(QueueFamilySpec) -> bool) -> Option<
    int,
> {
    if exists|i: int| 0 <= i < families.len() && wanted(families[i]) {
        Some(
            choose|i: int|
                0 <= i < families.len() && wanted(families[i]) && forall|j: int|
                    0 <= j < i ==> !wanted(families[j]),
        )
    } else {
        None
    }
}

/// Position `i` is that of the first family that satisfies `wanted`.
pub open spec fn is_first_family(
    families: Seq<QueueFamilySpec>,
    wanted: spec_fn(QueueFamilySpec) -> bool,
    i: int,
) -> bool {
    &&& 0 <= i < families.len()
    &&& wanted(families[i])
    &&& forall|j: int| 0 <= j < i ==> !wanted(families[j])
}

/// The first family that satisfies a condition is the only position that
/// qualifies as such.
pub proof fn lemma_first_family(
    families: Seq<QueueFamilySpec>,
    wanted: spec_fn(QueueFamilySpec) -> bool,
    i: int,
)
    requires
        is_first_family(families, wanted, i),
    ensures
        first_family(families, wanted) == Some(i),
{
    let k = first_family(families, wanted)->0;
    assert(is_first_family(families, wanted, k));
    if k < i {
        assert(!wanted(families[k]));
    } else if i < k {
        assert(!wanted(families[i]));
    }
}

/// The positions of the families whose queues can do all of `flags`.
pub open spec fn can_do(flags: u32) -> spec_fn(QueueFamilySpec) -> bool {
    |f: QueueFamilySpec| mask_contains(f.config.properties.queue_flags, flags)
}

/// The families whose queues can present.
pub open spec fn can_present() -> spec_fn(QueueFamilySpec) -> bool {
    |f: QueueFamilySpec| f.supports_surface
}

/// The first queue of the family at position `family`, where it has one.
pub open spec fn first_queue_of(families: Seq<QueueFamilySpec>, family: Option<int>) -> Option<
    QueueSlot,
> {
    match family {
        Some(i) => if families[i].config.properties.queue_count > 0 {
            Some(families[i].slot(0))
        } else {
            None
        },
        None => None,
    }
}

/// What describing a device for the queue families `queue_family_indices`
/// of `physical_device` with the extensions `enabled_extensions` comes to.
pub open spec fn described(
    physical_device: &PhysicalDevice,
    queue_family_indices: Seq<u32>,
    enabled_extensions: Seq<Vec<u8>>,
    r: Result<(Vec<QueueFamilyConfig>, DeviceCreateInfo), DeviceError>,
) -> bool {
    match r {
        Ok((configs, info)) => {
            &&& forall|i: int|
                0 <= i < queue_family_indices.len() ==> queue_family_indices[i]
                    < physical_device.queue_family_properties@.len()
            &&& forall|i: int|
                0 <= i < enabled_extensions.len() ==> is_c_string(
                    (#[trigger] enabled_extensions[i])@,
                )
            &&& configs@.len() == queue_family_indices.len()
            &&& forall|i: int|
                0 <= i < configs@.len() ==> configs@[i] == (QueueFamilyConfig {
                    index: queue_family_indices[i],
                    properties: physical_device.queue_family_properties@[queue_family_indices[i] as int],
                })
            &&& info.flags == 0
            &&& info.queue_create_infos@.len() == configs@.len()
            &&& forall|i: int|
                0 <= i < configs@.len() ==> info.queue_create_infos@[i]
                    == (DeviceQueueCreateInfo {
                    flags: 0,
                    queue_family_index: configs@[i].index,
                    queue_count: configs@[i].properties.queue_count,
                })
            &&& info.enabled_extension_names@.len() == enabled_extensions.len()
            &&& forall|i: int|
                0 <= i < enabled_extensions.len() ==> (
                #[trigger] info.enabled_extension_names@[i])@ == enabled_extensions[i]@
        },
        Err(DeviceError::UnknownQueueFamily { index }) => exists|i: int|
            {
                &&& 0 <= i < queue_family_indices.len()
                &&& queue_family_indices[i] == index
                &&& index >= physical_device.queue_family_properties@.len()
                &&& forall|j: int|
                    0 <= j < i ==> queue_family_indices[j]
                        < physical_device.queue_family_properties@.len()
            },
        Err(DeviceError::MalformedExtensionName { position }) => {
            &&& forall|i: int|
                0 <= i < queue_family_indices.len() ==> queue_family_indices[i]
                    < physical_device.queue_family_properties@.len()
            &&& position < enabled_extensions.len()
            &&& !is_c_string(enabled_extensions[position as int]@)
            &&& forall|j: int|
                0 <= j < position ==> is_c_string((#[trigger] enabled_extensions[j])@)
        },
    }
}

impl DeviceSpec {
    /// Every queue family of the device is well-formed.
    pub open spec fn wf(self) -> bool {
        forall|i: int| 0 <= i < self.queue_families.len() ==> (#[trigger] self.queue_families[i]).wf()
    }
}

impl Device {
    /// What to create a device from that has the queue families
    /// `queue_family_indices` of `physical_device` and the extensions
    /// `enabled_extensions`, each a C string. Fails on the first index that
    /// is not one of the adapter's families, else on the first name that is
    /// no C string.
    #[verifier::loop_isolation(false)]
    pub fn create_info(
        physical_device: &PhysicalDevice,
        queue_family_indices: &Vec<u32>,
        enabled_extensions: &Vec<Vec<u8>>,
    ) -> (r: Result<(Vec<QueueFamilyConfig>, DeviceCreateInfo), DeviceError>)
        ensures
            described(physical_device, queue_family_indices@, enabled_extensions@, r),
    {
        let properties = physical_device.get_queue_family_properties();
        let mut configs: Vec<QueueFamilyConfig> = Vec::new();
        let mut infos: Vec<DeviceQueueCreateInfo> = Vec::new();
        let mut i: usize = 0;
        while i < queue_family_indices.len()
            invariant
                i <= queue_family_indices@.len(),
                properties@ == physical_device.queue_family_properties@,
                configs@.len() == i,
                infos@.len() == i,
                forall|j: int| 0 <= j < i ==> queue_family_indices@[j] < properties@.len(),
                forall|j: int|
                    0 <= j < i ==> configs@[j] == (QueueFamilyConfig {
                        index: queue_family_indices@[j],
                        properties: properties@[queue_family_indices@[j] as int],
                    }),
                forall|j: int|
                    0 <= j < i ==> infos@[j] == (DeviceQueueCreateInfo {
                        flags: 0,
                        queue_family_index: configs@[j].index,
                        queue_count: configs@[j].properties.queue_count,
                    }),
            decreases queue_family_indices.len() - i,
        {
            let index = queue_family_indices[i];
            if index as usize >= properties.len() {
                return Err(DeviceError::UnknownQueueFamily { index });
            }
            let config = QueueFamilyConfig::new(index, properties[index as usize]);
            infos.push(config.get_device_queue_create_info());
            configs.push(config);
            i = i + 1;
        }
        let mut names: Vec<Vec<u8>> = Vec::new();
        let mut k: usize = 0;
        while k < enabled_extensions.len()
            invariant
                k <= enabled_extensions@.len(),
                names@.len() == k,
                forall|j: int| 0 <= j < k ==> is_c_string((#[trigger] enabled_extensions@[j])@),
                forall|j: int| 0 <= j < k ==> (#[trigger] names@[j])@ == enabled_extensions@[j]@,
            decreases enabled_extensions.len() - k,
        {
            if !check_c_string(&enabled_extensions[k]) {
                return Err(DeviceError::MalformedExtensionName { position: k });
            }
            names.push(copy_bytes(&enabled_extensions[k]));
            k = k + 1;
        }
        Ok(
            (
                configs,
                DeviceCreateInfo {
                    flags: 0,
                    queue_create_infos: infos,
                    enabled_extension_names: names,
                },
            ),
        )
    }

    /// The device `handle` of `physical_device`, created with the families
    /// `configs`, none of whose queues is fetched yet.
    pub fn new(handle: u64, physical_device: &PhysicalDevice, configs: &Vec<QueueFamilyConfig>) -> (r:
        Device)
        ensures
            r@.wf(),
            r@.handle == handle,
            r@.physical_device == physical_device.handle,
            r@.queue_families.len() == configs@.len(),
            forall|i: int|
                0 <= i < configs@.len() ==> {
                    &&& (#[trigger] r@.queue_families[i]).config == configs@[i]
                    &&& r@.queue_families[i].supports_surface == (configs@[i].index
                        < physical_device.surface_support@.len()
                        && physical_device.surface_support@[configs@[i].index as int])
                    &&& forall|q: int|
                        0 <= q < r@.queue_families[i].queues.len()
                            ==> r@.queue_families[i].queues[q] is None
                },
    {
        let mut families: Vec<QueueFamily> = Vec::new();
        let mut i: usize = 0;
        while i < configs.len()
            invariant
                i <= configs@.len(),
                families@.len() == i,
                forall|j: int|
                    0 <= j < i ==> {
                        &&& (#[trigger] families@[j])@.wf()
                        &&& families@[j]@.config == configs@[j]
                        &&& families@[j]@.supports_surface == (configs@[j].index
                            < physical_device.surface_support@.len()
                            && physical_device.surface_support@[configs@[j].index as int])
                        &&& forall|q: int|
                            0 <= q < families@[j]@.queues.len() ==> families@[j]@.queues[q] is None
                    },
            decreases configs.len() - i,
        {
            let config = configs[i];
            let family = QueueFamily::new(config, physical_device.supports_surface(config.index));
            families.push(family);
            i = i + 1;
        }
        Device { handle, physical_device: physical_device.handle, queue_families: families }
    }

    /// Keeps the handle that the driver gave for the queue `index` of the
    /// family at position `family`, unless one is kept already, and hands
    /// out the queue that is kept.
    pub fn cache_queue(&mut self, family: usize, index: u32, handle: u64) -> (r: Queue)
        requires
            old(self)@.wf(),
            family < old(self)@.queue_families.len(),
            index < old(self)@.queue_families[family as int].config.properties.queue_count,
        ensures
            final(self)@.wf(),
            final(self)@.handle == old(self)@.handle,
            final(self)@.physical_device == old(self)@.physical_device,
            r == (match old(self)@.queue_families[family as int].queues[index as int] {
                Some(q) => q,
                None => Queue {
                    family_index: old(self)@.queue_families[family as int].config.index,
                    handle,
                    index,
                },
            }),
            final(self)@.queue_families == old(self)@.queue_families.update(
                family as int,
                QueueFamilySpec {
                    queues: old(self)@.queue_families[family as int].queues.update(
                        index as int,
                        Some(r),
                    ),
                    ..old(self)@.queue_families[family as int]
                },
            ),
    {
        assert(self@.queue_families[family as int] == self.queue_families@[family as int]@);
        let q = self.queue_families[family].cache_queue(index, handle);
        assert(self@.queue_families =~= old(self)@.queue_families.update(
            family as int,
            QueueFamilySpec {
                queues: old(self)@.queue_families[family as int].queues.update(
                    index as int,
                    Some(q),
                ),
                ..old(self)@.queue_families[family as int]
            },
        ));
        q
    }

    /// What to create the swapchain of this device from; see
    /// [`Swapchain::create_info`].
    pub fn get_swapchain(
        &self,
        surface: u64,
        capabilities: &SurfaceCapabilities,
        min_image_count: u32,
        image_format: i32,
        image_color_space: i32,
        image_extent: Extent2D,
        image_usage: u32,
        present_mode: i32,
        old_swapchain: Option<&mut Swapchain>,
    ) -> (r: SwapchainCreateInfo)
        ensures
            r == (SwapchainCreateInfo {
                flags: 0,
                surface,
                min_image_count,
                image_format,
                image_color_space,
                image_extent,
                image_array_layers: 1,
                image_usage,
                image_sharing_mode: crate::buffer::SHARING_MODE_EXCLUSIVE,
                pre_transform: capabilities.current_transform,
                composite_alpha: crate::swapchain::COMPOSITE_ALPHA_OPAQUE,
                present_mode,
                clipped: true,
                old_swapchain: match old_swapchain {
                    Some(old) => old@.handle,
                    None => crate::queue::NULL_HANDLE,
                },
            }),
            match old_swapchain {
                Some(old) => final(old)@ == (crate::swapchain::SwapchainSpec {
                    retired: true,
                    ..old@
                }),
                None => true,
            },
    {
        Swapchain::create_info(
            surface,
            capabilities,
            min_image_count,
            image_format,
            image_color_space,
            image_extent,
            image_usage,
            present_mode,
            old_swapchain,
        )
    }

    /// The handle of the adapter that the device was created on.
    pub fn physical_device(&self) -> (r: u64)
        ensures
            r == self@.physical_device,
    {
        self.physical_device
    }

    pub fn queue_families(&self) -> (r: &Vec<QueueFamily>)
        ensures
            r@.len() == self@.queue_families.len(),
            forall|i: int| 0 <= i < r@.len() ==> (#[trigger] r@[i])@ == self@.queue_families[i],
    {
        &self.queue_families
    }

    /// The position of the first family whose queues can do all of `flags`.
    pub fn find_queue_family(&self, flags: u32) -> (r: Option<usize>)
        ensures
            match r {
                Some(i) => is_first_family(self@.queue_families, can_do(flags), i as int)
                    && first_family(self@.queue_families, can_do(flags)) == Some(i as int),
                None => first_family(self@.queue_families, can_do(flags)) is None,
            },
    {
        let mut i: usize = 0;
        while i < self.queue_families.len()
            invariant
                i <= self.queue_families@.len(),
                self@.queue_families.len() == self.queue_families@.len(),
                forall|j: int| 0 <= j < i ==> !can_do(flags)(self@.queue_families[j]),
            decreases self.queue_families.len() - i,
        {
            assert(self@.queue_families[i as int] == self.queue_families@[i as int]@);
            if queue_flags_contains(self.queue_families[i].properties().queue_flags, flags) {
                proof {
                    lemma_first_family(self@.queue_families, can_do(flags), i as int);
                }
                return Some(i);
            }
            i = i + 1;
        }
        None
    }

    /// The position of the first family whose queues can present.
    pub fn find_present_queue_family(&self) -> (r: Option<usize>)
        ensures
            match r {
                Some(i) => is_first_family(self@.queue_families, can_present(), i as int)
                    && first_family(self@.queue_families, can_present()) == Some(i as int),
                None => first_family(self@.queue_families, can_present()) is None,
            },
    {
        let mut i: usize = 0;
        while i < self.queue_families.len()
            invariant
                i <= self.queue_families@.len(),
                self@.queue_families.len() == self.queue_families@.len(),
                forall|j: int| 0 <= j < i ==> !can_present()(self@.queue_families[j]),
            decreases self.queue_families.len() - i,
        {
            assert(self@.queue_families[i as int] == self.queue_families@[i as int]@);
            if self.queue_families[i].supports_surface() {
                proof {
                    lemma_first_family(self@.queue_families, can_present(), i as int);
                }
                return Some(i);
            }
            i = i + 1;
        }
        None
    }

    /// The first queue of the first family whose queues can do all of
    /// `flags`.
    pub fn get_first_queue(&self, flags: u32) -> (r: Option<QueueSlot>)
        requires
            self@.wf(),
        ensures
            r == first_queue_of(
                self@.queue_families,
                first_family(self@.queue_families, can_do(flags)),
            ),
    {
        match self.find_queue_family(flags) {
            Some(i) => {
                assert(self@.queue_families[i as int] == self.queue_families@[i as int]@);
                let family = &self.queue_families[i];
                if family.properties().queue_count > 0 {
                    Some(family.get_queue(0))
                } else {
                    None
                }
            },
            None => None,
        }
    }

    /// The first queue of the first family whose queues can present.
    pub fn get_first_present_queue(&self) -> (r: Option<QueueSlot>)
        requires
            self@.wf(),
        ensures
            r == first_queue_of(
                self@.queue_families,
                first_family(self@.queue_families, can_present()),
            ),
    {
        match self.find_present_queue_family() {
            Some(i) => {
                assert(self@.queue_families[i as int] == self.queue_families@[i as int]@);
                let family = &self.queue_families[i];
                if family.properties().queue_count > 0 {
                    Some(family.get_queue(0))
                } else {
                    None
                }
            },
            None => None,
        }
    }

    /// The wait for all or any of `fences`, without limit where no
    /// `timeout` is given.
    pub fn wait_for_fences(&self, fences: &Vec<u64>, wait_all: bool, timeout: Option<u64>) -> (r:
        FenceWait)
        ensures
            r.fences@ == fences@,
            r.wait_all == wait_all,
            r.timeout == (match timeout {
                Some(t) => t,
                None => NO_TIMEOUT,
            }),
    {
        FenceWait {
            fences: copy_handles(fences),
            wait_all,
            timeout: match timeout {
                Some(t) => t,
                None => NO_TIMEOUT,
            },
        }
    }

    /// The fences to reset.
    pub fn reset_fences(&self, fences: &Vec<u64>) -> (r: Vec<u64>)
        ensures
            r@ == fences@,
    {
        copy_handles(fences)
    }
}

/// A copy of `bytes`.
pub fn copy_bytes(bytes: &Vec<u8>) -> (r: Vec<u8>)
    ensures
        r@ == bytes@,
{
    let mut out: Vec<u8> = Vec::new();
    let mut i: usize = 0;
    while i < bytes.len()
        invariant
            i <= bytes@.len(),
            out@ == bytes@.subrange(0, i as int),
        decreases bytes.len() - i,
    {
        out.push(bytes[i]);
        assert(out@ =~= bytes@.subrange(0, i + 1));
        i = i + 1;
    }
    assert(out@ =~= bytes@);
    out
}

/// A copy of `handles`.
pub fn copy_handles(handles: &Vec<u64>) -> (r: Vec<u64>)
    ensures
        r@ == handles@,
{
    let mut out: Vec<u64> = Vec::new();
    let mut i: usize = 0;
    while i < handles.len()
        invariant
            i <= handles@.len(),
            out@ == handles@.subrange(0, i as int),
        decreases handles.len() - i,
    {
        out.push(handles[i]);
        assert(out@ =~= handles@.subrange(0, i + 1));
        i = i + 1;
    }
    assert(out@ =~= handles@);
    out
}

impl HasRawAshHandle<u64> for Device {
    open spec fn raw_ash_handle(&self) -> u64 {
        self@.handle
    }

    fn get_ash_handle(&self) -> &u64 {
        &self.handle
    }
}

} // verus!
