//! What is known of one adapter: its properties, its queue families, and
//! what the presentation surface allows on it. Everything here is read-only.

use crate::device::{described, Device, DeviceCreateInfo, DeviceError, QueueFamilyConfig};
use crate::extent::{Extent2D, Extent3D};
use crate::memory::MemoryProperties;
use crate::raw_handle::HasRawVkHandle;
use vstd::prelude::*;
use vstd::utf8::{decode_utf8, valid_utf8};

verus! {

/// The extent component with which a surface reports that it takes whatever
/// size the swapchain is created with.
pub const EXTENT_UNDEFINED: u32 = 0xFFFF_FFFF;

/// What one queue family can do and how many queues it has.
#[derive(Clone, Copy, Debug, PartialEq, Eq, Structural)]
pub struct QueueFamilyProperties {
    pub queue_flags: u32,
    pub queue_count: u32,
    pub timestamp_valid_bits: u32,
    pub min_image_transfer_granularity: Extent3D,
}

/// A pixel format together with the color space it is shown in.
#[derive(Clone, Copy, Debug, PartialEq, Eq, Structural)]
pub struct SurfaceFormat {
    pub format: i32,
    pub color_space: i32,
}

/// What a surface allows of a swapchain.
#[derive(Clone, Copy, Debug, PartialEq, Eq, Structural)]
pub struct SurfaceCapabilities {
    pub min_image_count: u32,
    pub max_image_count: u32,
    pub current_extent: Extent2D,
    pub min_image_extent: Extent2D,
    pub max_image_extent: Extent2D,
    pub max_image_array_layers: u32,
    pub supported_transforms: u32,
    pub current_transform: u32,
    pub supported_composite_alpha: u32,
    pub supported_usage_flags: u32,
}

/// `value` moved into the range from `low` to `high`.
pub open spec fn clamped(value: u32, low: u32, high: u32) -> u32 {
    if value < low {
        low
    } else if value > high {
        high
    } else {
        value
    }
}

/// Moves `value` into the range from `low` to `high`.
pub fn clamp(value: u32, low: u32, high: u32) -> (r: u32)
    requires
        low <= high,
    ensures
        r == clamped(value, low, high),
        low <= r <= high,
{
    if value < low {
        low
    } else if value > high {
        high
    } else {
        value
    }
}

impl SurfaceCapabilities {
    /// The smallest extent is no larger than the largest.
    pub open spec fn wf(self) -> bool {
        &&& self.min_image_extent.width <= self.max_image_extent.width
        &&& self.min_image_extent.height <= self.max_image_extent.height
    }

    /// The surface dictates the extent of its swapchains.
    pub open spec fn has_fixed_extent(self) -> bool {
        self.current_extent.width != EXTENT_UNDEFINED && self.current_extent.height
            != EXTENT_UNDEFINED
    }

    /// The extent to create a swapchain with for a window of `width` by
    /// `height` pixels: the surface's own where it dictates one, else the
    /// window's, moved into the range that the surface allows.
    pub open spec fn extent_for(self, width: u32, height: u32) -> Extent2D {
        if self.has_fixed_extent() {
            self.current_extent
        } else {
            Extent2D {
                width: clamped(width, self.min_image_extent.width, self.max_image_extent.width),
                height: clamped(
                    height,
                    self.min_image_extent.height,
                    self.max_image_extent.height,
                ),
            }
        }
    }

    /// The number of images to ask for: one more than the surface needs at
    /// least, but no more than it allows, where it sets a limit.
    pub open spec fn ideal_image_count(self) -> u32 {
        if self.max_image_count > 0 && self.min_image_count + 1 > self.max_image_count {
            self.max_image_count
        } else if self.min_image_count == u32::MAX {
            u32::MAX
        } else {
            (self.min_image_count + 1) as u32
        }
    }
}

/// The byte that a C character stands for.
pub open spec fn byte_of(c: i8) -> u8 {
    if c >= 0 {
        c as u8
    } else {
        (c + 256) as u8
    }
}

/// The bytes that C characters stand for.
pub open spec fn bytes_of(chars: Seq<i8>) -> Seq<u8> {
    Seq::new(chars.len(), |i: int| byte_of(chars[i]))
}

/// The first terminator of `chars` stands at position `p`.
pub open spec fn terminated_at(chars: Seq<i8>, p: int) -> bool {
    &&& 0 <= p < chars.len()
    &&& chars[p] == 0
    &&& forall|j: int| 0 <= j < p ==> chars[j] != 0
}

/// `chars` holds a terminator.
pub open spec fn terminated(chars: Seq<i8>) -> bool {
    exists|p: int| terminated_at(chars, p)
}

/// The position of the first terminator of `chars`.
pub open spec fn terminator(chars: Seq<i8>) -> int {
    choose|p: int| terminated_at(chars, p)
}

/// The first terminator is the only position that qualifies as such.
pub proof fn lemma_terminator_unique(chars: Seq<i8>, p: int)
    requires
        terminated_at(chars, p),
    ensures
        terminated(chars),
        terminator(chars) == p,
{
    let q = terminator(chars);
    assert(terminated_at(chars, q));
    if q < p {
        assert(chars[q] != 0);
    } else if p < q {
        assert(chars[p] != 0);
    }
}

/// The bytes of `chars` before its first terminator.
pub open spec fn text_bytes(chars: Seq<i8>) -> Seq<u8> {
    bytes_of(chars.subrange(0, terminator(chars)))
}

/// The bytes of `chars` up to its first terminator, the terminator included.
pub open spec fn name_bytes(chars: Seq<i8>) -> Seq<u8> {
    bytes_of(chars.subrange(0, terminator(chars) + 1))
}

/// Calls `String::from_utf8`, which hands back the string that the bytes
/// encode where they are valid UTF-8, and an error where they are not.
#[verifier::external_body]
pub(crate) fn string_from_utf8(bytes: Vec<u8>) -> (r: Option<String>)
    ensures
        r is Some == valid_utf8(bytes@),
        r is Some ==> r->0@ == decode_utf8(bytes@),
{
    match String::from_utf8(bytes) {
        Ok(s) => Some(s),
        Err(_) => None,
    }
}

/// The position of the first terminator of `chars`, if it has one.
pub fn find_terminator(chars: &[i8]) -> (r: Option<usize>)
    ensures
        match r {
            Some(p) => terminated_at(chars@, p as int),
            None => !terminated(chars@),
        },
{
    let mut i: usize = 0;
    while i < chars.len()
        invariant
            i <= chars@.len(),
            forall|j: int| 0 <= j < i ==> chars@[j] != 0,
        decreases chars.len() - i,
    {
        if chars[i] == 0 {
            return Some(i);
        }
        i = i + 1;
    }
    assert forall|p: int| !terminated_at(chars@, p) by {
        if 0 <= p < chars@.len() {
            assert(chars@[p] != 0);
        }
    }
    None
}

/// The first `n` of `chars` as bytes.
pub fn bytes_from_chars(chars: &[i8], n: usize) -> (r: Vec<u8>)
    requires
        n <= chars@.len(),
    ensures
        r@ == bytes_of(chars@.subrange(0, n as int)),
{
    let mut bytes: Vec<u8> = Vec::new();
    let mut i: usize = 0;
    while i < n
        invariant
            i <= n <= chars@.len(),
            bytes@.len() == i,
            forall|j: int| 0 <= j < i ==> bytes@[j] == byte_of(chars@[j]),
        decreases n - i,
    {
        let c: i8 = chars[i];
        let b: u8 = if c >= 0 {
            c as u8
        } else {
            (c as i16 + 256) as u8
        };
        bytes.push(b);
        i = i + 1;
    }
    assert(bytes@ =~= bytes_of(chars@.subrange(0, n as int)));
    bytes
}

/// The text that a terminated array of C characters holds: what stands
/// before the first terminator, decoded as UTF-8. Nothing where there is no
/// terminator or the bytes before it are not UTF-8.
pub fn get_string_from_chars(chars: &[i8]) -> (r: Option<String>)
    ensures
        r is Some == (terminated(chars@) && valid_utf8(text_bytes(chars@))),
        r is Some ==> r->0@ == decode_utf8(text_bytes(chars@)),
{
    match find_terminator(chars) {
        None => None,
        Some(p) => {
            proof {
                lemma_terminator_unique(chars@, p as int);
            }
            string_from_utf8(bytes_from_chars(chars, p))
        },
    }
}

/// One adapter, as it answered when it was asked.
#[derive(Debug)]
pub struct PhysicalDevice {
    pub handle: u64,
    pub device_id: u32,
    pub device_type: i32,
    pub device_name: Vec<i8>,
    pub extension_properties: Vec<Vec<i8>>,
    pub queue_family_properties: Vec<QueueFamilyProperties>,
    pub surface_support: Vec<bool>,
    pub surface_formats: Vec<SurfaceFormat>,
    pub surface_present_modes: Vec<i32>,
    pub surface_capabilities: SurfaceCapabilities,
    pub memory_properties: MemoryProperties,
    pub sampler_anisotropy: bool,
}

/// The capabilities of a surface of which nothing is known: all zero.
pub open spec fn no_capabilities() -> SurfaceCapabilities {
    SurfaceCapabilities {
        min_image_count: 0,
        max_image_count: 0,
        current_extent: Extent2D { width: 0, height: 0 },
        min_image_extent: Extent2D { width: 0, height: 0 },
        max_image_extent: Extent2D { width: 0, height: 0 },
        max_image_array_layers: 0,
        supported_transforms: 0,
        current_transform: 0,
        supported_composite_alpha: 0,
        supported_usage_flags: 0,
    }
}

impl PhysicalDevice {
    /// Nothing is known of the adapter but that its handle is `handle`:
    /// every number is zero and every list is empty.
    pub open spec fn is_blank(&self, handle: u64) -> bool {
        &&& self.handle == handle
        &&& self.device_id == 0
        &&& self.device_type == 0
        &&& self.device_name@.len() == 0
        &&& self.extension_properties@.len() == 0
        &&& self.queue_family_properties@.len() == 0
        &&& self.surface_support@.len() == 0
        &&& self.surface_formats@.len() == 0
        &&& self.surface_present_modes@.len() == 0
        &&& self.surface_capabilities == no_capabilities()
        &&& self.memory_properties.memory_types@.len() == 0
        &&& self.memory_properties.memory_heaps@.len() == 0
        &&& !self.sampler_anisotropy
    }

    /// An adapter of which nothing is known yet but its handle.
    pub fn new(handle: u64) -> (r: PhysicalDevice)
        ensures
            r.is_blank(handle),
    {
        let zero = Extent2D { width: 0, height: 0 };
        PhysicalDevice {
            handle,
            device_id: 0,
            device_type: 0,
            device_name: Vec::new(),
            extension_properties: Vec::new(),
            queue_family_properties: Vec::new(),
            surface_support: Vec::new(),
            surface_formats: Vec::new(),
            surface_present_modes: Vec::new(),
            surface_capabilities: SurfaceCapabilities {
                min_image_count: 0,
                max_image_count: 0,
                current_extent: zero,
                min_image_extent: zero,
                max_image_extent: zero,
                max_image_array_layers: 0,
                supported_transforms: 0,
                current_transform: 0,
                supported_composite_alpha: 0,
                supported_usage_flags: 0,
            },
            memory_properties: MemoryProperties {
                memory_types: Vec::new(),
                memory_heaps: Vec::new(),
            },
            sampler_anisotropy: false,
        }
    }

    /// What to create a device on this adapter from; see
    /// [`Device::create_info`].
    pub fn get_device(&self, queue_family_indices: &Vec<u32>, enabled_extensions: &Vec<Vec<u8>>) -> (r:
        Result<(Vec<QueueFamilyConfig>, DeviceCreateInfo), DeviceError>)
        ensures
            described(self, queue_family_indices@, enabled_extensions@, r),
    {
        Device::create_info(self, queue_family_indices, enabled_extensions)
    }

    pub fn device_id(&self) -> (r: u32)
        ensures
            r == self.device_id,
    {
        self.device_id
    }

    /// The name of the adapter, where it is terminated and valid UTF-8.
    pub fn device_name(&self) -> (r: Option<String>)
        ensures
            r is Some == (terminated(self.device_name@) && valid_utf8(
                text_bytes(self.device_name@),
            )),
            r is Some ==> r->0@ == decode_utf8(text_bytes(self.device_name@)),
    {
        get_string_from_chars(self.device_name.as_slice())
    }

    pub fn device_type(&self) -> (r: i32)
        ensures
            r == self.device_type,
    {
        self.device_type
    }

    /// The names of the extensions that the adapter offers, each with its
    /// terminator; nothing where one of them has none.
    pub fn extension_names(&self) -> (r: Option<Vec<Vec<u8>>>)
        ensures
            match r {
                Some(names) => {
                    &&& names@.len() == self.extension_properties@.len()
                    &&& forall|i: int|
                        0 <= i < names@.len() ==> terminated(
                            (#[trigger] self.extension_properties@[i])@,
                        )
                    &&& forall|i: int|
                        0 <= i < names@.len() ==> (#[trigger] names@[i])@ == name_bytes(
                            self.extension_properties@[i]@,
                        )
                },
                None => exists|i: int|
                    0 <= i < self.extension_properties@.len() && !terminated(
                        (#[trigger] self.extension_properties@[i])@,
                    ),
            },
    {
        let mut names: Vec<Vec<u8>> = Vec::new();
        let mut i: usize = 0;
        while i < self.extension_properties.len()
            invariant
                i <= self.extension_properties@.len(),
                names@.len() == i,
                forall|j: int|
                    0 <= j < i ==> terminated((#[trigger] self.extension_properties@[j])@),
                forall|j: int|
                    0 <= j < i ==> (#[trigger] names@[j])@ == name_bytes(
                        self.extension_properties@[j]@,
                    ),
            decreases self.extension_properties.len() - i,
        {
            let raw = self.extension_properties[i].as_slice();
            let len = raw.len();
            match find_terminator(raw) {
                None => {
                    return None;
                },
                Some(p) => {
                    proof {
                        lemma_terminator_unique(raw@, p as int);
                    }
                    assert(p < len);
                    let name = bytes_from_chars(raw, p + 1);
                    assert(name@ == name_bytes(self.extension_properties@[i as int]@));
                    names.push(name);
                },
            }
            i = i + 1;
        }
        Some(names)
    }

    pub fn get_queue_family_properties(&self) -> (r: &Vec<QueueFamilyProperties>)
        ensures
            r@ == self.queue_family_properties@,
    {
        &self.queue_family_properties
    }

    /// Whether queues of the family `queue_family_index` can present to the
    /// surface; a family that the adapter does not have cannot.
    pub fn supports_surface(&self, queue_family_index: u32) -> (r: bool)
        ensures
            r == (queue_family_index < self.surface_support@.len()
                && self.surface_support@[queue_family_index as int]),
    {
        if (queue_family_index as usize) < self.surface_support.len() {
            self.surface_support[queue_family_index as usize]
        } else {
            false
        }
    }

    pub fn get_surface_formats(&self) -> (r: &Vec<SurfaceFormat>)
        ensures
            r@ == self.surface_formats@,
    {
        &self.surface_formats
    }

    pub fn get_surface_present_modes(&self) -> (r: &Vec<i32>)
        ensures
            r@ == self.surface_present_modes@,
    {
        &self.surface_present_modes
    }

    pub fn get_surface_capabilities(&self) -> (r: SurfaceCapabilities)
        ensures
            r == self.surface_capabilities,
    {
        self.surface_capabilities
    }

    /// The extent to create a swapchain with for a window of `width` by
    /// `height` pixels.
    pub fn get_surface_current_extent_clamped(&self, width: u32, height: u32) -> (r: Extent2D)
        requires
            self.surface_capabilities.wf(),
        ensures
            r == self.surface_capabilities.extent_for(width, height),
            !self.surface_capabilities.has_fixed_extent() ==> {
                &&& self.surface_capabilities.min_image_extent.width <= r.width
                    <= self.surface_capabilities.max_image_extent.width
                &&& self.surface_capabilities.min_image_extent.height <= r.height
                    <= self.surface_capabilities.max_image_extent.height
            },
    {
        let caps = self.surface_capabilities;
        let current_extent = caps.current_extent;
        if current_extent.width != EXTENT_UNDEFINED && current_extent.height != EXTENT_UNDEFINED {
            return current_extent;
        }
        Extent2D {
            width: clamp(width, caps.min_image_extent.width, caps.max_image_extent.width),
            height: clamp(height, caps.min_image_extent.height, caps.max_image_extent.height),
        }
    }

    /// The number of images to ask a swapchain for.
    pub fn get_surface_ideal_image_count(&self) -> (r: u32)
        ensures
            r == self.surface_capabilities.ideal_image_count(),
    {
        let caps = self.surface_capabilities;
        if caps.min_image_count == u32::MAX {
            if caps.max_image_count > 0 {
                return caps.max_image_count;
            }
            return u32::MAX;
        }
        let image_count = caps.min_image_count + 1;
        if caps.max_image_count > 0 && image_count > caps.max_image_count {
            return caps.max_image_count;
        }
        image_count
    }

    pub fn get_memory_properties(&self) -> (r: &MemoryProperties)
        ensures
            r == &self.memory_properties,
    {
        &self.memory_properties
    }
}

impl HasRawVkHandle<u64> for PhysicalDevice {
    open spec fn raw_handle(&self) -> u64 {
        self.handle
    }

    fn get_vk_handle(&self) -> u64 {
        self.handle
    }
}

} // verus!
