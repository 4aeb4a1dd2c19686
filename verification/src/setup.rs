//! What is decided once, at startup and again at every rebuild of the
//! swapchain: which adapter to run on, which queue families to create, how
//! the surface is presented to, and what the images drawn into look like.

use crate::buffer::{AllocationCreateInfo, MemoryUsage};
use crate::extent::{Extent2D, Extent3D};
use crate::flags::{mask_contains, queue_flags_contains};
use crate::image::{Image, ImageCreateInfo, IMAGE_TYPE_2D};
use crate::physical_device::{
    find_terminator, lemma_terminator_unique, name_bytes, terminated, PhysicalDevice,
    QueueFamilyProperties, SurfaceFormat,
};
use crate::swapchain::{Swapchain, SwapchainCreateInfo};
use vstd::prelude::*;

verus! {

pub const PHYSICAL_DEVICE_TYPE_INTEGRATED_GPU: i32 = 1;

pub const PHYSICAL_DEVICE_TYPE_DISCRETE_GPU: i32 = 2;

pub const QUEUE_GRAPHICS: u32 = 0x1;

pub const QUEUE_COMPUTE: u32 = 0x2;

pub const PRESENT_MODE_FIFO: i32 = 2;

pub const PRESENT_MODE_FIFO_RELAXED: i32 = 3;

pub const FORMAT_B8G8R8A8_SRGB: i32 = 50;

pub const FORMAT_R16G16B16A16_SFLOAT: i32 = 97;

pub const COLOR_SPACE_SRGB_NONLINEAR: i32 = 0;

pub const IMAGE_TILING_OPTIMAL: i32 = 0;

pub const MEMORY_PROPERTY_DEVICE_LOCAL: u32 = 0x1;

/// Transfer destination and color attachment.
pub const SWAPCHAIN_IMAGE_USAGE: u32 = 0x12;

/// Transfer source and destination, storage and color attachment.
pub const DRAW_IMAGE_USAGE: u32 = 0x1B;

/// How far down the list of preferences a kind of adapter stands: discrete
/// first, integrated next, every other kind last.
pub open spec fn device_rank(device_type: i32) -> u32 {
    if device_type == PHYSICAL_DEVICE_TYPE_DISCRETE_GPU {
        0
    } else if device_type == PHYSICAL_DEVICE_TYPE_INTEGRATED_GPU {
        1
    } else {
        4
    }
}

/// How far down the list of preferences a present mode stands: relaxed
/// FIFO first, FIFO next, every other mode last.
pub open spec fn present_mode_rank(mode: i32) -> u32 {
    if mode == PRESENT_MODE_FIFO_RELAXED {
        0
    } else if mode == PRESENT_MODE_FIFO {
        1
    } else {
        2
    }
}

/// Position `i` holds the smallest of `keys`, and no position before it
/// holds a key as small.
pub open spec fn first_least(keys: Seq<u32>, i: int) -> bool {
    &&& 0 <= i < keys.len()
    &&& forall|j: int| 0 <= j < keys.len() ==> keys[i] <= keys[j]
    &&& forall|j: int| 0 <= j < i ==> keys[j] > keys[i]
}

/// The first position that holds the smallest of `keys`.
pub fn first_least_position(keys: &Vec<u32>) -> (r: Option<usize>)
    ensures
        match r {
            Some(i) => first_least(keys@, i as int),
            None => keys@.len() == 0,
        },
{
    if keys.len() == 0 {
        return None;
    }
    let mut best: usize = 0;
    let mut i: usize = 1;
    while i < keys.len()
        invariant
            1 <= i <= keys@.len(),
            best < i,
            forall|j: int| 0 <= j < i ==> keys@[best as int] <= keys@[j],
            forall|j: int| 0 <= j < best ==> keys@[j] > keys@[best as int],
        decreases keys.len() - i,
    {
        if keys[i] < keys[best] {
            best = i;
        }
        i = i + 1;
    }
    Some(best)
}

/// Some queue family of the adapter can present to the surface.
pub open spec fn presents(d: &PhysicalDevice) -> bool {
    exists|f: int|
        0 <= f < d.queue_family_properties@.len() && f < d.surface_support@.len()
            && d.surface_support@[f]
}

/// Some queue family of the adapter can do all of `flags`.
pub open spec fn offers_queue(d: &PhysicalDevice, flags: u32) -> bool {
    exists|f: int|
        0 <= f < d.queue_family_properties@.len() && mask_contains(
            d.queue_family_properties@[f].queue_flags,
            flags,
        )
}

/// The adapter offers the extension with the C string `name`.
pub open spec fn offers_extension(d: &PhysicalDevice, name: Seq<u8>) -> bool {
    exists|e: int|
        0 <= e < d.extension_properties@.len() && terminated(d.extension_properties@[e]@)
            && name_bytes(d.extension_properties@[e]@) == name
}

/// The adapter can run the engine: it presents to the surface, has a queue
/// for each of `required_queue_flags`, filters anisotropically and offers
/// each of `required_extensions`.
pub open spec fn eligible(
    d: &PhysicalDevice,
    required_queue_flags: Seq<u32>,
    required_extensions: Seq<Vec<u8>>,
) -> bool {
    &&& presents(d)
    &&& forall|q: int|
        0 <= q < required_queue_flags.len() ==> offers_queue(d, #[trigger] required_queue_flags[q])
    &&& d.sampler_anisotropy
    &&& forall|x: int|
        0 <= x < required_extensions.len() ==> offers_extension(
            d,
            (#[trigger] required_extensions[x])@,
        )
}

/// The ranks of the kinds of `devices`.
pub open spec fn device_ranks(devices: Seq<PhysicalDevice>) -> Seq<u32> {
    Seq::new(devices.len(), |i: int| device_rank(devices[i].device_type))
}

/// The ranks of `modes`.
pub open spec fn present_mode_ranks(modes: Seq<i32>) -> Seq<u32> {
    Seq::new(modes.len(), |i: int| present_mode_rank(modes[i]))
}

/// Whether some queue family of `d` can present.
pub fn check_presents(d: &PhysicalDevice) -> (r: bool)
    ensures
        r == presents(d),
{
    let mut f: usize = 0;
    while f < d.queue_family_properties.len()
        invariant
            f <= d.queue_family_properties@.len(),
            forall|j: int|
                0 <= j < f ==> !(j < d.surface_support@.len() && d.surface_support@[j]),
        decreases d.queue_family_properties.len() - f,
    {
        if f < d.surface_support.len() && d.surface_support[f] {
            return true;
        }
        f = f + 1;
    }
    false
}

/// Whether some queue family of `d` can do all of `flags`.
pub fn check_offers_queue(d: &PhysicalDevice, flags: u32) -> (r: bool)
    ensures
        r == offers_queue(d, flags),
{
    let mut f: usize = 0;
    while f < d.queue_family_properties.len()
        invariant
            f <= d.queue_family_properties@.len(),
            forall|j: int|
                0 <= j < f ==> !mask_contains(d.queue_family_properties@[j].queue_flags, flags),
        decreases d.queue_family_properties.len() - f,
    {
        if queue_flags_contains(d.queue_family_properties[f].queue_flags, flags) {
            return true;
        }
        f = f + 1;
    }
    false
}

/// Whether the bytes of the first `n` of `chars` are `name`.
pub fn chars_match(chars: &[i8], n: usize, name: &Vec<u8>) -> (r: bool)
    requires
        n <= chars@.len(),
    ensures
        r == (crate::physical_device::bytes_of(chars@.subrange(0, n as int)) == name@),
{
    let ghost target = crate::physical_device::bytes_of(chars@.subrange(0, n as int));
    if name.len() != n {
        assert(target.len() != name@.len());
        return false;
    }
    let mut i: usize = 0;
    while i < n
        invariant
            i <= n <= chars@.len(),
            name@.len() == n,
            target == crate::physical_device::bytes_of(chars@.subrange(0, n as int)),
            forall|j: int| 0 <= j < i ==> target[j] == name@[j],
        decreases n - i,
    {
        let c: i8 = chars[i];
        let b: u8 = if c >= 0 {
            c as u8
        } else {
            (c as i16 + 256) as u8
        };
        assert(target[i as int] == b);
        if b != name[i] {
            return false;
        }
        i = i + 1;
    }
    assert(target =~= name@);
    true
}

/// Whether `d` offers the extension with the C string `name`.
pub fn check_offers_extension(d: &PhysicalDevice, name: &Vec<u8>) -> (r: bool)
    ensures
        r == offers_extension(d, name@),
{
    let mut e: usize = 0;
    while e < d.extension_properties.len()
        invariant
            e <= d.extension_properties@.len(),
            forall|j: int|
                0 <= j < e ==> !(terminated(d.extension_properties@[j]@) && name_bytes(
                    d.extension_properties@[j]@,
                ) == name@),
        decreases d.extension_properties.len() - e,
    {
        let raw = d.extension_properties[e].as_slice();
        let len = raw.len();
        match find_terminator(raw) {
            Some(p) => {
                proof {
                    lemma_terminator_unique(raw@, p as int);
                }
                assert(p < len);
                if chars_match(raw, p + 1, name) {
                    return true;
                }
            },
            None => {},
        }
        e = e + 1;
    }
    false
}

/// Whether `d` can run the engine.
pub fn check_eligible(
    d: &PhysicalDevice,
    required_queue_flags: &Vec<u32>,
    required_extensions: &Vec<Vec<u8>>,
) -> (r: bool)
    ensures
        r == eligible(d, required_queue_flags@, required_extensions@),
{
    if !check_presents(d) {
        return false;
    }
    let mut q: usize = 0;
    while q < required_queue_flags.len()
        invariant
            q <= required_queue_flags@.len(),
            forall|j: int| 0 <= j < q ==> offers_queue(d, #[trigger] required_queue_flags@[j]),
        decreases required_queue_flags.len() - q,
    {
        if !check_offers_queue(d, required_queue_flags[q]) {
            return false;
        }
        q = q + 1;
    }
    if !d.sampler_anisotropy {
        return false;
    }
    let mut x: usize = 0;
    while x < required_extensions.len()
        invariant
            x <= required_extensions@.len(),
            forall|j: int|
                0 <= j < x ==> offers_extension(d, (#[trigger] required_extensions@[j])@),
        decreases required_extensions.len() - x,
    {
        if !check_offers_extension(d, &required_extensions[x]) {
            return false;
        }
        x = x + 1;
    }
    true
}

/// The adapter to run on: the first of the most preferred kind, provided
/// that it can run the engine. No other adapter is considered, even where
/// the preferred one cannot.
pub fn select_physical_device(
    devices: &Vec<PhysicalDevice>,
    required_queue_flags: &Vec<u32>,
    required_extensions: &Vec<Vec<u8>>,
) -> (r: Option<usize>)
    ensures
        match r {
            Some(i) => first_least(device_ranks(devices@), i as int) && eligible(
                &devices@[i as int],
                required_queue_flags@,
                required_extensions@,
            ),
            None => forall|i: int|
                first_least(device_ranks(devices@), i) ==> !eligible(
                    &devices@[i],
                    required_queue_flags@,
                    required_extensions@,
                ),
        },
{
    let mut ranks: Vec<u32> = Vec::new();
    let mut i: usize = 0;
    while i < devices.len()
        invariant
            i <= devices@.len(),
            ranks@.len() == i,
            forall|j: int| 0 <= j < i ==> ranks@[j] == device_rank(devices@[j].device_type),
        decreases devices.len() - i,
    {
        let t = devices[i].device_type;
        let rank: u32 = if t == PHYSICAL_DEVICE_TYPE_DISCRETE_GPU {
            0
        } else if t == PHYSICAL_DEVICE_TYPE_INTEGRATED_GPU {
            1
        } else {
            4
        };
        ranks.push(rank);
        i = i + 1;
    }
    assert(ranks@ =~= device_ranks(devices@));
    match first_least_position(&ranks) {
        None => None,
        Some(best) => {
            if check_eligible(&devices[best], required_queue_flags, required_extensions) {
                Some(best)
            } else {
                assert forall|k: int| first_least(device_ranks(devices@), k) implies k == best by {
                    if k < best {
                        assert(ranks@[k] > ranks@[best as int]);
                    } else if best < k {
                        assert(ranks@[best as int] > ranks@[k]);
                    }
                }
                None
            }
        },
    }
}

/// The families among the first `n` of `families` whose queues do graphics
/// or compute, by index.
pub open spec fn enabled_families(families: Seq<QueueFamilyProperties>, n: int) -> Seq<u32>
    decreases n,
{
    if n <= 0 {
        Seq::empty()
    } else {
        let rest = enabled_families(families, n - 1);
        if mask_contains(families[n - 1].queue_flags, QUEUE_GRAPHICS) || mask_contains(
            families[n - 1].queue_flags,
            QUEUE_COMPUTE,
        ) {
            rest.push((n - 1) as u32)
        } else {
            rest
        }
    }
}

/// The indices of the queue families to create a device with: every family
/// whose queues do graphics or compute.
pub fn select_queue_families(families: &Vec<QueueFamilyProperties>) -> (r: Vec<u32>)
    requires
        families@.len() <= u32::MAX,
    ensures
        r@ == enabled_families(families@, families@.len() as int),
{
    let mut indices: Vec<u32> = Vec::new();
    let mut i: usize = 0;
    while i < families.len()
        invariant
            i <= families@.len() <= u32::MAX,
            indices@ == enabled_families(families@, i as int),
        decreases families.len() - i,
    {
        let flags = families[i].queue_flags;
        if queue_flags_contains(flags, QUEUE_GRAPHICS) || queue_flags_contains(
            flags,
            QUEUE_COMPUTE,
        ) {
            indices.push(i as u32);
        }
        i = i + 1;
    }
    indices
}

/// The present mode to use: the first of the most preferred rank.
pub fn choose_present_mode(modes: &Vec<i32>) -> (r: Option<i32>)
    ensures
        match r {
            Some(mode) => exists|i: int|
                first_least(present_mode_ranks(modes@), i) && modes@[i] == mode,
            None => modes@.len() == 0,
        },
{
    let mut ranks: Vec<u32> = Vec::new();
    let mut i: usize = 0;
    while i < modes.len()
        invariant
            i <= modes@.len(),
            ranks@.len() == i,
            forall|j: int| 0 <= j < i ==> ranks@[j] == present_mode_rank(modes@[j]),
        decreases modes.len() - i,
    {
        let m = modes[i];
        let rank: u32 = if m == PRESENT_MODE_FIFO_RELAXED {
            0
        } else if m == PRESENT_MODE_FIFO {
            1
        } else {
            2
        };
        ranks.push(rank);
        i = i + 1;
    }
    assert(ranks@ =~= present_mode_ranks(modes@));
    match first_least_position(&ranks) {
        Some(best) => Some(modes[best]),
        None => None,
    }
}

/// The format that the engine likes best.
pub open spec fn preferred_format(f: SurfaceFormat) -> bool {
    f.format == FORMAT_B8G8R8A8_SRGB && f.color_space == COLOR_SPACE_SRGB_NONLINEAR
}

/// The surface format to use: the first preferred one, else the first.
pub fn choose_surface_format(formats: &Vec<SurfaceFormat>) -> (r: Option<SurfaceFormat>)
    ensures
        match r {
            Some(f) => exists|i: int|
                {
                    &&& 0 <= i < formats@.len()
                    &&& formats@[i] == f
                    &&& forall|j: int| 0 <= j < i ==> !preferred_format(formats@[j])
                    &&& preferred_format(f) || (i == 0 && forall|j: int|
                        0 <= j < formats@.len() ==> !preferred_format(formats@[j]))
                },
            None => formats@.len() == 0,
        },
{
    if formats.len() == 0 {
        return None;
    }
    let mut i: usize = 0;
    while i < formats.len()
        invariant
            i <= formats@.len(),
            forall|j: int| 0 <= j < i ==> !preferred_format(formats@[j]),
        decreases formats.len() - i,
    {
        let f = formats[i];
        if f.format == FORMAT_B8G8R8A8_SRGB && f.color_space == COLOR_SPACE_SRGB_NONLINEAR {
            return Some(f);
        }
        i = i + 1;
    }
    Some(formats[0])
}

/// How a surface is presented to.
#[derive(Clone, Copy, Debug, PartialEq, Eq, Structural)]
pub struct SurfaceDetails {
    pub present_mode: i32,
    pub format: SurfaceFormat,
    pub extent: Extent2D,
}

/// `details` are how to present to the surface of `physical_device` for a
/// window of `width` by `height` pixels: the first present mode of the most
/// preferred rank, the first preferred format or else the first format, and
/// the extent that the surface dictates or else the window's, moved into
/// the range that the surface allows.
pub open spec fn details_chosen(
    physical_device: &PhysicalDevice,
    width: u32,
    height: u32,
    details: SurfaceDetails,
) -> bool {
    &&& details.extent == physical_device.surface_capabilities.extent_for(width, height)
    &&& exists|i: int|
        first_least(present_mode_ranks(physical_device.surface_present_modes@), i)
            && physical_device.surface_present_modes@[i] == details.present_mode
    &&& exists|i: int|
        {
            &&& 0 <= i < physical_device.surface_formats@.len()
            &&& physical_device.surface_formats@[i] == details.format
            &&& forall|j: int| 0 <= j < i ==> !preferred_format(physical_device.surface_formats@[j])
            &&& preferred_format(details.format) || (i == 0 && forall|j: int|
                0 <= j < physical_device.surface_formats@.len() ==> !preferred_format(
                    physical_device.surface_formats@[j],
                ))
        }
}

/// The surface of `physical_device` offers a present mode and a format.
pub open spec fn presentable(physical_device: &PhysicalDevice) -> bool {
    physical_device.surface_present_modes@.len() > 0 && physical_device.surface_formats@.len() > 0
}

/// How to present to the surface of `physical_device` for a window of
/// `width` by `height` pixels; nothing where the surface offers no present
/// mode or no format.
pub fn get_surface_details(physical_device: &PhysicalDevice, width: u32, height: u32) -> (r:
    Option<SurfaceDetails>)
    requires
        physical_device.surface_capabilities.wf(),
    ensures
        r is Some == presentable(physical_device),
        r is Some ==> details_chosen(physical_device, width, height, r->0),
{
    let present_mode = match choose_present_mode(physical_device.get_surface_present_modes()) {
        Some(mode) => mode,
        None => {
            return None;
        },
    };
    let format = match choose_surface_format(physical_device.get_surface_formats()) {
        Some(f) => f,
        None => {
            return None;
        },
    };
    let extent = physical_device.get_surface_current_extent_clamped(width, height);
    Some(SurfaceDetails { present_mode, format, extent })
}

/// What to create the swapchain of the engine from.
pub fn swapchain_info(
    surface: u64,
    physical_device: &PhysicalDevice,
    details: &SurfaceDetails,
    old_swapchain: Option<&mut Swapchain>,
) -> (r: SwapchainCreateInfo)
    ensures
        r == (SwapchainCreateInfo {
            flags: 0,
            surface,
            min_image_count: physical_device.surface_capabilities.ideal_image_count(),
            image_format: details.format.format,
            image_color_space: details.format.color_space,
            image_extent: details.extent,
            image_array_layers: 1,
            image_usage: SWAPCHAIN_IMAGE_USAGE,
            image_sharing_mode: crate::buffer::SHARING_MODE_EXCLUSIVE,
            pre_transform: physical_device.surface_capabilities.current_transform,
            composite_alpha: crate::swapchain::COMPOSITE_ALPHA_OPAQUE,
            present_mode: details.present_mode,
            clipped: true,
            old_swapchain: match old_swapchain {
                Some(old) => old@.handle,
                None => crate::queue::NULL_HANDLE,
            },
        }),
        match old_swapchain {
            Some(old) => final(old)@ == (crate::swapchain::SwapchainSpec { retired: true, ..old@ }),
            None => true,
        },
{
    let caps = physical_device.get_surface_capabilities();
    Swapchain::create_info(
        surface,
        &caps,
        physical_device.get_surface_ideal_image_count(),
        details.format.format,
        details.format.color_space,
        details.extent,
        SWAPCHAIN_IMAGE_USAGE,
        details.present_mode,
        old_swapchain,
    )
}

/// What to create each image that a frame draws into from.
pub fn draw_image_info(extent: Extent3D) -> (r: (ImageCreateInfo, AllocationCreateInfo))
    ensures
        r.0 == (ImageCreateInfo {
            flags: 0,
            image_type: IMAGE_TYPE_2D,
            format: FORMAT_R16G16B16A16_SFLOAT,
            extent,
            mip_levels: 1,
            array_layers: 1,
            samples: crate::graphics_pipeline::SAMPLE_COUNT_1,
            tiling: IMAGE_TILING_OPTIMAL,
            usage: DRAW_IMAGE_USAGE,
            sharing_mode: crate::buffer::SHARING_MODE_EXCLUSIVE,
            initial_layout: crate::image::IMAGE_LAYOUT_UNDEFINED,
        }),
        r.1 == (AllocationCreateInfo {
            flags: 0,
            usage: MemoryUsage::AutoPreferDevice,
            required_flags: MEMORY_PROPERTY_DEVICE_LOCAL,
            preferred_flags: 0,
            memory_type_bits: 0,
            user_data: 0,
        }),
{
    Image::create_info(
        IMAGE_TYPE_2D,
        FORMAT_R16G16B16A16_SFLOAT,
        extent,
        1,
        1,
        crate::graphics_pipeline::SAMPLE_COUNT_1,
        IMAGE_TILING_OPTIMAL,
        DRAW_IMAGE_USAGE,
        MemoryUsage::AutoPreferDevice,
        0,
        MEMORY_PROPERTY_DEVICE_LOCAL,
    )
}

} // verus!
