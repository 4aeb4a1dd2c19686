//! Images: those that own their memory and those that a swapchain lends.

use crate::buffer::{AllocationCreateInfo, MemoryUsage, SHARING_MODE_EXCLUSIVE};
use crate::extent::Extent3D;
use crate::image_view::{ImageSubresourceRange, ImageViewCreateInfo};
use crate::raw_handle::HasRawVkHandle;
use vstd::prelude::*;

verus! {

pub const IMAGE_TYPE_1D: i32 = 0;

pub const IMAGE_TYPE_2D: i32 = 1;

pub const IMAGE_TYPE_3D: i32 = 2;

pub const IMAGE_VIEW_TYPE_1D: i32 = 0;

pub const IMAGE_VIEW_TYPE_2D: i32 = 1;

pub const IMAGE_VIEW_TYPE_3D: i32 = 2;

pub const IMAGE_LAYOUT_UNDEFINED: i32 = 0;

/// What an image is created from.
#[derive(Clone, Copy, Debug, PartialEq, Eq, Structural)]
pub struct ImageCreateInfo {
    pub flags: u32,
    pub image_type: i32,
    pub format: i32,
    pub extent: Extent3D,
    pub mip_levels: u32,
    pub array_layers: u32,
    pub samples: u32,
    pub tiling: i32,
    pub usage: u32,
    pub sharing_mode: i32,
    pub initial_layout: i32,
}

/// An image. One that was allocated owns its handle and its memory and
/// destroys both; one that a swapchain lends owns neither, and goes away
/// with the swapchain.
#[derive(Clone, Copy, Debug, PartialEq, Eq, Structural)]
pub struct Image {
    pub handle: u64,
    pub image_type: i32,
    pub format: i32,
    pub extent: Extent3D,
    pub allocated: bool,
}

/// The kind of view that shows all of an image of the type `image_type`.
pub open spec fn default_view_type(image_type: i32) -> Option<i32> {
    if image_type == IMAGE_TYPE_1D {
        Some(IMAGE_VIEW_TYPE_1D)
    } else if image_type == IMAGE_TYPE_2D {
        Some(IMAGE_VIEW_TYPE_2D)
    } else if image_type == IMAGE_TYPE_3D {
        Some(IMAGE_VIEW_TYPE_3D)
    } else {
        None
    }
}

impl Image {
    /// What to create an image from, and what to allocate its memory from.
    pub fn create_info(
        image_type: i32,
        format: i32,
        extent: Extent3D,
        mip_levels: u32,
        array_layers: u32,
        samples: u32,
        tiling: i32,
        image_usage: u32,
        memory_usage: MemoryUsage,
        allocation_flags: u32,
        required_flags: u32,
    ) -> (r: (ImageCreateInfo, AllocationCreateInfo))
        ensures
            r.0 == (ImageCreateInfo {
                flags: 0,
                image_type,
                format,
                extent,
                mip_levels,
                array_layers,
                samples,
                tiling,
                usage: image_usage,
                sharing_mode: SHARING_MODE_EXCLUSIVE,
                initial_layout: IMAGE_LAYOUT_UNDEFINED,
            }),
            r.1 == (AllocationCreateInfo {
                flags: allocation_flags,
                usage: memory_usage,
                required_flags,
                preferred_flags: 0,
                memory_type_bits: 0,
                user_data: 0,
            }),
    {
        (
            ImageCreateInfo {
                flags: 0,
                image_type,
                format,
                extent,
                mip_levels,
                array_layers,
                samples,
                tiling,
                usage: image_usage,
                sharing_mode: SHARING_MODE_EXCLUSIVE,
                initial_layout: IMAGE_LAYOUT_UNDEFINED,
            },
            AllocationCreateInfo {
                flags: allocation_flags,
                usage: memory_usage,
                required_flags,
                preferred_flags: 0,
                memory_type_bits: 0,
                user_data: 0,
            },
        )
    }

    /// An image that owns its handle and its memory.
    pub fn new(handle: u64, image_type: i32, format: i32, extent: Extent3D) -> (r: Image)
        ensures
            r == (Image { handle, image_type, format, extent, allocated: true }),
    {
        Image { handle, image_type, format, extent, allocated: true }
    }

    /// An image that a swapchain owns.
    pub fn from_swapchain(handle: u64, image_type: i32, format: i32, extent: Extent3D) -> (r: Image)
        ensures
            r == (Image { handle, image_type, format, extent, allocated: false }),
    {
        Image { handle, image_type, format, extent, allocated: false }
    }

    pub fn image_type(&self) -> (r: i32)
        ensures
            r == self.image_type,
    {
        self.image_type
    }

    pub fn format(&self) -> (r: i32)
        ensures
            r == self.format,
    {
        self.format
    }

    pub fn extent(&self) -> (r: Extent3D)
        ensures
            r == self.extent,
    {
        self.extent
    }

    /// Whether dropping this image destroys the native image and frees its
    /// memory: only for an image that was allocated.
    pub fn destroys_on_drop(&self) -> (r: bool)
        ensures
            r == self.allocated,
    {
        self.allocated
    }

    /// What to create the view from that shows the first mip level and the
    /// first array layer of this image; nothing for an image that is
    /// neither one-, two- nor three-dimensional.
    pub fn get_default_view(&self, aspect_mask: u32) -> (r: Option<ImageViewCreateInfo>)
        ensures
            r == (match default_view_type(self.image_type) {
                Some(view_type) => Some(
                    ImageViewCreateInfo {
                        flags: 0,
                        image: self.handle,
                        view_type,
                        format: self.format,
                        subresource_range: ImageSubresourceRange {
                            aspect_mask,
                            base_mip_level: 0,
                            level_count: 1,
                            base_array_layer: 0,
                            layer_count: 1,
                        },
                    },
                ),
                None => None,
            }),
    {
        let view_type = if self.image_type == IMAGE_TYPE_1D {
            IMAGE_VIEW_TYPE_1D
        } else if self.image_type == IMAGE_TYPE_2D {
            IMAGE_VIEW_TYPE_2D
        } else if self.image_type == IMAGE_TYPE_3D {
            IMAGE_VIEW_TYPE_3D
        } else {
            return None;
        };
        Some(
            ImageViewCreateInfo {
                flags: 0,
                image: self.handle,
                view_type,
                format: self.format,
                subresource_range: ImageSubresourceRange {
                    aspect_mask,
                    base_mip_level: 0,
                    level_count: 1,
                    base_array_layer: 0,
                    layer_count: 1,
                },
            },
        )
    }
}

impl HasRawVkHandle<u64> for Image {
    open spec fn raw_handle(&self) -> u64 {
        self.handle
    }

    fn get_vk_handle(&self) -> u64 {
        self.handle
    }
}

} // verus!
