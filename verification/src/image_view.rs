//! Views of images.

use crate::raw_handle::HasRawVkHandle;
use vstd::prelude::*;

verus! {

/// The mip levels and array layers of an image that an operation touches.
#[derive(Clone, Copy, Debug, PartialEq, Eq, Structural)]
pub struct ImageSubresourceRange {
    pub aspect_mask: u32,
    pub base_mip_level: u32,
    pub level_count: u32,
    pub base_array_layer: u32,
    pub layer_count: u32,
}

/// What a view is created from. The components are not swizzled.
#[derive(Clone, Copy, Debug, PartialEq, Eq, Structural)]
pub struct ImageViewCreateInfo {
    pub flags: u32,
    pub image: u64,
    pub view_type: i32,
    pub format: i32,
    pub subresource_range: ImageSubresourceRange,
}

/// A created view, which keeps its image alive.
#[derive(Clone, Copy, Debug, PartialEq, Eq, Structural)]
pub struct ImageView {
    pub handle: u64,
    pub image: u64,
}

impl ImageView {
    /// What to create a view of `image` from.
    pub fn create_info(
        image: u64,
        view_type: i32,
        format: i32,
        subresource_range: ImageSubresourceRange,
    ) -> (r: ImageViewCreateInfo)
        ensures
            r == (ImageViewCreateInfo { flags: 0, image, view_type, format, subresource_range }),
    {
        ImageViewCreateInfo { flags: 0, image, view_type, format, subresource_range }
    }

    pub fn new(handle: u64, image: u64) -> (r: ImageView)
        ensures
            r == (ImageView { handle, image }),
    {
        ImageView { handle, image }
    }
}

impl HasRawVkHandle<u64> for ImageView {
    open spec fn raw_handle(&self) -> u64 {
        self.handle
    }

    fn get_vk_handle(&self) -> u64 {
        self.handle
    }
}

} // verus!
