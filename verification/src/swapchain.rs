//! The swapchain: created for one surface, rebuilt, never resized in place,
//! whenever the window changes or the surface goes stale.

use crate::buffer::SHARING_MODE_EXCLUSIVE;
use crate::device::NO_TIMEOUT;
use crate::extent::Extent2D;
use crate::image::{Image, IMAGE_TYPE_2D};
use crate::physical_device::SurfaceCapabilities;
use crate::queue::NULL_HANDLE;
use crate::raw_handle::HasRawVkHandle;
use vstd::prelude::*;

verus! {

/// The composite mode that ignores the alpha channel.
pub const COMPOSITE_ALPHA_OPAQUE: u32 = 0x1;

/// What a swapchain is created from.
#[derive(Clone, Copy, Debug, PartialEq, Eq, Structural)]
pub struct SwapchainCreateInfo {
    pub flags: u32,
    pub surface: u64,
    pub min_image_count: u32,
    pub image_format: i32,
    pub image_color_space: i32,
    pub image_extent: Extent2D,
    pub image_array_layers: u32,
    pub image_usage: u32,
    pub image_sharing_mode: i32,
    pub pre_transform: u32,
    pub composite_alpha: u32,
    pub present_mode: i32,
    pub clipped: bool,
    pub old_swapchain: u64,
}

/// A request for the next image to render into.
#[derive(Clone, Copy, Debug, PartialEq, Eq, Structural)]
pub struct AcquireInfo {
    pub swapchain: u64,
    pub timeout: u64,
    pub semaphore: u64,
    pub fence: u64,
}

/// A swapchain: its handle, the format and extent of its images, its images
/// once the driver has listed them, and whether a newer swapchain has taken
/// its place.
#[derive(Debug)]
pub struct Swapchain {
    handle: u64,
    format: i32,
    extent: Extent2D,
    images: Option<Vec<Image>>,
    retired: bool,
}

/// What a [`Swapchain`] holds.
pub struct SwapchainSpec {
    pub handle: u64,
    pub format: i32,
    pub extent: Extent2D,
    pub images: Option<Seq<Image>>,
    pub retired: bool,
}

impl View for Swapchain {
    type V = SwapchainSpec;

    closed spec fn view(&self) -> SwapchainSpec {
        SwapchainSpec {
            handle: self.handle,
            format: self.format,
            extent: self.extent,
            images: match self.images {
                Some(v) => Some(v@),
                None => None,
            },
            retired: self.retired,
        }
    }
}

/// The handle, or the null handle for none.
pub open spec fn handle_or_null(handle: Option<u64>) -> u64 {
    match handle {
        Some(h) => h,
        None => NULL_HANDLE,
    }
}

/// The images of a swapchain with the format `format` and the extent
/// `extent`, one for each handle that the driver listed.
pub open spec fn swapchain_images(handles: Seq<u64>, format: i32, extent: Extent2D) -> Seq<Image> {
    Seq::new(
        handles.len(),
        |i: int|
            Image {
                handle: handles[i],
                image_type: IMAGE_TYPE_2D,
                format,
                extent: crate::extent::Extent3D {
                    width: extent.width,
                    height: extent.height,
                    depth: 1,
                },
                allocated: false,
            },
    )
}

impl Swapchain {
    /// What to create a swapchain for `surface` from. Where `old_swapchain`
    /// is given, the driver may take over what it holds: it is marked as
    /// retired, and yields no image from then on.
    pub fn create_info(
        surface: u64,
        capabilities: &SurfaceCapabilities,
        min_image_count: u32,
        image_format: i32,
        image_color_space: i32,
        image_extent: Extent2D,
        image_usage: u32,
        present_mode: i32,
        old_swapchain: Option<&mut Swapchain>,
    ) -> (r: SwapchainCreateInfo)
        ensures
            r == (SwapchainCreateInfo {
                flags: 0,
                surface,
                min_image_count,
                image_format,
                image_color_space,
                image_extent,
                image_array_layers: 1,
                image_usage,
                image_sharing_mode: SHARING_MODE_EXCLUSIVE,
                pre_transform: capabilities.current_transform,
                composite_alpha: COMPOSITE_ALPHA_OPAQUE,
                present_mode,
                clipped: true,
                old_swapchain: match old_swapchain {
                    Some(old) => old@.handle,
                    None => NULL_HANDLE,
                },
            }),
            match old_swapchain {
                Some(old) => final(old)@ == (SwapchainSpec { retired: true, ..old@ }),
                None => true,
            },
    {
        let old_handle = match old_swapchain {
            Some(old) => {
                old.retired = true;
                old.handle
            },
            None => NULL_HANDLE,
        };
        SwapchainCreateInfo {
            flags: 0,
            surface,
            min_image_count,
            image_format,
            image_color_space,
            image_extent,
            image_array_layers: 1,
            image_usage,
            image_sharing_mode: SHARING_MODE_EXCLUSIVE,
            pre_transform: capabilities.current_transform,
            composite_alpha: COMPOSITE_ALPHA_OPAQUE,
            present_mode,
            clipped: true,
            old_swapchain: old_handle,
        }
    }

    /// The swapchain `handle`, whose images are not listed yet.
    pub fn new(handle: u64, format: i32, extent: Extent2D) -> (r: Swapchain)
        ensures
            r@ == (SwapchainSpec { handle, format, extent, images: None, retired: false }),
    {
        Swapchain { handle, format, extent, images: None, retired: false }
    }

    pub fn format(&self) -> (r: i32)
        ensures
            r == self@.format,
    {
        self.format
    }

    pub fn extent(&self) -> (r: Extent2D)
        ensures
            r == self@.extent,
    {
        self.extent
    }

    /// Whether a newer swapchain has taken the place of this one.
    pub fn is_retired(&self) -> (r: bool)
        ensures
            r == self@.retired,
    {
        self.retired
    }

    /// The images of the swapchain, once they were listed.
    pub fn images(&self) -> (r: Option<&Vec<Image>>)
        ensures
            match r {
                Some(v) => self@.images == Some(v@),
                None => self@.images is None,
            },
    {
        match &self.images {
            Some(v) => Some(v),
            None => None,
        }
    }

    /// Keeps the images that the driver listed, unless images are kept
    /// already. There are as many images as the driver says, whatever number
    /// the swapchain was asked for.
    pub fn cache_images(&mut self, handles: &Vec<u64>)
        ensures
            final(self)@ == (SwapchainSpec {
                images: match old(self)@.images {
                    Some(v) => Some(v),
                    None => Some(
                        swapchain_images(handles@, old(self)@.format, old(self)@.extent),
                    ),
                },
                ..old(self)@
            }),
    {
        if self.images.is_some() {
            return ;
        }
        let mut images: Vec<Image> = Vec::new();
        let mut i: usize = 0;
        while i < handles.len()
            invariant
                i <= handles@.len(),
                images@.len() == i,
                forall|j: int|
                    0 <= j < i ==> images@[j] == swapchain_images(
                        handles@,
                        self.format,
                        self.extent,
                    )[j],
            decreases handles.len() - i,
        {
            images.push(
                Image::from_swapchain(handles[i], IMAGE_TYPE_2D, self.format, self.extent.flat()),
            );
            i = i + 1;
        }
        assert(images@ =~= swapchain_images(handles@, self.format, self.extent));
        self.images = Some(images);
    }

    /// The request for the next image, which signals `semaphore` and
    /// `fence` when the image is ready and waits without limit where no
    /// `timeout` is given. A retired swapchain yields no request.
    pub fn acquire_next_image(
        &self,
        timeout: Option<u64>,
        semaphore: Option<u64>,
        fence: Option<u64>,
    ) -> (r: Option<AcquireInfo>)
        ensures
            r == (if self@.retired {
                None
            } else {
                Some(
                    AcquireInfo {
                        swapchain: self@.handle,
                        timeout: match timeout {
                            Some(t) => t,
                            None => NO_TIMEOUT,
                        },
                        semaphore: handle_or_null(semaphore),
                        fence: handle_or_null(fence),
                    },
                )
            }),
    {
        if self.retired {
            return None;
        }
        Some(
            AcquireInfo {
                swapchain: self.handle,
                timeout: match timeout {
                    Some(t) => t,
                    None => NO_TIMEOUT,
                },
                semaphore: match semaphore {
                    Some(s) => s,
                    None => NULL_HANDLE,
                },
                fence: match fence {
                    Some(f) => f,
                    None => NULL_HANDLE,
                },
            },
        )
    }
}

impl HasRawVkHandle<u64> for Swapchain {
    open spec fn raw_handle(&self) -> u64 {
        self@.handle
    }

    fn get_vk_handle(&self) -> u64 {
        self.handle
    }
}

} // verus!
