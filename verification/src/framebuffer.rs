//! Framebuffers: the image views that a render pass renders into.

use crate::image_view::ImageView;
use crate::raw_handle::HasRawVkHandle;
use crate::render_pass::RenderPass;
use vstd::prelude::*;

verus! {

/// What a framebuffer is created from.
#[derive(Debug)]
pub struct FramebufferCreateInfo {
    pub flags: u32,
    pub render_pass: u64,
    pub attachments: Vec<u64>,
    pub width: u32,
    pub height: u32,
    pub layers: u32,
}

/// Why a framebuffer cannot be created from what was asked for.
#[derive(Clone, Copy, Debug, PartialEq, Eq, Structural)]
pub enum FramebufferError {
    /// There is not one image view for each attachment of the render pass.
    AttachmentCountMismatch { expected: u32, given: usize },
}

/// A created framebuffer, which keeps its render pass and its image views
/// alive.
#[derive(Debug)]
pub struct Framebuffer {
    pub handle: u64,
    pub render_pass: RenderPass,
    pub image_views: Vec<ImageView>,
}

/// The handles of `views`.
pub open spec fn view_handles(views: Seq<ImageView>) -> Seq<u64> {
    Seq::new(views.len(), |i: int| views[i].handle)
}

impl Framebuffer {
    /// What to create a framebuffer for `render_pass` from. Fails unless
    /// there is one image view for each attachment of the render pass.
    pub fn create_info(
        render_pass: &RenderPass,
        image_views: &Vec<ImageView>,
        width: u32,
        height: u32,
        layers: u32,
    ) -> (r: Result<FramebufferCreateInfo, FramebufferError>)
        ensures
            match r {
                Ok(info) => {
                    &&& image_views@.len() == render_pass.attachment_count
                    &&& info.flags == 0
                    &&& info.render_pass == render_pass.handle
                    &&& info.attachments@ == view_handles(image_views@)
                    &&& info.width == width
                    &&& info.height == height
                    &&& info.layers == layers
                },
                Err(e) => image_views@.len() != render_pass.attachment_count && e
                    == (FramebufferError::AttachmentCountMismatch {
                    expected: render_pass.attachment_count,
                    given: image_views@.len() as usize,
                }),
            },
    {
        if image_views.len() != render_pass.attachment_count() as usize {
            return Err(
                FramebufferError::AttachmentCountMismatch {
                    expected: render_pass.attachment_count(),
                    given: image_views.len(),
                },
            );
        }
        let mut attachments: Vec<u64> = Vec::new();
        let mut i: usize = 0;
        while i < image_views.len()
            invariant
                i <= image_views@.len(),
                attachments@.len() == i,
                forall|j: int| 0 <= j < i ==> attachments@[j] == image_views@[j].handle,
            decreases image_views.len() - i,
        {
            attachments.push(image_views[i].get_vk_handle());
            i = i + 1;
        }
        assert(attachments@ =~= view_handles(image_views@));
        Ok(
            FramebufferCreateInfo {
                flags: 0,
                render_pass: render_pass.handle,
                attachments,
                width,
                height,
                layers,
            },
        )
    }

    pub fn new(handle: u64, render_pass: RenderPass, image_views: Vec<ImageView>) -> (r:
        Framebuffer)
        ensures
            r.handle == handle,
            r.render_pass == render_pass,
            r.image_views@ == image_views@,
    {
        Framebuffer { handle, render_pass, image_views }
    }

    pub fn render_pass(&self) -> (r: RenderPass)
        ensures
            r == self.render_pass,
    {
        self.render_pass
    }
}

impl HasRawVkHandle<u64> for Framebuffer {
    open spec fn raw_handle(&self) -> u64 {
        self.handle
    }

    fn get_vk_handle(&self) -> u64 {
        self.handle
    }
}

} // verus!
