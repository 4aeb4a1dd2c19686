//! Render passes: attachments, subpasses and dependencies are declared
//! loosely, each tagged with an id of its builder, and resolved into one
//! index-based description when the builder is asked to build.

use crate::builder::BuilderIds;
use crate::dependency::{DependencyBuilder, DependencySpec};
use crate::subpass::{SubpassBuilder, SubpassSpec};
use vstd::prelude::*;

verus! {

/// The subpass index that stands for "outside the render pass".
pub const SUBPASS_EXTERNAL: u32 = 0xFFFF_FFFF;

/// The bind point of graphics pipelines.
pub const PIPELINE_BIND_POINT_GRAPHICS: i32 = 0;

/// A created render pass: its native handle and the number of attachments
/// that framebuffers and pipelines made for it must match.
#[derive(Clone, Copy, Debug, PartialEq, Eq, Structural)]
pub struct RenderPass {
    pub handle: u64,
    pub attachment_count: u32,
}

impl RenderPass {
    pub fn new(handle: u64, attachment_count: u32) -> (r: RenderPass)
        ensures
            r.handle == handle,
            r.attachment_count == attachment_count,
    {
        RenderPass { handle, attachment_count }
    }

    /// A builder of render passes, with an identity of its own from `ids`.
    pub fn builder(ids: &mut BuilderIds) -> (r: RenderPassBuilder)
        requires
            old(ids).spec_next() < usize::MAX,
        ensures
            r.spec_id() == old(ids).spec_next(),
            r.spec_next_id() == 0,
            final(ids).spec_next() == old(ids).spec_next() + 1,
    {
        RenderPassBuilder::new(ids)
    }

    pub fn attachment_count(&self) -> (r: u32)
        ensures
            r == self.attachment_count,
    {
        self.attachment_count
    }
}

/// How one attachment is loaded, stored and laid out; every field is the raw
/// value of the native enumeration or mask.
#[derive(Clone, Copy, Debug, PartialEq, Eq, Structural)]
pub struct AttachmentDescription {
    pub flags: u32,
    pub format: i32,
    pub samples: u32,
    pub load_op: i32,
    pub store_op: i32,
    pub stencil_load_op: i32,
    pub stencil_store_op: i32,
    pub initial_layout: i32,
    pub final_layout: i32,
}

/// The description that a fresh attachment starts from: every field zero.
pub open spec fn blank_attachment() -> AttachmentDescription {
    AttachmentDescription {
        flags: 0,
        format: 0,
        samples: 0,
        load_op: 0,
        store_op: 0,
        stencil_load_op: 0,
        stencil_store_op: 0,
        initial_layout: 0,
        final_layout: 0,
    }
}

/// An attachment as a subpass names it: by the id its builder gave it.
#[derive(Clone, Copy, Debug, PartialEq, Eq, Structural)]
pub struct AttachmentUse {
    pub id: usize,
    pub layout: i32,
}

/// An attachment as the description names it: by its index.
#[derive(Clone, Copy, Debug, PartialEq, Eq, Structural)]
pub struct AttachmentReference {
    pub attachment: u32,
    pub layout: i32,
}

/// One end of a dependency: a declared subpass, or whatever runs outside the
/// render pass.
#[derive(Clone, Copy, Debug, PartialEq, Eq, Structural)]
pub enum SubpassRef {
    Subpass(usize),
    External,
}

/// A resolved dependency between two subpasses.
#[derive(Clone, Copy, Debug, PartialEq, Eq, Structural)]
pub struct SubpassDependency {
    pub src_subpass: u32,
    pub dst_subpass: u32,
    pub src_stage_mask: u32,
    pub dst_stage_mask: u32,
    pub src_access_mask: u32,
    pub dst_access_mask: u32,
    pub dependency_flags: u32,
}

/// A resolved subpass. The counts of the native structure are the lengths of
/// the lists; an empty list stands for an absent one.
#[derive(Debug)]
pub struct SubpassDescription {
    pub flags: u32,
    pub pipeline_bind_point: i32,
    pub input_attachments: Vec<AttachmentReference>,
    pub color_attachments: Vec<AttachmentReference>,
    pub resolve_attachments: Vec<AttachmentReference>,
    pub depth_stencil_attachment: Option<AttachmentReference>,
    pub preserve_attachments: Vec<u32>,
}

/// What a [`SubpassDescription`] holds.
pub struct SubpassDescriptionSpec {
    pub flags: u32,
    pub pipeline_bind_point: i32,
    pub input_attachments: Seq<AttachmentReference>,
    pub color_attachments: Seq<AttachmentReference>,
    pub resolve_attachments: Seq<AttachmentReference>,
    pub depth_stencil_attachment: Option<AttachmentReference>,
    pub preserve_attachments: Seq<u32>,
}

impl View for SubpassDescription {
    type V = SubpassDescriptionSpec;

    open spec fn view(&self) -> SubpassDescriptionSpec {
        SubpassDescriptionSpec {
            flags: self.flags,
            pipeline_bind_point: self.pipeline_bind_point,
            input_attachments: self.input_attachments@,
            color_attachments: self.color_attachments@,
            resolve_attachments: self.resolve_attachments@,
            depth_stencil_attachment: self.depth_stencil_attachment,
            preserve_attachments: self.preserve_attachments@,
        }
    }
}

/// The resolved render pass, ready to be handed to the device.
#[derive(Debug)]
pub struct RenderPassDescription {
    pub attachments: Vec<AttachmentDescription>,
    pub subpasses: Vec<SubpassDescription>,
    pub dependencies: Vec<SubpassDependency>,
}

/// What a [`RenderPassDescription`] holds.
pub struct RenderPassDescriptionSpec {
    pub attachments: Seq<AttachmentDescription>,
    pub subpasses: Seq<SubpassDescriptionSpec>,
    pub dependencies: Seq<SubpassDependency>,
}

impl View for RenderPassDescription {
    type V = RenderPassDescriptionSpec;

    open spec fn view(&self) -> RenderPassDescriptionSpec {
        RenderPassDescriptionSpec {
            attachments: self.attachments@,
            subpasses: Seq::new(self.subpasses@.len(), |i: int| self.subpasses@[i]@),
            dependencies: self.dependencies@,
        }
    }
}

impl RenderPassDescription {
    /// The number of attachments, as framebuffers and pipelines need it.
    pub fn attachment_count(&self) -> (r: usize)
        ensures
            r == self@.attachments.len(),
    {
        self.attachments.len()
    }
}

/// An attachment under construction.
#[derive(Clone, Copy, Debug)]
pub struct AttachmentBuilder {
    id: usize,
    parent_id: usize,
    description: AttachmentDescription,
}

/// What an [`AttachmentBuilder`] holds.
pub struct AttachmentSpec {
    pub id: usize,
    pub parent_id: usize,
    pub description: AttachmentDescription,
}

impl View for AttachmentBuilder {
    type V = AttachmentSpec;

    closed spec fn view(&self) -> AttachmentSpec {
        AttachmentSpec { id: self.id, parent_id: self.parent_id, description: self.description }
    }
}

impl AttachmentBuilder {
    pub fn new(id: usize, parent_id: usize) -> (r: AttachmentBuilder)
        ensures
            r@.id == id,
            r@.parent_id == parent_id,
            r@.description == blank_attachment(),
    {
        AttachmentBuilder {
            id,
            parent_id,
            description: AttachmentDescription {
                flags: 0,
                format: 0,
                samples: 0,
                load_op: 0,
                store_op: 0,
                stencil_load_op: 0,
                stencil_store_op: 0,
                initial_layout: 0,
                final_layout: 0,
            },
        }
    }

    pub fn parent_id(&self) -> (r: usize)
        ensures
            r == self@.parent_id,
    {
        self.parent_id
    }

    pub fn id(&self) -> (r: usize)
        ensures
            r == self@.id,
    {
        self.id
    }

    pub fn format(self, format: i32) -> (r: AttachmentBuilder)
        ensures
            r@ == (AttachmentSpec {
                description: AttachmentDescription { format, ..self@.description },
                ..self@
            }),
    {
        let mut b = self;
        b.description.format = format;
        b
    }

    pub fn samples(self, samples: u32) -> (r: AttachmentBuilder)
        ensures
            r@ == (AttachmentSpec {
                description: AttachmentDescription { samples, ..self@.description },
                ..self@
            }),
    {
        let mut b = self;
        b.description.samples = samples;
        b
    }

    pub fn load_op(self, load_op: i32) -> (r: AttachmentBuilder)
        ensures
            r@ == (AttachmentSpec {
                description: AttachmentDescription { load_op, ..self@.description },
                ..self@
            }),
    {
        let mut b = self;
        b.description.load_op = load_op;
        b
    }

    pub fn store_op(self, store_op: i32) -> (r: AttachmentBuilder)
        ensures
            r@ == (AttachmentSpec {
                description: AttachmentDescription { store_op, ..self@.description },
                ..self@
            }),
    {
        let mut b = self;
        b.description.store_op = store_op;
        b
    }

    pub fn stencil_load_op(self, stencil_load_op: i32) -> (r: AttachmentBuilder)
        ensures
            r@ == (AttachmentSpec {
                description: AttachmentDescription { stencil_load_op, ..self@.description },
                ..self@
            }),
    {
        let mut b = self;
        b.description.stencil_load_op = stencil_load_op;
        b
    }

    pub fn stencil_store_op(self, stencil_store_op: i32) -> (r: AttachmentBuilder)
        ensures
            r@ == (AttachmentSpec {
                description: AttachmentDescription { stencil_store_op, ..self@.description },
                ..self@
            }),
    {
        let mut b = self;
        b.description.stencil_store_op = stencil_store_op;
        b
    }

    pub fn initial_layout(self, initial_layout: i32) -> (r: AttachmentBuilder)
        ensures
            r@ == (AttachmentSpec {
                description: AttachmentDescription { initial_layout, ..self@.description },
                ..self@
            }),
    {
        let mut b = self;
        b.description.initial_layout = initial_layout;
        b
    }

    pub fn final_layout(self, final_layout: i32) -> (r: AttachmentBuilder)
        ensures
            r@ == (AttachmentSpec {
                description: AttachmentDescription { final_layout, ..self@.description },
                ..self@
            }),
    {
        let mut b = self;
        b.description.final_layout = final_layout;
        b
    }

    pub fn attachment_description(&self) -> (r: AttachmentDescription)
        ensures
            r == self@.description,
    {
        self.description
    }
}

/// Mints the ids of a render pass's parts and resolves them when asked to
/// build.
#[derive(Debug)]
pub struct RenderPassBuilder {
    id: usize,
    next_id: usize,
}

impl RenderPassBuilder {
    /// The identity of this builder, which every part it mints carries.
    pub closed spec fn spec_id(&self) -> usize {
        self.id
    }

    /// The id that the next part will be given.
    pub closed spec fn spec_next_id(&self) -> usize {
        self.next_id
    }

    /// A builder that has minted nothing yet. Its identity is the next one
    /// of `ids`, which no builder issued from `ids` before or after shares.
    pub fn new(ids: &mut BuilderIds) -> (r: RenderPassBuilder)
        requires
            old(ids).spec_next() < usize::MAX,
        ensures
            r.spec_id() == old(ids).spec_next(),
            r.spec_next_id() == 0,
            final(ids).spec_next() == old(ids).spec_next() + 1,
    {
        let id = ids.issue();
        RenderPassBuilder { id, next_id: 0 }
    }

    pub fn id(&self) -> (r: usize)
        ensures
            r == self.spec_id(),
    {
        self.id
    }

    /// The id that the next part will be given.
    pub fn next_id(&self) -> (r: usize)
        ensures
            r == self.spec_next_id(),
    {
        self.next_id
    }

    pub fn _get_next_id(&mut self) -> (r: usize)
        requires
            old(self).spec_next_id() < usize::MAX,
        ensures
            r == old(self).spec_next_id(),
            final(self).spec_next_id() == r + 1,
            final(self).spec_id() == old(self).spec_id(),
    {
        let id = self.next_id;
        self.next_id = self.next_id + 1;
        id
    }

    pub fn attachment(&mut self) -> (r: AttachmentBuilder)
        requires
            old(self).spec_next_id() < usize::MAX,
        ensures
            r@.id == old(self).spec_next_id(),
            r@.parent_id == old(self).spec_id(),
            r@.description == blank_attachment(),
            final(self).spec_next_id() == old(self).spec_next_id() + 1,
            final(self).spec_id() == old(self).spec_id(),
    {
        let id = self._get_next_id();
        AttachmentBuilder::new(id, self.id)
    }

    pub fn subpass(&mut self) -> (r: SubpassBuilder)
        requires
            old(self).spec_next_id() < usize::MAX,
        ensures
            r@ == (SubpassSpec {
                id: old(self).spec_next_id(),
                parent_id: old(self).spec_id(),
                input: Seq::empty(),
                color: Seq::empty(),
                resolve: Seq::empty(),
                depth_stencil: None,
                preserve: Seq::empty(),
            }),
            final(self).spec_next_id() == old(self).spec_next_id() + 1,
            final(self).spec_id() == old(self).spec_id(),
    {
        let id = self._get_next_id();
        SubpassBuilder::new(id, self.id)
    }

    pub fn dependency(&mut self) -> (r: DependencyBuilder)
        requires
            old(self).spec_next_id() < usize::MAX,
        ensures
            r@ == (DependencySpec {
                id: old(self).spec_next_id(),
                parent_id: old(self).spec_id(),
                src_subpass: None,
                dst_subpass: None,
                src_stage_mask: None,
                dst_stage_mask: None,
                src_access_mask: None,
                dst_access_mask: None,
                flags: None,
            }),
            final(self).spec_next_id() == old(self).spec_next_id() + 1,
            final(self).spec_id() == old(self).spec_id(),
    {
        let id = self._get_next_id();
        DependencyBuilder::new(id, self.id)
    }
}

} // verus!
