//! Subpasses under construction, and how one is resolved against the indices
//! of the attachments it names.

use crate::builder::{lookup, BuildError};
use crate::render_pass::{
    AttachmentBuilder, AttachmentReference, AttachmentUse, SubpassDescription,
    SubpassDescriptionSpec, PIPELINE_BIND_POINT_GRAPHICS,
};
use std::collections::HashMap;
use vstd::prelude::*;

verus! {

/// A subpass under construction: the attachments it reads, writes, resolves
/// into and keeps, each named by the id of its builder.
#[derive(Debug)]
pub struct SubpassBuilder {
    id: usize,
    parent_id: usize,
    input: Vec<AttachmentUse>,
    color: Vec<AttachmentUse>,
    resolve: Vec<AttachmentUse>,
    depth_stencil: Option<AttachmentUse>,
    preserve: Vec<usize>,
}

/// What a [`SubpassBuilder`] holds.
pub struct SubpassSpec {
    pub id: usize,
    pub parent_id: usize,
    pub input: Seq<AttachmentUse>,
    pub color: Seq<AttachmentUse>,
    pub resolve: Seq<AttachmentUse>,
    pub depth_stencil: Option<AttachmentUse>,
    pub preserve: Seq<usize>,
}

impl View for SubpassBuilder {
    type V = SubpassSpec;

    closed spec fn view(&self) -> SubpassSpec {
        SubpassSpec {
            id: self.id,
            parent_id: self.parent_id,
            input: self.input@,
            color: self.color@,
            resolve: self.resolve@,
            depth_stencil: self.depth_stencil,
            preserve: self.preserve@,
        }
    }
}

/// Every attachment named in `uses` has an index.
pub open spec fn uses_known(indices: Map<usize, u32>, uses: Seq<AttachmentUse>) -> bool {
    forall|i: int| 0 <= i < uses.len() ==> indices.contains_key((#[trigger] uses[i]).id)
}

/// Every id in `ids` has an index.
pub open spec fn ids_known(indices: Map<usize, u32>, ids: Seq<usize>) -> bool {
    forall|i: int| 0 <= i < ids.len() ==> indices.contains_key(#[trigger] ids[i])
}

/// `uses` with each id replaced by its index.
pub open spec fn resolved_uses(indices: Map<usize, u32>, uses: Seq<AttachmentUse>) -> Seq<
    AttachmentReference,
> {
    Seq::new(
        uses.len(),
        |i: int| AttachmentReference { attachment: indices[uses[i].id], layout: uses[i].layout },
    )
}

/// `ids` with each id replaced by its index.
pub open spec fn resolved_ids(indices: Map<usize, u32>, ids: Seq<usize>) -> Seq<u32> {
    Seq::new(ids.len(), |i: int| indices[ids[i]])
}

/// What keeps a subpass from being resolved, if anything. The input and
/// color lists are looked at first, then the length of the resolve list, then
/// the remaining references.
pub open spec fn subpass_error(indices: Map<usize, u32>, s: SubpassSpec) -> Option<BuildError> {
    if !uses_known(indices, s.input) || !uses_known(indices, s.color) {
        Some(BuildError::DanglingAttachment)
    } else if s.resolve.len() > 0 && s.resolve.len() != s.color.len() {
        Some(BuildError::ResolveCountMismatch)
    } else if !uses_known(indices, s.resolve) {
        Some(BuildError::DanglingAttachment)
    } else if s.depth_stencil is Some && !indices.contains_key(s.depth_stencil->0.id) {
        Some(BuildError::DanglingAttachment)
    } else if !ids_known(indices, s.preserve) {
        Some(BuildError::DanglingAttachment)
    } else {
        None
    }
}

/// The description of a subpass that has no error: a graphics subpass whose
/// lists are those of the builder, every id replaced by its index.
pub open spec fn subpass_resolved(indices: Map<usize, u32>, s: SubpassSpec) -> SubpassDescriptionSpec {
    SubpassDescriptionSpec {
        flags: 0,
        pipeline_bind_point: PIPELINE_BIND_POINT_GRAPHICS,
        input_attachments: resolved_uses(indices, s.input),
        color_attachments: resolved_uses(indices, s.color),
        resolve_attachments: resolved_uses(indices, s.resolve),
        depth_stencil_attachment: match s.depth_stencil {
            Some(u) => Some(AttachmentReference { attachment: indices[u.id], layout: u.layout }),
            None => None,
        },
        preserve_attachments: resolved_ids(indices, s.preserve),
    }
}

/// Replaces each id of `uses` by its index, or gives up at the first id
/// without one.
pub fn resolve_uses(indices: &HashMap<usize, u32>, uses: &Vec<AttachmentUse>) -> (r: Option<
    Vec<AttachmentReference>,
>)
    ensures
        match r {
            Some(v) => uses_known(indices@, uses@) && v@ == resolved_uses(indices@, uses@),
            None => !uses_known(indices@, uses@),
        },
{
    let mut out: Vec<AttachmentReference> = Vec::new();
    let mut i: usize = 0;
    while i < uses.len()
        invariant
            i <= uses.len(),
            out@.len() == i,
            forall|j: int| 0 <= j < i ==> indices@.contains_key((#[trigger] uses@[j]).id),
            forall|j: int|
                0 <= j < i ==> out@[j] == (AttachmentReference {
                    attachment: indices@[uses@[j].id],
                    layout: uses@[j].layout,
                }),
        decreases uses.len() - i,
    {
        let u = uses[i];
        match lookup(indices, u.id) {
            Some(index) => {
                out.push(AttachmentReference { attachment: index, layout: u.layout });
            },
            None => {
                assert(!indices@.contains_key(uses@[i as int].id));
                return None;
            },
        }
        i = i + 1;
    }
    assert(out@ =~= resolved_uses(indices@, uses@));
    Some(out)
}

/// Replaces each of `ids` by its index, or gives up at the first id without
/// one.
pub fn resolve_ids(indices: &HashMap<usize, u32>, ids: &Vec<usize>) -> (r: Option<Vec<u32>>)
    ensures
        match r {
            Some(v) => ids_known(indices@, ids@) && v@ == resolved_ids(indices@, ids@),
            None => !ids_known(indices@, ids@),
        },
{
    let mut out: Vec<u32> = Vec::new();
    let mut i: usize = 0;
    while i < ids.len()
        invariant
            i <= ids.len(),
            out@.len() == i,
            forall|j: int| 0 <= j < i ==> indices@.contains_key(#[trigger] ids@[j]),
            forall|j: int| 0 <= j < i ==> out@[j] == indices@[ids@[j]],
        decreases ids.len() - i,
    {
        match lookup(indices, ids[i]) {
            Some(index) => {
                out.push(index);
            },
            None => {
                assert(!indices@.contains_key(ids@[i as int]));
                return None;
            },
        }
        i = i + 1;
    }
    assert(out@ =~= resolved_ids(indices@, ids@));
    Some(out)
}

impl SubpassBuilder {
    pub fn new(id: usize, parent_id: usize) -> (r: SubpassBuilder)
        ensures
            r@ == (SubpassSpec {
                id,
                parent_id,
                input: Seq::empty(),
                color: Seq::empty(),
                resolve: Seq::empty(),
                depth_stencil: None,
                preserve: Seq::empty(),
            }),
    {
        SubpassBuilder {
            id,
            parent_id,
            input: Vec::new(),
            color: Vec::new(),
            resolve: Vec::new(),
            depth_stencil: None,
            preserve: Vec::new(),
        }
    }

    pub fn id(&self) -> (r: usize)
        ensures
            r == self@.id,
    {
        self.id
    }

    pub fn parent_id(&self) -> (r: usize)
        ensures
            r == self@.parent_id,
    {
        self.parent_id
    }

    pub fn input(self, attachment: &AttachmentBuilder, layout: i32) -> (r: SubpassBuilder)
        ensures
            r@ == (SubpassSpec {
                input: self@.input.push(AttachmentUse { id: attachment@.id, layout }),
                ..self@
            }),
    {
        let mut b = self;
        b.input.push(AttachmentUse { id: attachment.id(), layout });
        b
    }

    pub fn color(self, attachment: &AttachmentBuilder, layout: i32) -> (r: SubpassBuilder)
        ensures
            r@ == (SubpassSpec {
                color: self@.color.push(AttachmentUse { id: attachment@.id, layout }),
                ..self@
            }),
    {
        let mut b = self;
        b.color.push(AttachmentUse { id: attachment.id(), layout });
        b
    }

    pub fn resolve(self, attachment: &AttachmentBuilder, layout: i32) -> (r: SubpassBuilder)
        ensures
            r@ == (SubpassSpec {
                resolve: self@.resolve.push(AttachmentUse { id: attachment@.id, layout }),
                ..self@
            }),
    {
        let mut b = self;
        b.resolve.push(AttachmentUse { id: attachment.id(), layout });
        b
    }

    pub fn depth_stencil(self, attachment: &AttachmentBuilder, layout: i32) -> (r: SubpassBuilder)
        ensures
            r@ == (SubpassSpec {
                depth_stencil: Some(AttachmentUse { id: attachment@.id, layout }),
                ..self@
            }),
    {
        let mut b = self;
        b.depth_stencil = Some(AttachmentUse { id: attachment.id(), layout });
        b
    }

    pub fn preserve(self, attachment: &AttachmentBuilder) -> (r: SubpassBuilder)
        ensures
            r@ == (SubpassSpec { preserve: self@.preserve.push(attachment@.id), ..self@ }),
    {
        let mut b = self;
        b.preserve.push(attachment.id());
        b
    }

    /// Resolves this subpass against the indices of the declared attachments.
    pub fn get_subpass_description(&self, attachment_indices: &HashMap<usize, u32>) -> (r: Result<
        SubpassDescription,
        BuildError,
    >)
        ensures
            match r {
                Ok(d) => subpass_error(attachment_indices@, self@) is None && d@
                    == subpass_resolved(attachment_indices@, self@),
                Err(e) => subpass_error(attachment_indices@, self@) == Some(e),
            },
    {
        let input = match resolve_uses(attachment_indices, &self.input) {
            Some(v) => v,
            None => {
                return Err(BuildError::DanglingAttachment);
            },
        };
        let color = match resolve_uses(attachment_indices, &self.color) {
            Some(v) => v,
            None => {
                return Err(BuildError::DanglingAttachment);
            },
        };
        if self.resolve.len() > 0 && self.resolve.len() != self.color.len() {
            return Err(BuildError::ResolveCountMismatch);
        }
        let resolve = match resolve_uses(attachment_indices, &self.resolve) {
            Some(v) => v,
            None => {
                return Err(BuildError::DanglingAttachment);
            },
        };
        let depth_stencil = match self.depth_stencil {
            Some(u) => match lookup(attachment_indices, u.id) {
                Some(index) => Some(AttachmentReference { attachment: index, layout: u.layout }),
                None => {
                    return Err(BuildError::DanglingAttachment);
                },
            },
            None => None,
        };
        let preserve = match resolve_ids(attachment_indices, &self.preserve) {
            Some(v) => v,
            None => {
                return Err(BuildError::DanglingAttachment);
            },
        };
        Ok(
            SubpassDescription {
                flags: 0,
                pipeline_bind_point: PIPELINE_BIND_POINT_GRAPHICS,
                input_attachments: input,
                color_attachments: color,
                resolve_attachments: resolve,
                depth_stencil_attachment: depth_stencil,
                preserve_attachments: preserve,
            },
        )
    }
}

} // verus!
