//! Dependencies between subpasses under construction, and how one is resolved
//! against the indices of the subpasses it names.

use crate::builder::{lookup, BuildError};
use crate::render_pass::{SubpassDependency, SubpassRef, SUBPASS_EXTERNAL};
use crate::subpass::SubpassBuilder;
use std::collections::HashMap;
use vstd::prelude::*;

verus! {

/// A dependency under construction. What was never set resolves to zero.
#[derive(Clone, Copy, Debug)]
pub struct DependencyBuilder {
    id: usize,
    parent_id: usize,
    src_subpass: Option<SubpassRef>,
    dst_subpass: Option<SubpassRef>,
    src_stage_mask: Option<u32>,
    dst_stage_mask: Option<u32>,
    src_access_mask: Option<u32>,
    dst_access_mask: Option<u32>,
    flags: Option<u32>,
}

/// What a [`DependencyBuilder`] holds.
pub struct DependencySpec {
    pub id: usize,
    pub parent_id: usize,
    pub src_subpass: Option<SubpassRef>,
    pub dst_subpass: Option<SubpassRef>,
    pub src_stage_mask: Option<u32>,
    pub dst_stage_mask: Option<u32>,
    pub src_access_mask: Option<u32>,
    pub dst_access_mask: Option<u32>,
    pub flags: Option<u32>,
}

impl View for DependencyBuilder {
    type V = DependencySpec;

    closed spec fn view(&self) -> DependencySpec {
        DependencySpec {
            id: self.id,
            parent_id: self.parent_id,
            src_subpass: self.src_subpass,
            dst_subpass: self.dst_subpass,
            src_stage_mask: self.src_stage_mask,
            dst_stage_mask: self.dst_stage_mask,
            src_access_mask: self.src_access_mask,
            dst_access_mask: self.dst_access_mask,
            flags: self.flags,
        }
    }
}

/// One end of a dependency names a subpass without an index.
pub open spec fn end_dangles(indices: Map<usize, u32>, end: Option<SubpassRef>) -> bool {
    match end {
        Some(SubpassRef::Subpass(id)) => !indices.contains_key(id),
        _ => false,
    }
}

/// The subpass index that one end of a dependency resolves to: the index of
/// the subpass it names, the external marker, or zero where it was never set.
pub open spec fn end_resolved(indices: Map<usize, u32>, end: Option<SubpassRef>) -> u32 {
    match end {
        Some(SubpassRef::Subpass(id)) => indices[id],
        Some(SubpassRef::External) => SUBPASS_EXTERNAL,
        None => 0,
    }
}

/// A mask as set, or zero.
pub open spec fn mask_or_zero(mask: Option<u32>) -> u32 {
    match mask {
        Some(m) => m,
        None => 0,
    }
}

/// What keeps a dependency from being resolved, if anything.
pub open spec fn dependency_error(indices: Map<usize, u32>, d: DependencySpec) -> Option<
    BuildError,
> {
    if end_dangles(indices, d.src_subpass) || end_dangles(indices, d.dst_subpass) {
        Some(BuildError::DanglingSubpass)
    } else {
        None
    }
}

/// The resolved form of a dependency that has no error.
pub open spec fn dependency_resolved(indices: Map<usize, u32>, d: DependencySpec) -> SubpassDependency {
    SubpassDependency {
        src_subpass: end_resolved(indices, d.src_subpass),
        dst_subpass: end_resolved(indices, d.dst_subpass),
        src_stage_mask: mask_or_zero(d.src_stage_mask),
        dst_stage_mask: mask_or_zero(d.dst_stage_mask),
        src_access_mask: mask_or_zero(d.src_access_mask),
        dst_access_mask: mask_or_zero(d.dst_access_mask),
        dependency_flags: mask_or_zero(d.flags),
    }
}

/// Resolves one end of a dependency.
pub fn resolve_end(indices: &HashMap<usize, u32>, end: Option<SubpassRef>) -> (r: Option<u32>)
    ensures
        r == (if end_dangles(indices@, end) {
            None
        } else {
            Some(end_resolved(indices@, end))
        }),
{
    match end {
        Some(SubpassRef::Subpass(id)) => lookup(indices, id),
        Some(SubpassRef::External) => Some(SUBPASS_EXTERNAL),
        None => Some(0),
    }
}

/// A mask as set, or zero.
pub fn unwrap_mask(mask: Option<u32>) -> (r: u32)
    ensures
        r == mask_or_zero(mask),
{
    match mask {
        Some(m) => m,
        None => 0,
    }
}

impl DependencyBuilder {
    pub fn new(id: usize, parent_id: usize) -> (r: DependencyBuilder)
        ensures
            r@ == (DependencySpec {
                id,
                parent_id,
                src_subpass: None,
                dst_subpass: None,
                src_stage_mask: None,
                dst_stage_mask: None,
                src_access_mask: None,
                dst_access_mask: None,
                flags: None,
            }),
    {
        DependencyBuilder {
            id,
            parent_id,
            src_subpass: None,
            dst_subpass: None,
            src_stage_mask: None,
            dst_stage_mask: None,
            src_access_mask: None,
            dst_access_mask: None,
            flags: None,
        }
    }

    pub fn id(&self) -> (r: usize)
        ensures
            r == self@.id,
    {
        self.id
    }

    pub fn parent_id(&self) -> (r: usize)
        ensures
            r == self@.parent_id,
    {
        self.parent_id
    }

    pub fn src(self, subpass: &SubpassBuilder) -> (r: DependencyBuilder)
        ensures
            r@ == (DependencySpec {
                src_subpass: Some(SubpassRef::Subpass(subpass@.id)),
                ..self@
            }),
    {
        let mut b = self;
        b.src_subpass = Some(SubpassRef::Subpass(subpass.id()));
        b
    }

    pub fn src_external(self) -> (r: DependencyBuilder)
        ensures
            r@ == (DependencySpec { src_subpass: Some(SubpassRef::External), ..self@ }),
    {
        let mut b = self;
        b.src_subpass = Some(SubpassRef::External);
        b
    }

    pub fn dst(self, subpass: &SubpassBuilder) -> (r: DependencyBuilder)
        ensures
            r@ == (DependencySpec {
                dst_subpass: Some(SubpassRef::Subpass(subpass@.id)),
                ..self@
            }),
    {
        let mut b = self;
        b.dst_subpass = Some(SubpassRef::Subpass(subpass.id()));
        b
    }

    pub fn dst_external(self) -> (r: DependencyBuilder)
        ensures
            r@ == (DependencySpec { dst_subpass: Some(SubpassRef::External), ..self@ }),
    {
        let mut b = self;
        b.dst_subpass = Some(SubpassRef::External);
        b
    }

    pub fn src_stage_mask(self, mask: u32) -> (r: DependencyBuilder)
        ensures
            r@ == (DependencySpec { src_stage_mask: Some(mask), ..self@ }),
    {
        let mut b = self;
        b.src_stage_mask = Some(mask);
        b
    }

    pub fn dst_stage_mask(self, mask: u32) -> (r: DependencyBuilder)
        ensures
            r@ == (DependencySpec { dst_stage_mask: Some(mask), ..self@ }),
    {
        let mut b = self;
        b.dst_stage_mask = Some(mask);
        b
    }

    pub fn src_access_mask(self, mask: u32) -> (r: DependencyBuilder)
        ensures
            r@ == (DependencySpec { src_access_mask: Some(mask), ..self@ }),
    {
        let mut b = self;
        b.src_access_mask = Some(mask);
        b
    }

    pub fn dst_access_mask(self, mask: u32) -> (r: DependencyBuilder)
        ensures
            r@ == (DependencySpec { dst_access_mask: Some(mask), ..self@ }),
    {
        let mut b = self;
        b.dst_access_mask = Some(mask);
        b
    }

    pub fn flags(self, mask: u32) -> (r: DependencyBuilder)
        ensures
            r@ == (DependencySpec { flags: Some(mask), ..self@ }),
    {
        let mut b = self;
        b.flags = Some(mask);
        b
    }

    /// Resolves this dependency against the indices of the declared
    /// subpasses.
    pub fn get_subpass_dependency(&self, subpass_indices: &HashMap<usize, u32>) -> (r: Result<
        SubpassDependency,
        BuildError,
    >)
        ensures
            match r {
                Ok(d) => dependency_error(subpass_indices@, self@) is None && d
                    == dependency_resolved(subpass_indices@, self@),
                Err(e) => dependency_error(subpass_indices@, self@) == Some(e),
            },
    {
        let src = match resolve_end(subpass_indices, self.src_subpass) {
            Some(index) => index,
            None => {
                return Err(BuildError::DanglingSubpass);
            },
        };
        let dst = match resolve_end(subpass_indices, self.dst_subpass) {
            Some(index) => index,
            None => {
                return Err(BuildError::DanglingSubpass);
            },
        };
        Ok(
            SubpassDependency {
                src_subpass: src,
                dst_subpass: dst,
                src_stage_mask: unwrap_mask(self.src_stage_mask),
                dst_stage_mask: unwrap_mask(self.dst_stage_mask),
                src_access_mask: unwrap_mask(self.src_access_mask),
                dst_access_mask: unwrap_mask(self.dst_access_mask),
                dependency_flags: unwrap_mask(self.flags),
            },
        )
    }
}

} // verus!
