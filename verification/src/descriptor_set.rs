//! Descriptor pools, sets and set layouts. A layout is assembled from
//! bindings that its builder minted; the position of a binding in the list
//! handed to `build` becomes its binding number.

use crate::buffer::Buffer;
use crate::builder::{
    first_error, index_map, indexes_prefix, lemma_first_error_at, lemma_first_error_none,
    lemma_indexes_all, lookup, part_error, BuildError, BuilderIds,
};
use crate::raw_handle::HasRawVkHandle;
use std::collections::HashMap;
use vstd::prelude::*;

verus! {

/// How many descriptors of one type a pool holds.
#[derive(Clone, Copy, Debug, PartialEq, Eq, Structural)]
pub struct DescriptorPoolSize {
    pub ty: i32,
    pub descriptor_count: u32,
}

/// What a descriptor pool is created from.
#[derive(Debug)]
pub struct DescriptorPoolCreateInfo {
    pub flags: u32,
    pub max_sets: u32,
    pub pool_sizes: Vec<DescriptorPoolSize>,
}

/// What descriptor sets are allocated from: the pool and one layout per set.
#[derive(Debug)]
pub struct DescriptorSetAllocateInfo {
    pub descriptor_pool: u64,
    pub set_layouts: Vec<u64>,
}

/// The part of a buffer that a descriptor makes visible.
#[derive(Clone, Copy, Debug, PartialEq, Eq, Structural)]
pub struct DescriptorBufferInfo {
    pub buffer: u64,
    pub offset: u64,
    pub range: u64,
}

/// One write of a buffer into a descriptor set.
#[derive(Clone, Copy, Debug, PartialEq, Eq, Structural)]
pub struct WriteDescriptorSet {
    pub dst_set: u64,
    pub dst_binding: u32,
    pub dst_array_element: u32,
    pub descriptor_count: u32,
    pub descriptor_type: i32,
    pub buffer_info: DescriptorBufferInfo,
}

/// A created descriptor pool.
#[derive(Clone, Copy, Debug, PartialEq, Eq, Structural)]
pub struct DescriptorPool {
    pub handle: u64,
}

impl DescriptorPool {
    pub fn new(handle: u64) -> (r: DescriptorPool)
        ensures
            r.handle == handle,
    {
        DescriptorPool { handle }
    }

    /// What to create a pool from that holds up to `max_sets` sets and, for
    /// each pair of `set_types`, that many descriptors of that type.
    pub fn create_info(flags: u32, max_sets: u32, set_types: &Vec<(i32, u32)>) -> (r:
        DescriptorPoolCreateInfo)
        ensures
            r.flags == flags,
            r.max_sets == max_sets,
            r.pool_sizes@.len() == set_types@.len(),
            forall|i: int|
                0 <= i < set_types@.len() ==> r.pool_sizes@[i] == (DescriptorPoolSize {
                    ty: set_types@[i].0,
                    descriptor_count: set_types@[i].1,
                }),
    {
        let mut pool_sizes: Vec<DescriptorPoolSize> = Vec::new();
        let mut i: usize = 0;
        while i < set_types.len()
            invariant
                i <= set_types.len(),
                pool_sizes@.len() == i,
                forall|j: int|
                    0 <= j < i ==> pool_sizes@[j] == (DescriptorPoolSize {
                        ty: set_types@[j].0,
                        descriptor_count: set_types@[j].1,
                    }),
            decreases set_types.len() - i,
        {
            let pair = set_types[i];
            pool_sizes.push(DescriptorPoolSize { ty: pair.0, descriptor_count: pair.1 });
            i = i + 1;
        }
        DescriptorPoolCreateInfo { flags, max_sets, pool_sizes }
    }

    /// What to allocate one set per layout of `set_layouts` from.
    pub fn allocate(&self, set_layouts: &Vec<DescriptorSetLayout>) -> (r: DescriptorSetAllocateInfo)
        ensures
            r.descriptor_pool == self.handle,
            r.set_layouts@.len() == set_layouts@.len(),
            forall|i: int|
                0 <= i < set_layouts@.len() ==> r.set_layouts@[i] == set_layouts@[i].handle,
    {
        let mut handles: Vec<u64> = Vec::new();
        let mut i: usize = 0;
        while i < set_layouts.len()
            invariant
                i <= set_layouts.len(),
                handles@.len() == i,
                forall|j: int| 0 <= j < i ==> handles@[j] == set_layouts@[j].handle,
            decreases set_layouts.len() - i,
        {
            handles.push(set_layouts[i].get_vk_handle());
            i = i + 1;
        }
        DescriptorSetAllocateInfo { descriptor_pool: self.handle, set_layouts: handles }
    }
}

impl HasRawVkHandle<u64> for DescriptorPool {
    open spec fn raw_handle(&self) -> u64 {
        self.handle
    }

    fn get_vk_handle(&self) -> u64 {
        self.handle
    }
}

/// An allocated descriptor set.
#[derive(Clone, Copy, Debug, PartialEq, Eq, Structural)]
pub struct DescriptorSet {
    pub handle: u64,
}

impl DescriptorSet {
    pub fn new(handle: u64) -> (r: DescriptorSet)
        ensures
            r.handle == handle,
    {
        DescriptorSet { handle }
    }

    /// The write that makes `range` bytes of `buffer` from `offset` on
    /// visible as element `element` of binding `binding`.
    pub fn write_buffer(
        &self,
        buffer: &Buffer,
        offset: u64,
        range: u64,
        binding: u32,
        element: u32,
        ty: i32,
    ) -> (r: WriteDescriptorSet)
        ensures
            r == (WriteDescriptorSet {
                dst_set: self.handle,
                dst_binding: binding,
                dst_array_element: element,
                descriptor_count: 1,
                descriptor_type: ty,
                buffer_info: DescriptorBufferInfo { buffer: buffer.raw_handle(), offset, range },
            }),
    {
        WriteDescriptorSet {
            dst_set: self.handle,
            dst_binding: binding,
            dst_array_element: element,
            descriptor_count: 1,
            descriptor_type: ty,
            buffer_info: DescriptorBufferInfo { buffer: buffer.get_vk_handle(), offset, range },
        }
    }
}

impl HasRawVkHandle<u64> for DescriptorSet {
    open spec fn raw_handle(&self) -> u64 {
        self.handle
    }

    fn get_vk_handle(&self) -> u64 {
        self.handle
    }
}

/// A created descriptor set layout.
#[derive(Clone, Copy, Debug, PartialEq, Eq, Structural)]
pub struct DescriptorSetLayout {
    pub handle: u64,
}

impl DescriptorSetLayout {
    /// A builder of layouts, with an identity of its own from `ids`.
    pub fn builder(ids: &mut BuilderIds) -> (r: DescriptorSetLayoutBuilder)
        requires
            old(ids).spec_next() < usize::MAX,
        ensures
            r.spec_id() == old(ids).spec_next(),
            r.spec_next_id() == 0,
            final(ids).spec_next() == old(ids).spec_next() + 1,
    {
        DescriptorSetLayoutBuilder::new(ids)
    }

    pub fn new(handle: u64) -> (r: DescriptorSetLayout)
        ensures
            r.handle == handle,
    {
        DescriptorSetLayout { handle }
    }
}

impl HasRawVkHandle<u64> for DescriptorSetLayout {
    open spec fn raw_handle(&self) -> u64 {
        self.handle
    }

    fn get_vk_handle(&self) -> u64 {
        self.handle
    }
}

/// One resolved binding of a layout.
#[derive(Clone, Copy, Debug, PartialEq, Eq, Structural)]
pub struct DescriptorSetLayoutBinding {
    pub binding: u32,
    pub descriptor_type: i32,
    pub descriptor_count: u32,
    pub stage_flags: u32,
}

/// What a descriptor set layout is created from.
#[derive(Debug)]
pub struct DescriptorSetLayoutCreateInfo {
    pub flags: u32,
    pub bindings: Vec<DescriptorSetLayoutBinding>,
}

/// A binding under construction.
#[derive(Clone, Copy, Debug)]
pub struct DescriptorSetLayoutBindingBuilder {
    pub id: usize,
    pub parent_id: usize,
    pub count_and_type: Option<(u32, i32)>,
    pub shader_stage: Option<u32>,
}

/// What keeps a binding from being resolved, if anything.
pub open spec fn binding_error(
    indices: Map<usize, u32>,
    b: DescriptorSetLayoutBindingBuilder,
) -> Option<BuildError> {
    if b.count_and_type is None {
        Some(BuildError::MissingDescriptor)
    } else if b.shader_stage is None {
        Some(BuildError::MissingStage)
    } else if !indices.contains_key(b.id) {
        Some(BuildError::DanglingBinding)
    } else {
        None
    }
}

/// The resolved form of a binding that has no error.
pub open spec fn binding_resolved(
    indices: Map<usize, u32>,
    b: DescriptorSetLayoutBindingBuilder,
) -> DescriptorSetLayoutBinding {
    DescriptorSetLayoutBinding {
        binding: indices[b.id],
        descriptor_type: match b.count_and_type {
            Some(pair) => pair.1,
            None => 0,
        },
        descriptor_count: match b.count_and_type {
            Some(pair) => pair.0,
            None => 0,
        },
        stage_flags: b.shader_stage->0,
    }
}

impl DescriptorSetLayoutBindingBuilder {
    pub fn new(id: usize, parent_id: usize) -> (r: DescriptorSetLayoutBindingBuilder)
        ensures
            r == (DescriptorSetLayoutBindingBuilder {
                id,
                parent_id,
                count_and_type: None,
                shader_stage: None,
            }),
    {
        DescriptorSetLayoutBindingBuilder { id, parent_id, count_and_type: None, shader_stage: None }
    }

    pub fn id(&self) -> (r: usize)
        ensures
            r == self.id,
    {
        self.id
    }

    pub fn parent_id(&self) -> (r: usize)
        ensures
            r == self.parent_id,
    {
        self.parent_id
    }

    pub fn descriptor(self, count: u32, ty: i32) -> (r: DescriptorSetLayoutBindingBuilder)
        ensures
            r == (DescriptorSetLayoutBindingBuilder { count_and_type: Some((count, ty)), ..self }),
    {
        let mut b = self;
        b.count_and_type = Some((count, ty));
        b
    }

    pub fn stage(self, shader_stage: u32) -> (r: DescriptorSetLayoutBindingBuilder)
        ensures
            r == (DescriptorSetLayoutBindingBuilder { shader_stage: Some(shader_stage), ..self }),
    {
        let mut b = self;
        b.shader_stage = Some(shader_stage);
        b
    }

    /// Resolves this binding against the binding numbers of its layout.
    pub fn get_descriptor_set_layout_binding(
        &self,
        layout_binding_indices: &HashMap<usize, u32>,
    ) -> (r: Result<DescriptorSetLayoutBinding, BuildError>)
        ensures
            match r {
                Ok(b) => binding_error(layout_binding_indices@, *self) is None && b
                    == binding_resolved(layout_binding_indices@, *self),
                Err(e) => binding_error(layout_binding_indices@, *self) == Some(e),
            },
    {
        let (descriptor_count, descriptor_type) = match self.count_and_type {
            Some(pair) => pair,
            None => {
                return Err(BuildError::MissingDescriptor);
            },
        };
        let stage_flags = match self.shader_stage {
            Some(flags) => flags,
            None => {
                return Err(BuildError::MissingStage);
            },
        };
        let binding = match lookup(layout_binding_indices, self.id) {
            Some(index) => index,
            None => {
                return Err(BuildError::DanglingBinding);
            },
        };
        Ok(DescriptorSetLayoutBinding { binding, descriptor_type, descriptor_count, stage_flags })
    }
}

/// Mints the ids of a layout's bindings and resolves them when asked to
/// build.
#[derive(Debug)]
pub struct DescriptorSetLayoutBuilder {
    id: usize,
    next_id: usize,
}

/// The ids of `parts`, in order.
pub open spec fn binding_ids(parts: Seq<DescriptorSetLayoutBindingBuilder>) -> Seq<usize> {
    Seq::new(parts.len(), |i: int| parts[i].id)
}

/// For each binding, whether it belongs to the builder, fits the index and
/// has an id of its own.
pub open spec fn binding_part_checks(
    parent: usize,
    parts: Seq<DescriptorSetLayoutBindingBuilder>,
) -> Seq<Option<BuildError>> {
    Seq::new(
        parts.len(),
        |i: int|
            part_error(
                parent,
                parts[i].parent_id,
                binding_ids(parts),
                i,
                BuildError::DuplicateBindingId,
            ),
    )
}

/// For each binding, what it lacks.
pub open spec fn binding_checks(parts: Seq<DescriptorSetLayoutBindingBuilder>) -> Seq<
    Option<BuildError>,
> {
    Seq::new(parts.len(), |i: int| binding_error(index_map(binding_ids(parts)), parts[i]))
}

/// What building a layout from `parts` with the builder `parent` comes to:
/// all bindings are numbered first, then each is resolved.
pub open spec fn layout_result(
    parent: usize,
    flags: u32,
    parts: Seq<DescriptorSetLayoutBindingBuilder>,
) -> Result<(u32, Seq<DescriptorSetLayoutBinding>), BuildError> {
    let numbering = first_error(binding_part_checks(parent, parts));
    let resolving = first_error(binding_checks(parts));
    if numbering is Some {
        Err(numbering->0)
    } else if resolving is Some {
        Err(resolving->0)
    } else {
        Ok(
            (
                flags,
                Seq::new(
                    parts.len(),
                    |i: int| binding_resolved(index_map(binding_ids(parts)), parts[i]),
                ),
            ),
        )
    }
}

impl DescriptorSetLayoutBuilder {
    /// The identity of this builder, which every binding it mints carries.
    pub closed spec fn spec_id(&self) -> usize {
        self.id
    }

    /// The id that the next binding will be given.
    pub closed spec fn spec_next_id(&self) -> usize {
        self.next_id
    }

    /// A builder that has minted nothing yet. Its identity is the next one
    /// of `ids`, which no builder issued from `ids` before or after shares.
    pub fn new(ids: &mut BuilderIds) -> (r: DescriptorSetLayoutBuilder)
        requires
            old(ids).spec_next() < usize::MAX,
        ensures
            r.spec_id() == old(ids).spec_next(),
            r.spec_next_id() == 0,
            final(ids).spec_next() == old(ids).spec_next() + 1,
    {
        let id = ids.issue();
        DescriptorSetLayoutBuilder { id, next_id: 0 }
    }

    pub fn id(&self) -> (r: usize)
        ensures
            r == self.spec_id(),
    {
        self.id
    }

    /// The id that the next binding will be given.
    pub fn next_id(&self) -> (r: usize)
        ensures
            r == self.spec_next_id(),
    {
        self.next_id
    }

    pub fn _get_next_id(&mut self) -> (r: usize)
        requires
            old(self).spec_next_id() < usize::MAX,
        ensures
            r == old(self).spec_next_id(),
            final(self).spec_next_id() == r + 1,
            final(self).spec_id() == old(self).spec_id(),
    {
        let id = self.next_id;
        self.next_id = self.next_id + 1;
        id
    }

    pub fn binding(&mut self) -> (r: DescriptorSetLayoutBindingBuilder)
        requires
            old(self).spec_next_id() < usize::MAX,
        ensures
            r == (DescriptorSetLayoutBindingBuilder {
                id: old(self).spec_next_id(),
                parent_id: old(self).spec_id(),
                count_and_type: None,
                shader_stage: None,
            }),
            final(self).spec_next_id() == old(self).spec_next_id() + 1,
            final(self).spec_id() == old(self).spec_id(),
    {
        let id = self._get_next_id();
        DescriptorSetLayoutBindingBuilder::new(id, self.id)
    }

    /// Resolves `bindings` into what a layout is created from. Fails on a
    /// binding of another builder, on an id that occurs twice, and on a
    /// binding without descriptor or without stage.
    pub fn build(&self, flags: u32, bindings: &Vec<DescriptorSetLayoutBindingBuilder>) -> (r:
        Result<DescriptorSetLayoutCreateInfo, BuildError>)
        ensures
            match r {
                Ok(info) => layout_result(self.spec_id(), flags, bindings@) == Ok::<
                    (u32, Seq<DescriptorSetLayoutBinding>),
                    BuildError,
                >((info.flags, info.bindings@)),
                Err(e) => layout_result(self.spec_id(), flags, bindings@) == Err::<
                    (u32, Seq<DescriptorSetLayoutBinding>),
                    BuildError,
                >(e),
            },
    {
        broadcast use vstd::std_specs::hash::group_hash_axioms;

        let ghost ids = binding_ids(bindings@);
        let ghost part_checks = binding_part_checks(self.id, bindings@);
        let ghost checks = binding_checks(bindings@);
        let mut indices: HashMap<usize, u32> = HashMap::new();
        let mut i: usize = 0;
        while i < bindings.len()
            invariant
                i <= bindings.len(),
                ids == binding_ids(bindings@),
                part_checks == binding_part_checks(self.id, bindings@),
                indexes_prefix(indices@, ids, i as int),
                forall|j: int| 0 <= j < i ==> part_checks[j] is None,
            decreases bindings.len() - i,
        {
            let part = &bindings[i];
            assert(ids[i as int] == part.id);
            if part.parent_id() != self.id {
                proof {
                    lemma_first_error_at(part_checks, i as int);
                }
                return Err(BuildError::ForeignParent);
            }
            if i > 0xFFFF_FFFFusize {
                proof {
                    lemma_first_error_at(part_checks, i as int);
                }
                return Err(BuildError::TooManyParts);
            }
            let index: u32 = i as u32;
            match indices.insert(part.id(), index) {
                Some(_) => {
                    proof {
                        lemma_first_error_at(part_checks, i as int);
                    }
                    return Err(BuildError::DuplicateBindingId);
                },
                None => {},
            }
            i = i + 1;
        }
        proof {
            assert forall|a: int, b: int| 0 <= a < b < ids.len() implies ids[a] != ids[b] by {
                assert(part_checks[b] is None);
            }
            lemma_indexes_all(indices@, ids);
            lemma_first_error_none(part_checks);
        }
        let mut resolved: Vec<DescriptorSetLayoutBinding> = Vec::new();
        let mut k: usize = 0;
        while k < bindings.len()
            invariant
                k <= bindings.len(),
                ids == binding_ids(bindings@),
                checks == binding_checks(bindings@),
                first_error(binding_part_checks(self.id, bindings@)) is None,
                indices@ == index_map(ids),
                forall|j: int| 0 <= j < k ==> checks[j] is None,
                resolved@.len() == k,
                forall|j: int|
                    0 <= j < k ==> resolved@[j] == binding_resolved(indices@, bindings@[j]),
            decreases bindings.len() - k,
        {
            match bindings[k].get_descriptor_set_layout_binding(&indices) {
                Ok(b) => {
                    resolved.push(b);
                },
                Err(e) => {
                    proof {
                        lemma_first_error_at(checks, k as int);
                    }
                    return Err(e);
                },
            }
            k = k + 1;
        }
        proof {
            lemma_first_error_none(checks);
            assert(resolved@ =~= Seq::new(
                bindings@.len(),
                |i: int| binding_resolved(index_map(binding_ids(bindings@)), bindings@[i]),
            ));
        }
        Ok(DescriptorSetLayoutCreateInfo { flags, bindings: resolved })
    }
}

} // verus!
