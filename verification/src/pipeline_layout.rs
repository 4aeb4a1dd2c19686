//! Pipeline layouts: the descriptor set layouts and push constant ranges
//! that a pipeline is used with.

use crate::descriptor_set::DescriptorSetLayout;
use crate::raw_handle::HasRawVkHandle;
use vstd::prelude::*;

verus! {

/// A range of push constants and the stages that read it.
#[derive(Clone, Copy, Debug, PartialEq, Eq, Structural)]
pub struct PushConstantRange {
    pub stage_flags: u32,
    pub offset: u32,
    pub size: u32,
}

/// What a pipeline layout is created from.
#[derive(Debug)]
pub struct PipelineLayoutCreateInfo {
    pub flags: u32,
    pub set_layouts: Vec<u64>,
    pub push_constant_ranges: Vec<PushConstantRange>,
}

/// A created pipeline layout, which keeps its descriptor set layouts alive.
#[derive(Debug)]
pub struct PipelineLayout {
    pub handle: u64,
    pub descriptor_set_layouts: Vec<DescriptorSetLayout>,
}

/// The handles of `layouts`.
pub open spec fn layout_handles(layouts: Seq<DescriptorSetLayout>) -> Seq<u64> {
    Seq::new(layouts.len(), |i: int| layouts[i].handle)
}

impl PipelineLayout {
    /// What to create a pipeline layout from.
    pub fn create_info(
        descriptor_set_layouts: &Vec<DescriptorSetLayout>,
        push_constant_ranges: &Vec<PushConstantRange>,
    ) -> (r: PipelineLayoutCreateInfo)
        ensures
            r.flags == 0,
            r.set_layouts@ == layout_handles(descriptor_set_layouts@),
            r.push_constant_ranges@ == push_constant_ranges@,
    {
        let mut set_layouts: Vec<u64> = Vec::new();
        let mut i: usize = 0;
        while i < descriptor_set_layouts.len()
            invariant
                i <= descriptor_set_layouts@.len(),
                set_layouts@.len() == i,
                forall|j: int| 0 <= j < i ==> set_layouts@[j] == descriptor_set_layouts@[j].handle,
            decreases descriptor_set_layouts.len() - i,
        {
            set_layouts.push(descriptor_set_layouts[i].get_vk_handle());
            i = i + 1;
        }
        assert(set_layouts@ =~= layout_handles(descriptor_set_layouts@));
        let mut ranges: Vec<PushConstantRange> = Vec::new();
        let mut k: usize = 0;
        while k < push_constant_ranges.len()
            invariant
                k <= push_constant_ranges@.len(),
                ranges@ == push_constant_ranges@.subrange(0, k as int),
            decreases push_constant_ranges.len() - k,
        {
            ranges.push(push_constant_ranges[k]);
            assert(ranges@ =~= push_constant_ranges@.subrange(0, k + 1));
            k = k + 1;
        }
        assert(ranges@ =~= push_constant_ranges@);
        PipelineLayoutCreateInfo { flags: 0, set_layouts, push_constant_ranges: ranges }
    }

    pub fn new(handle: u64, descriptor_set_layouts: Vec<DescriptorSetLayout>) -> (r:
        PipelineLayout)
        ensures
            r.handle == handle,
            r.descriptor_set_layouts@ == descriptor_set_layouts@,
    {
        PipelineLayout { handle, descriptor_set_layouts }
    }
}

impl HasRawVkHandle<u64> for PipelineLayout {
    open spec fn raw_handle(&self) -> u64 {
        self.handle
    }

    fn get_vk_handle(&self) -> u64 {
        self.handle
    }
}

} // verus!
