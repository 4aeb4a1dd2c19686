//! Device memory: which memory type backs a resource, and how bytes get into
//! a host-visible allocation.

use crate::flags::{bit_set, mask_contains, memory_flags_contains, test_bit};
use vstd::prelude::*;

verus! {

/// The most memory types a device reports.
pub const MAX_MEMORY_TYPES: usize = 32;

/// One memory type of a device: what it can do and the heap it lives in.
#[derive(Clone, Copy, Debug, PartialEq, Eq, Structural)]
pub struct MemoryType {
    pub property_flags: u32,
    pub heap_index: u32,
}

/// One memory heap of a device.
#[derive(Clone, Copy, Debug, PartialEq, Eq, Structural)]
pub struct MemoryHeap {
    pub size: u64,
    pub flags: u32,
}

/// The memory types and heaps that a device reports.
#[derive(Debug)]
pub struct MemoryProperties {
    pub memory_types: Vec<MemoryType>,
    pub memory_heaps: Vec<MemoryHeap>,
}

/// What a resource asks of its memory: the types it can live in, as a bit
/// per type index, and the size it needs.
#[derive(Clone, Copy, Debug, PartialEq, Eq, Structural)]
pub struct MemoryRequirements {
    pub size: u64,
    pub alignment: u64,
    pub memory_type_bits: u32,
}

/// Why no memory could be chosen for a resource.
#[derive(Clone, Copy, Debug, PartialEq, Eq, Structural)]
pub enum MemoryError {
    /// No memory type is both allowed for the resource and has every
    /// requested property.
    NoSuitableType,
}

/// Memory type `index` can back a resource that allows the types in
/// `type_bits` and asks for the properties in `requested`.
pub open spec fn suitable(
    types: Seq<MemoryType>,
    type_bits: u32,
    requested: u32,
    index: int,
) -> bool {
    &&& 0 <= index < types.len()
    &&& bit_set(type_bits, index)
    &&& mask_contains(types[index].property_flags, requested)
}

/// Scans the memory types in order and selects the first one that the
/// resource allows and that has every requested property.
pub fn find_memory_type(types: &Vec<MemoryType>, type_bits: u32, requested: u32) -> (r: Result<
    u32,
    MemoryError,
>)
    ensures
        match r {
            Ok(index) => {
                &&& suitable(types@, type_bits, requested, index as int)
                &&& forall|j: int| 0 <= j < index ==> !suitable(types@, type_bits, requested, j)
            },
            Err(e) => e == MemoryError::NoSuitableType && forall|j: int|
                !suitable(types@, type_bits, requested, j),
        },
{
    let mut i: u32 = 0;
    while i < 32 && (i as usize) < types.len()
        invariant
            i <= 32,
            i <= types.len(),
            forall|j: int| 0 <= j < i ==> !suitable(types@, type_bits, requested, j),
        decreases 32 - i,
    {
        if test_bit(type_bits, i) && memory_flags_contains(
            types[i as usize].property_flags,
            requested,
        ) {
            return Ok(i);
        }
        i = i + 1;
    }
    Err(MemoryError::NoSuitableType)
}

impl MemoryProperties {
    /// The memory type for a resource with the requirements `requirements`
    /// whose memory must have the properties `requested`.
    pub fn select(&self, requirements: &MemoryRequirements, requested: u32) -> (r: Result<
        u32,
        MemoryError,
    >)
        ensures
            match r {
                Ok(index) => {
                    &&& suitable(
                        self.memory_types@,
                        requirements.memory_type_bits,
                        requested,
                        index as int,
                    )
                    &&& forall|j: int|
                        0 <= j < index ==> !suitable(
                            self.memory_types@,
                            requirements.memory_type_bits,
                            requested,
                            j,
                        )
                },
                Err(e) => e == MemoryError::NoSuitableType && forall|j: int|
                    !suitable(self.memory_types@, requirements.memory_type_bits, requested, j),
            },
    {
        find_memory_type(&self.memory_types, requirements.memory_type_bits, requested)
    }
}

} // verus!
