//! Bit masks as the graphics API uses them.

use ash::vk;
use vstd::prelude::*;

verus! {

/// Every bit of `want` is set in `have`.
pub open spec fn mask_contains(have: u32, want: u32) -> bool {
    have & want == want
}

/// Bit `index` of `bits` is set.
pub open spec fn bit_set(bits: u32, index: int) -> bool {
    0 <= index < 32 && bits & (1u32 << (index as u32)) != 0
}

/// Calls `ash::vk::QueueFlags::contains`, which compares `self & other` with
/// `other` on the raw 32-bit masks.
#[verifier::external_body]
pub(crate) fn queue_flags_contains(have: u32, want: u32) -> (r: bool)
    ensures
        r == mask_contains(have, want),
{
    vk::QueueFlags::from_raw(have).contains(vk::QueueFlags::from_raw(want))
}

/// Calls `ash::vk::MemoryPropertyFlags::contains`, which compares
/// `self & other` with `other` on the raw 32-bit masks.
#[verifier::external_body]
pub(crate) fn memory_flags_contains(have: u32, want: u32) -> (r: bool)
    ensures
        r == mask_contains(have, want),
{
    vk::MemoryPropertyFlags::from_raw(have).contains(vk::MemoryPropertyFlags::from_raw(want))
}

/// Whether bit `index` of `bits` is set.
pub fn test_bit(bits: u32, index: u32) -> (r: bool)
    ensures
        r == bit_set(bits, index as int),
{
    if index < 32 {
        bits & (1u32 << index) != 0
    } else {
        false
    }
}

} // verus!
