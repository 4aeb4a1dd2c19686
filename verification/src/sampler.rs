//! Samplers. The engine uses one kind: linear filtering, repeating in every
//! direction, with anisotropic filtering as far as the device goes.

use crate::raw_handle::HasRawVkHandle;
use vstd::prelude::*;

verus! {

pub const SAMPLER_MIPMAP_MODE_LINEAR: i32 = 1;

pub const SAMPLER_ADDRESS_MODE_REPEAT: i32 = 0;

pub const COMPARE_OP_ALWAYS: i32 = 7;

pub const BORDER_COLOR_INT_OPAQUE_BLACK: i32 = 3;

/// What a sampler is created from. The level-of-detail bias and range are
/// zero; the limit of the anisotropy is the device's.
#[derive(Clone, Copy, Debug, PartialEq, Eq, Structural)]
pub struct SamplerCreateInfo {
    pub flags: u32,
    pub mag_filter: i32,
    pub min_filter: i32,
    pub mipmap_mode: i32,
    pub address_mode_u: i32,
    pub address_mode_v: i32,
    pub address_mode_w: i32,
    pub anisotropy_enable: bool,
    pub compare_enable: bool,
    pub compare_op: i32,
    pub border_color: i32,
    pub unnormalized_coordinates: bool,
}

/// A created sampler.
#[derive(Clone, Copy, Debug, PartialEq, Eq, Structural)]
pub struct Sampler {
    pub handle: u64,
}

impl Sampler {
    /// What to create the sampler from.
    pub fn create_info() -> (r: SamplerCreateInfo)
        ensures
            r == (SamplerCreateInfo {
                flags: 0,
                mag_filter: crate::command::FILTER_LINEAR,
                min_filter: crate::command::FILTER_LINEAR,
                mipmap_mode: SAMPLER_MIPMAP_MODE_LINEAR,
                address_mode_u: SAMPLER_ADDRESS_MODE_REPEAT,
                address_mode_v: SAMPLER_ADDRESS_MODE_REPEAT,
                address_mode_w: SAMPLER_ADDRESS_MODE_REPEAT,
                anisotropy_enable: true,
                compare_enable: false,
                compare_op: COMPARE_OP_ALWAYS,
                border_color: BORDER_COLOR_INT_OPAQUE_BLACK,
                unnormalized_coordinates: false,
            }),
    {
        SamplerCreateInfo {
            flags: 0,
            mag_filter: crate::command::FILTER_LINEAR,
            min_filter: crate::command::FILTER_LINEAR,
            mipmap_mode: SAMPLER_MIPMAP_MODE_LINEAR,
            address_mode_u: SAMPLER_ADDRESS_MODE_REPEAT,
            address_mode_v: SAMPLER_ADDRESS_MODE_REPEAT,
            address_mode_w: SAMPLER_ADDRESS_MODE_REPEAT,
            anisotropy_enable: true,
            compare_enable: false,
            compare_op: COMPARE_OP_ALWAYS,
            border_color: BORDER_COLOR_INT_OPAQUE_BLACK,
            unnormalized_coordinates: false,
        }
    }

    pub fn new(handle: u64) -> (r: Sampler)
        ensures
            r.handle == handle,
    {
        Sampler { handle }
    }
}

impl HasRawVkHandle<u64> for Sampler {
    open spec fn raw_handle(&self) -> u64 {
        self.handle
    }

    fn get_vk_handle(&self) -> u64 {
        self.handle
    }
}

} // verus!
