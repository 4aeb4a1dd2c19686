//! Shader modules: compiled code, the stage it runs in, and the name of its
//! entry point.

use crate::raw_handle::HasRawVkHandle;
use vstd::prelude::*;

verus! {

pub const SHADER_STAGE_VERTEX: u32 = 0x1;

pub const SHADER_STAGE_FRAGMENT: u32 = 0x10;

/// The stage that a shader is written for.
#[derive(Debug, Clone, Copy, PartialEq, Eq, Structural)]
pub enum ShaderKind {
    Vertex,
    Fragment,
}

/// What a shader module is created from: the size of its code in bytes.
#[derive(Clone, Copy, Debug, PartialEq, Eq, Structural)]
pub struct ShaderModuleCreateInfo {
    pub flags: u32,
    pub code_size: usize,
}

/// How a shader module takes part in a pipeline.
#[derive(Debug)]
pub struct PipelineShaderStageCreateInfo {
    pub flags: u32,
    pub stage: u32,
    pub module: u64,
    /// The entry point as a C string.
    pub name: Vec<u8>,
}

/// A created shader module.
#[derive(Debug)]
pub struct ShaderModule {
    pub handle: u64,
    pub kind: ShaderKind,
    /// The bytes of the name of the entry point.
    pub entry_point: Vec<u8>,
}

/// The stage flag of a kind of shader.
pub open spec fn stage_of(kind: ShaderKind) -> u32 {
    match kind {
        ShaderKind::Vertex => SHADER_STAGE_VERTEX,
        ShaderKind::Fragment => SHADER_STAGE_FRAGMENT,
    }
}

/// No byte of `name` is zero.
pub open spec fn has_no_zero(name: Seq<u8>) -> bool {
    forall|i: int| 0 <= i < name.len() ==> name[i] != 0
}

impl ShaderModule {
    /// What to create a shader module from code of `code` bytes.
    pub fn create_info(code: &[u8]) -> (r: ShaderModuleCreateInfo)
        ensures
            r == (ShaderModuleCreateInfo { flags: 0, code_size: code@.len() as usize }),
    {
        ShaderModuleCreateInfo { flags: 0, code_size: code.len() }
    }

    pub fn new(handle: u64, kind: ShaderKind, entry_point: Vec<u8>) -> (r: ShaderModule)
        ensures
            r.handle == handle,
            r.kind == kind,
            r.entry_point@ == entry_point@,
    {
        ShaderModule { handle, kind, entry_point }
    }

    pub fn kind(&self) -> (r: ShaderKind)
        ensures
            r == self.kind,
    {
        self.kind
    }

    pub fn entry_point(&self) -> (r: &Vec<u8>)
        ensures
            r@ == self.entry_point@,
    {
        &self.entry_point
    }

    /// How this module takes part in a pipeline; nothing where the name of
    /// its entry point holds a zero byte and so is no C string.
    pub fn pipeline_shader_stage_create_info(&self) -> (r: Option<PipelineShaderStageCreateInfo>)
        ensures
            match r {
                Some(info) => {
                    &&& has_no_zero(self.entry_point@)
                    &&& info.flags == 0
                    &&& info.stage == stage_of(self.kind)
                    &&& info.module == self.handle
                    &&& info.name@ == self.entry_point@.push(0u8)
                },
                None => !has_no_zero(self.entry_point@),
            },
    {
        let mut name: Vec<u8> = Vec::new();
        let mut i: usize = 0;
        while i < self.entry_point.len()
            invariant
                i <= self.entry_point@.len(),
                name@ == self.entry_point@.subrange(0, i as int),
                forall|j: int| 0 <= j < i ==> self.entry_point@[j] != 0,
            decreases self.entry_point.len() - i,
        {
            let b = self.entry_point[i];
            if b == 0 {
                return None;
            }
            name.push(b);
            assert(name@ =~= self.entry_point@.subrange(0, i + 1));
            i = i + 1;
        }
        assert(name@ =~= self.entry_point@);
        name.push(0u8);
        let stage = match self.kind {
            ShaderKind::Vertex => SHADER_STAGE_VERTEX,
            ShaderKind::Fragment => SHADER_STAGE_FRAGMENT,
        };
        Some(PipelineShaderStageCreateInfo { flags: 0, stage, module: self.handle, name })
    }
}

impl HasRawVkHandle<u64> for ShaderModule {
    open spec fn raw_handle(&self) -> u64 {
        self.handle
    }

    fn get_vk_handle(&self) -> u64 {
        self.handle
    }
}

} // verus!
