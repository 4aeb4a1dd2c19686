//! Buffers: what one is created from, and how bytes are copied into one
//! that is persistently mapped.

use crate::raw_handle::HasRawVkHandle;
use vstd::prelude::*;

verus! {

/// The sharing mode of a resource that one queue family uses at a time.
pub const SHARING_MODE_EXCLUSIVE: i32 = 0;

/// How the allocator is to place an allocation.
#[derive(Clone, Copy, Debug, PartialEq, Eq, Structural)]
pub enum MemoryUsage {
    Unknown,
    GpuLazy,
    Auto,
    AutoPreferDevice,
    AutoPreferHost,
}

/// The allocation flag that keeps an allocation mapped for its lifetime.
pub const ALLOCATION_CREATE_MAPPED: u32 = 0x4;

/// What a buffer is created from.
#[derive(Clone, Copy, Debug, PartialEq, Eq, Structural)]
pub struct BufferCreateInfo {
    pub flags: u32,
    pub size: u64,
    pub usage: u32,
    pub sharing_mode: i32,
}

/// What the memory of a resource is allocated from.
#[derive(Clone, Copy, Debug, PartialEq, Eq, Structural)]
pub struct AllocationCreateInfo {
    pub flags: u32,
    pub usage: MemoryUsage,
    pub required_flags: u32,
    pub preferred_flags: u32,
    pub memory_type_bits: u32,
    pub user_data: usize,
}

/// Why bytes could not be copied into a buffer.
#[derive(Clone, Copy, Debug, PartialEq, Eq, Structural)]
pub enum CopyError {
    /// The buffer is not mapped into host memory.
    NotMapped,
    /// The source is larger than the buffer.
    DestinationTooSmall,
}

/// A created buffer: its handle, its size, and, where it is persistently
/// mapped, the bytes that the host sees through the mapping.
#[derive(Debug)]
pub struct Buffer {
    handle: u64,
    size: usize,
    mapped: Option<Vec<u8>>,
}

/// What a [`Buffer`] holds.
pub struct BufferSpec {
    pub handle: u64,
    pub size: usize,
    pub mapped: Option<Seq<u8>>,
}

impl View for Buffer {
    type V = BufferSpec;

    closed spec fn view(&self) -> BufferSpec {
        BufferSpec {
            handle: self.handle,
            size: self.size,
            mapped: match self.mapped {
                Some(bytes) => Some(bytes@),
                None => None,
            },
        }
    }
}

/// `dst` after `src` was copied to its start.
pub open spec fn copied_in(dst: Seq<u8>, src: Seq<u8>) -> Seq<u8> {
    src + dst.subrange(src.len() as int, dst.len() as int)
}

impl Buffer {
    /// A mapping is as long as its buffer.
    pub open spec fn wf(&self) -> bool {
        self@.mapped is Some ==> self@.mapped->0.len() == self@.size
    }

    /// What to create a buffer of `size` bytes from, and what to allocate
    /// its memory from.
    pub fn create_info(
        size: usize,
        buffer_usage: u32,
        memory_usage: MemoryUsage,
        allocation_flags: u32,
    ) -> (r: (BufferCreateInfo, AllocationCreateInfo))
        ensures
            r.0 == (BufferCreateInfo {
                flags: 0,
                size: size as u64,
                usage: buffer_usage,
                sharing_mode: SHARING_MODE_EXCLUSIVE,
            }),
            r.1 == (AllocationCreateInfo {
                flags: allocation_flags,
                usage: memory_usage,
                required_flags: 0,
                preferred_flags: 0,
                memory_type_bits: 0,
                user_data: 0,
            }),
    {
        (
            BufferCreateInfo {
                flags: 0,
                size: size as u64,
                usage: buffer_usage,
                sharing_mode: SHARING_MODE_EXCLUSIVE,
            },
            AllocationCreateInfo {
                flags: allocation_flags,
                usage: memory_usage,
                required_flags: 0,
                preferred_flags: 0,
                memory_type_bits: 0,
                user_data: 0,
            },
        )
    }

    /// The buffer `handle` of `size` bytes. Where `mapped` is set, the host
    /// sees its memory, which starts out as zeros.
    pub fn new(handle: u64, size: usize, mapped: bool) -> (r: Buffer)
        ensures
            r.wf(),
            r@.handle == handle,
            r@.size == size,
            r@.mapped == (if mapped {
                Some(Seq::new(size as nat, |i: int| 0u8))
            } else {
                None
            }),
    {
        if mapped {
            let mut bytes: Vec<u8> = Vec::new();
            let mut i: usize = 0;
            while i < size
                invariant
                    i <= size,
                    bytes@ == Seq::new(i as nat, |j: int| 0u8),
                decreases size - i,
            {
                bytes.push(0u8);
                assert(bytes@ =~= Seq::new((i + 1) as nat, |j: int| 0u8));
                i = i + 1;
            }
            Buffer { handle, size, mapped: Some(bytes) }
        } else {
            Buffer { handle, size, mapped: None }
        }
    }

    /// The address `address`, which the device reported for this buffer.
    pub fn get_device_address(&self, address: u64) -> (r: DeviceAddress)
        ensures
            r == (DeviceAddress { buffer: self@.handle, address }),
    {
        DeviceAddress::new(self, address)
    }

    /// The size of the buffer in bytes.
    pub fn size(&self) -> (r: usize)
        ensures
            r == self@.size,
    {
        self.size
    }

    /// Whether the host sees the memory of the buffer.
    pub fn is_mapped(&self) -> (r: bool)
        ensures
            r == (self@.mapped is Some),
    {
        self.mapped.is_some()
    }

    /// Copies `src` to the start of the mapping. Fails, and leaves the
    /// buffer as it was, where the buffer is not mapped or `src` is larger
    /// than the buffer.
    pub fn copy_nonoverlapping(&mut self, src: &[u8]) -> (r: Result<(), CopyError>)
        requires
            old(self).wf(),
        ensures
            final(self).wf(),
            final(self)@.handle == old(self)@.handle,
            final(self)@.size == old(self)@.size,
            r == (if old(self)@.mapped is None {
                Err::<(), CopyError>(CopyError::NotMapped)
            } else if src@.len() > old(self)@.size {
                Err::<(), CopyError>(CopyError::DestinationTooSmall)
            } else {
                Ok::<(), CopyError>(())
            }),
            final(self)@.mapped == (if r is Ok {
                Some(copied_in(old(self)@.mapped->0, src@))
            } else {
                old(self)@.mapped
            }),
    {
        match &mut self.mapped {
            None => Err(CopyError::NotMapped),
            Some(bytes) => {
                if src.len() > bytes.len() {
                    return Err(CopyError::DestinationTooSmall);
                }
                let ghost before = bytes@;
                let mut i: usize = 0;
                while i < src.len()
                    invariant
                        i <= src@.len() <= bytes@.len(),
                        bytes@.len() == before.len(),
                        forall|j: int| 0 <= j < i ==> bytes@[j] == src@[j],
                        forall|j: int| i <= j < bytes@.len() ==> bytes@[j] == before[j],
                    decreases src.len() - i,
                {
                    bytes.set(i, src[i]);
                    i = i + 1;
                }
                assert(bytes@ =~= copied_in(before, src@));
                Ok(())
            },
        }
    }

    /// The `len` bytes from `offset` on, as the host sees them through the
    /// mapping, or nothing where the buffer is not mapped or the range does
    /// not lie within it.
    pub fn read_mapped(&self, offset: usize, len: usize) -> (r: Option<Vec<u8>>)
        requires
            self.wf(),
        ensures
            match r {
                Some(bytes) => self@.mapped is Some && offset + len <= self@.size && bytes@
                    == self@.mapped->0.subrange(offset as int, offset + len),
                None => self@.mapped is None || offset + len > self@.size,
            },
    {
        match &self.mapped {
            None => None,
            Some(bytes) => {
                if offset > bytes.len() || len > bytes.len() - offset {
                    return None;
                }
                let mut out: Vec<u8> = Vec::new();
                let mut i: usize = 0;
                while i < len
                    invariant
                        i <= len,
                        offset + len <= bytes@.len() <= usize::MAX,
                        out@.len() == i,
                        forall|j: int| 0 <= j < i ==> out@[j] == bytes@[offset + j],
                    decreases len - i,
                {
                    out.push(bytes[offset + i]);
                    i = i + 1;
                }
                assert(out@ =~= bytes@.subrange(offset as int, offset + len));
                Some(out)
            },
        }
    }
}

impl HasRawVkHandle<u64> for Buffer {
    open spec fn raw_handle(&self) -> u64 {
        self@.handle
    }

    fn get_vk_handle(&self) -> u64 {
        self.handle
    }
}

/// The address at which shaders find a buffer.
#[derive(Clone, Copy, Debug, PartialEq, Eq, Structural)]
pub struct DeviceAddress {
    pub buffer: u64,
    pub address: u64,
}

impl DeviceAddress {
    pub fn new(buffer: &Buffer, address: u64) -> (r: DeviceAddress)
        ensures
            r == (DeviceAddress { buffer: buffer@.handle, address }),
    {
        DeviceAddress { buffer: buffer.handle, address }
    }
}

impl HasRawVkHandle<u64> for DeviceAddress {
    open spec fn raw_handle(&self) -> u64 {
        self.address
    }

    fn get_vk_handle(&self) -> u64 {
        self.address
    }
}

/// Bytes copied into a mapped buffer read back unchanged: the first
/// `src.len()` bytes of the mapping are `src`, and what lies behind them is
/// what was there before.
pub proof fn lemma_copy_round_trip(dst: Seq<u8>, src: Seq<u8>)
    requires
        src.len() <= dst.len(),
    ensures
        copied_in(dst, src).len() == dst.len(),
        copied_in(dst, src).subrange(0, src.len() as int) == src,
        copied_in(dst, src).subrange(src.len() as int, dst.len() as int) == dst.subrange(
            src.len() as int,
            dst.len() as int,
        ),
{
    assert(copied_in(dst, src).subrange(0, src.len() as int) =~= src);
    assert(copied_in(dst, src).subrange(src.len() as int, dst.len() as int) =~= dst.subrange(
        src.len() as int,
        dst.len() as int,
    ));
}

} // verus!
