//! The two synchronization primitives of the frame loop, as the host knows
//! them: a fence that the host can wait on, and a semaphore that orders work
//! on the device.

use vstd::prelude::*;

verus! {

/// The creation flag of a fence that starts out signaled.
pub const FENCE_CREATE_SIGNALED: u32 = 0x1;

/// A device-side signal between queue operations, which the host cannot
/// observe.
#[derive(Clone, Copy, Debug, PartialEq, Eq, Structural)]
pub struct Semaphore {
    pub handle: u64,
}

impl Semaphore {
    pub fn new(handle: u64) -> (r: Semaphore)
        ensures
            r == (Semaphore { handle }),
    {
        Semaphore { handle }
    }
}

/// A completion signal from the device to the host, together with whether
/// it is created signaled.
#[derive(Clone, Copy, Debug, PartialEq, Eq, Structural)]
pub struct Fence {
    pub handle: u64,
    pub signaled: bool,
}

impl Fence {
    /// A fence that starts out unsignaled.
    pub fn new(handle: u64) -> (r: Fence)
        ensures
            r == (Fence { handle, signaled: false }),
    {
        Fence { handle, signaled: false }
    }

    /// A fence that starts out signaled, so that the first wait on it
    /// returns at once.
    pub fn signaled(handle: u64) -> (r: Fence)
        ensures
            r == (Fence { handle, signaled: true }),
    {
        Fence { handle, signaled: true }
    }

    /// The flags to create this fence with.
    pub fn create_flags(&self) -> (r: u32)
        ensures
            r == (if self.signaled {
                FENCE_CREATE_SIGNALED
            } else {
                0
            }),
    {
        if self.signaled {
            FENCE_CREATE_SIGNALED
        } else {
            0
        }
    }
}

} // verus!
