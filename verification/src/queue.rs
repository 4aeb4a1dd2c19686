//! Queues: what a submission and a request to present are made of, and how
//! the answer to a request to present is read.

use crate::raw_handle::HasRawVkHandle;
use vstd::prelude::*;

verus! {

/// The handle that stands for "no object".
pub const NULL_HANDLE: u64 = 0;

/// One queue of a device.
#[derive(Clone, Copy, Debug, PartialEq, Eq, Structural)]
pub struct Queue {
    pub family_index: u32,
    pub handle: u64,
    pub index: u32,
}

/// A semaphore to wait for or to signal, and the pipeline stages that do so.
#[derive(Clone, Copy, Debug, PartialEq, Eq, Structural)]
pub struct SemaphoreSubmitInfo {
    pub semaphore: u64,
    pub value: u64,
    pub stage_mask: u64,
    pub device_index: u32,
}

/// A command buffer to execute.
#[derive(Clone, Copy, Debug, PartialEq, Eq, Structural)]
pub struct CommandBufferSubmitInfo {
    pub command_buffer: u64,
    pub device_mask: u32,
}

/// One batch for a queue: what to wait for, what to execute in order, what
/// to signal, and the fence to signal once the whole batch has completed.
#[derive(Debug)]
pub struct SubmitInfo {
    pub wait_semaphore_infos: Vec<SemaphoreSubmitInfo>,
    pub command_buffer_infos: Vec<CommandBufferSubmitInfo>,
    pub signal_semaphore_infos: Vec<SemaphoreSubmitInfo>,
    pub fence: u64,
}

/// A request to present one image of one swapchain.
#[derive(Debug)]
pub struct PresentInfo {
    pub wait_semaphores: Vec<u64>,
    pub swapchain: u64,
    pub image_index: u32,
}

/// What a semaphore paired with a stage mask becomes in a submission.
pub open spec fn semaphore_info(pair: (u64, u64)) -> SemaphoreSubmitInfo {
    SemaphoreSubmitInfo { semaphore: pair.0, value: 1, stage_mask: pair.1, device_index: 0 }
}

/// What a list of semaphores with stage masks becomes in a submission; no
/// list counts as an empty one.
pub open spec fn semaphore_infos(pairs: Option<Seq<(u64, u64)>>) -> Seq<SemaphoreSubmitInfo> {
    match pairs {
        Some(p) => Seq::new(p.len(), |i: int| semaphore_info(p[i])),
        None => Seq::empty(),
    }
}

/// What a list of command buffers becomes in a submission.
pub open spec fn command_buffer_infos(buffers: Seq<u64>) -> Seq<CommandBufferSubmitInfo> {
    Seq::new(
        buffers.len(),
        |i: int| CommandBufferSubmitInfo { command_buffer: buffers[i], device_mask: 0 },
    )
}

/// The handle of a fence, or the null handle for none.
pub open spec fn fence_or_null(fence: Option<u64>) -> u64 {
    match fence {
        Some(f) => f,
        None => NULL_HANDLE,
    }
}

/// The list of an optional list of pairs.
pub open spec fn pairs_of(pairs: Option<&Vec<(u64, u64)>>) -> Option<Seq<(u64, u64)>> {
    match pairs {
        Some(p) => Some(p@),
        None => None,
    }
}

/// Turns semaphores with their stage masks into the entries of a submission.
pub fn build_semaphore_infos(pairs: Option<&Vec<(u64, u64)>>) -> (r: Vec<SemaphoreSubmitInfo>)
    ensures
        r@ == semaphore_infos(pairs_of(pairs)),
{
    let mut infos: Vec<SemaphoreSubmitInfo> = Vec::new();
    match pairs {
        None => {},
        Some(p) => {
            let mut i: usize = 0;
            while i < p.len()
                invariant
                    i <= p@.len(),
                    infos@.len() == i,
                    forall|j: int| 0 <= j < i ==> infos@[j] == semaphore_info(p@[j]),
                decreases p.len() - i,
            {
                let pair = p[i];
                infos.push(
                    SemaphoreSubmitInfo {
                        semaphore: pair.0,
                        value: 1,
                        stage_mask: pair.1,
                        device_index: 0,
                    },
                );
                i = i + 1;
            }
        },
    }
    assert(infos@ =~= semaphore_infos(pairs_of(pairs)));
    infos
}

impl Queue {
    pub fn new(family_index: u32, handle: u64, index: u32) -> (r: Queue)
        ensures
            r == (Queue { family_index, handle, index }),
    {
        Queue { family_index, handle, index }
    }

    pub fn index(&self) -> (r: u32)
        ensures
            r == self.index,
    {
        self.index
    }

    /// The index of the family that this queue belongs to.
    pub fn queue_family(&self) -> (r: u32)
        ensures
            r == self.family_index,
    {
        self.family_index
    }

    /// The batch that waits for each semaphore of `wait` at its stages,
    /// executes `command_buffers` in order, signals each semaphore of
    /// `signal` at its stages and, at the end, `fence`.
    pub fn submit(
        &self,
        wait: Option<&Vec<(u64, u64)>>,
        command_buffers: &Vec<u64>,
        signal: Option<&Vec<(u64, u64)>>,
        fence: Option<u64>,
    ) -> (r: SubmitInfo)
        ensures
            r.wait_semaphore_infos@ == semaphore_infos(pairs_of(wait)),
            r.command_buffer_infos@ == command_buffer_infos(command_buffers@),
            r.signal_semaphore_infos@ == semaphore_infos(pairs_of(signal)),
            r.fence == fence_or_null(fence),
    {
        let wait_semaphore_infos = build_semaphore_infos(wait);
        let mut buffers: Vec<CommandBufferSubmitInfo> = Vec::new();
        let mut i: usize = 0;
        while i < command_buffers.len()
            invariant
                i <= command_buffers@.len(),
                buffers@.len() == i,
                forall|j: int|
                    0 <= j < i ==> buffers@[j] == (CommandBufferSubmitInfo {
                        command_buffer: command_buffers@[j],
                        device_mask: 0,
                    }),
            decreases command_buffers.len() - i,
        {
            buffers.push(
                CommandBufferSubmitInfo { command_buffer: command_buffers[i], device_mask: 0 },
            );
            i = i + 1;
        }
        assert(buffers@ =~= command_buffer_infos(command_buffers@));
        let signal_semaphore_infos = build_semaphore_infos(signal);
        let submit_fence = match fence {
            Some(f) => f,
            None => NULL_HANDLE,
        };
        SubmitInfo {
            wait_semaphore_infos,
            command_buffer_infos: buffers,
            signal_semaphore_infos,
            fence: submit_fence,
        }
    }

    /// The request to present image `image_index` of `swapchain` once every
    /// semaphore of `wait` has signaled.
    pub fn submit_present(&self, wait: &Vec<u64>, swapchain: u64, image_index: u32) -> (r:
        PresentInfo)
        ensures
            r.wait_semaphores@ == wait@,
            r.swapchain == swapchain,
            r.image_index == image_index,
    {
        let mut wait_semaphores: Vec<u64> = Vec::new();
        let mut i: usize = 0;
        while i < wait.len()
            invariant
                i <= wait@.len(),
                wait_semaphores@ == wait@.subrange(0, i as int),
            decreases wait.len() - i,
        {
            wait_semaphores.push(wait[i]);
            assert(wait_semaphores@ =~= wait@.subrange(0, i + 1));
            i = i + 1;
        }
        assert(wait_semaphores@ =~= wait@);
        PresentInfo { wait_semaphores, swapchain, image_index }
    }
}

impl HasRawVkHandle<u64> for Queue {
    open spec fn raw_handle(&self) -> u64 {
        self.handle
    }

    fn get_vk_handle(&self) -> u64 {
        self.handle
    }
}

} // verus!
