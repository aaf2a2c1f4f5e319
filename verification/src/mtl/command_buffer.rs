//! Command buffers: the submission state machine and the ordered handler
//! lists.

use vstd::prelude::*;

use crate::mtl::device::CmdQueue;

verus! {

/// Where a command buffer stands in its submission lifecycle.
#[derive(Clone, Copy, Debug, PartialEq, Eq, Structural)]
pub enum Status {
    NotEnqueued,
    Enqueued,
    Committed,
    Scheduled,
    Completed,
    Error,
}

/// Why a command buffer finished in the error state.
#[derive(Clone, Copy, Debug, PartialEq, Eq, Structural)]
pub enum Error {
    /// No error: the buffer did not fail.
    NoError,
    Internal,
    Timeout,
    PageFault,
    AccessRevoked,
    NotPermitted,
    OutOfMemory,
    InvalidResource,
    Memoryless,
    StackOverflow,
}

/// How an encoder dispatches its passes.
#[derive(Clone, Copy, Debug, PartialEq, Eq, Structural)]
pub enum DispatchType {
    Serial,
    Concurrent,
}

/// An encoder for copy and fill passes; the model records no commands.
#[derive(Clone, Copy, Debug, PartialEq, Eq, Structural)]
pub struct BlitCommandEncoder {
}

/// An encoder for compute passes; the model records no commands.
#[derive(Clone, Copy, Debug, PartialEq, Eq, Structural)]
pub struct ComputeCommandEncoder {
}

/// One command buffer: its queue, its place in the submission lifecycle,
/// and the handlers registered on it, in registration order. Handlers for
/// one buffer fire in the order they were registered; ordering across
/// buffers is whatever the native scheduler provides and is not stated.
#[derive(Debug)]
pub struct CommandBuffer {
    queue: CmdQueue,
    status_field: Status,
    scheduled_handlers: Vec<u64>,
    completion_handlers: Vec<u64>,
}

impl CommandBuffer {
    pub closed spec fn status_spec(&self) -> Status {
        self.status_field
    }

    pub closed spec fn queue_spec(&self) -> CmdQueue {
        self.queue
    }

    /// The scheduled handlers not yet fired, in registration order.
    pub closed spec fn scheduled_handlers_spec(&self) -> Seq<u64> {
        self.scheduled_handlers@
    }

    /// The completion handlers not yet fired, in registration order.
    pub closed spec fn completion_handlers_spec(&self) -> Seq<u64> {
        self.completion_handlers@
    }

    /// A fresh command buffer of a queue, not yet enqueued.
    pub fn new(queue: CmdQueue) -> (b: CommandBuffer)
        ensures
            b.queue_spec() == queue,
            b.status_spec() == Status::NotEnqueued,
            b.scheduled_handlers_spec() =~= Seq::<u64>::empty(),
            b.completion_handlers_spec() =~= Seq::<u64>::empty(),
    {
        CommandBuffer {
            queue,
            status_field: Status::NotEnqueued,
            scheduled_handlers: Vec::new(),
            completion_handlers: Vec::new(),
        }
    }

    /// The queue this buffer belongs to.
    pub fn command_queue(&self) -> (r: &CmdQueue)
        ensures
            r == self.queue_spec(),
    {
        &self.queue
    }

    pub fn status(&self) -> (r: Status)
        ensures
            r == self.status_spec(),
    {
        self.status_field
    }

    /// Reserve this buffer's place in its queue's submission order.
    pub fn enqueue(&mut self)
        requires
            old(self).status_spec() == Status::NotEnqueued,
        ensures
            final(self).status_spec() == Status::Enqueued,
            final(self).queue_spec() == old(self).queue_spec(),
            final(self).scheduled_handlers_spec() == old(self).scheduled_handlers_spec(),
            final(self).completion_handlers_spec() == old(self).completion_handlers_spec(),
    {
        self.status_field = Status::Enqueued;
    }

    /// Hand the buffer to the scheduler. No further handlers can be
    /// registered after this.
    pub fn commit(&mut self)
        requires
            old(self).status_spec() == Status::NotEnqueued || old(self).status_spec()
                == Status::Enqueued,
        ensures
            final(self).status_spec() == Status::Committed,
            final(self).queue_spec() == old(self).queue_spec(),
            final(self).scheduled_handlers_spec() == old(self).scheduled_handlers_spec(),
            final(self).completion_handlers_spec() == old(self).completion_handlers_spec(),
    {
        self.status_field = Status::Committed;
    }

    /// Register a handler to fire when the buffer is scheduled. Handlers of
    /// one buffer fire in registration order.
    pub fn add_scheduled_handler(&mut self, handler: u64)
        requires
            old(self).status_spec() == Status::NotEnqueued || old(self).status_spec()
                == Status::Enqueued,
            old(self).scheduled_handlers_spec().len() < usize::MAX,
        ensures
            final(self).scheduled_handlers_spec() == old(self).scheduled_handlers_spec().push(
                handler,
            ),
            final(self).status_spec() == old(self).status_spec(),
            final(self).queue_spec() == old(self).queue_spec(),
            final(self).completion_handlers_spec() == old(self).completion_handlers_spec(),
    {
        self.scheduled_handlers.push(handler);
    }

    /// Register a handler to fire when the buffer completes. Handlers of
    /// one buffer fire in registration order.
    pub fn add_completion_handler(&mut self, handler: u64)
        requires
            old(self).status_spec() == Status::NotEnqueued || old(self).status_spec()
                == Status::Enqueued,
            old(self).completion_handlers_spec().len() < usize::MAX,
        ensures
            final(self).completion_handlers_spec() == old(self).completion_handlers_spec().push(
                handler,
            ),
            final(self).status_spec() == old(self).status_spec(),
            final(self).queue_spec() == old(self).queue_spec(),
            final(self).scheduled_handlers_spec() == old(self).scheduled_handlers_spec(),
    {
        self.completion_handlers.push(handler);
    }

    /// Block the calling thread until the buffer is scheduled — a
    /// deliberate blocking point — and yield the scheduled handlers that
    /// fired, in the order they were registered. Waiting on a buffer that is
    /// already scheduled or completed returns at once, with nothing left to
    /// fire.
    pub fn wait_untint_scheduled(&mut self) -> (fired: Vec<u64>)
        requires
            old(self).status_spec() == Status::Committed || old(self).status_spec()
                == Status::Scheduled || old(self).status_spec() == Status::Completed,
        ensures
            final(self).status_spec() == if old(self).status_spec() == Status::Committed {
                Status::Scheduled
            } else {
                old(self).status_spec()
            },
            fired@ == old(self).scheduled_handlers_spec(),
            final(self).scheduled_handlers_spec() =~= Seq::<u64>::empty(),
            final(self).queue_spec() == old(self).queue_spec(),
            final(self).completion_handlers_spec() == old(self).completion_handlers_spec(),
    {
        if self.status_field == Status::Committed {
            self.status_field = Status::Scheduled;
        }
        let mut fired: Vec<u64> = Vec::new();
        core::mem::swap(&mut fired, &mut self.scheduled_handlers);
        fired
    }

    /// Block the calling thread until the buffer has completed — a
    /// deliberate blocking point — and yield the handlers that fired, in
    /// firing order. Completion passes through scheduling, so any scheduled
    /// handlers still queued fire first, then the completion handlers, each
    /// list in the order it was registered. Waiting on a completed buffer
    /// returns at once, with nothing left to fire.
    pub fn wait_until_completed(&mut self) -> (fired: Vec<u64>)
        requires
            old(self).status_spec() == Status::Committed || old(self).status_spec()
                == Status::Scheduled || old(self).status_spec() == Status::Completed,
        ensures
            final(self).status_spec() == Status::Completed,
            fired@ == old(self).scheduled_handlers_spec() + old(self).completion_handlers_spec(),
            final(self).scheduled_handlers_spec() =~= Seq::<u64>::empty(),
            final(self).completion_handlers_spec() =~= Seq::<u64>::empty(),
            final(self).queue_spec() == old(self).queue_spec(),
    {
        self.status_field = Status::Completed;
        let mut fired: Vec<u64> = Vec::new();
        core::mem::swap(&mut fired, &mut self.scheduled_handlers);
        let mut completions: Vec<u64> = Vec::new();
        core::mem::swap(&mut completions, &mut self.completion_handlers);
        let mut i: usize = 0;
        while i < completions.len()
            invariant
                0 <= i <= completions@.len(),
                fired@ == old(self).scheduled_handlers_spec() + completions@.take(i as int),
                completions@ == old(self).completion_handlers_spec(),
            decreases completions@.len() - i,
        {
            fired.push(completions[i]);
            proof {
                assert(completions@.take(i as int).push(completions@[i as int]) =~= completions@
                    .take(i as int + 1));
                assert(old(self).scheduled_handlers_spec() + completions@.take(i as int + 1)
                    =~= (old(self).scheduled_handlers_spec() + completions@.take(i as int)).push(
                    completions@[i as int],
                ));
            }
            i = i + 1;
        }
        proof {
            assert(completions@.take(completions@.len() as int) =~= completions@);
        }
        fired
    }

    /// An encoder for copy passes: available until the buffer is committed.
    pub fn blit_command_encoder(&self) -> (r: Option<BlitCommandEncoder>)
        ensures
            r is Some <==> (self.status_spec() == Status::NotEnqueued || self.status_spec()
                == Status::Enqueued),
    {
        match self.status_field {
            Status::NotEnqueued => Some(BlitCommandEncoder {  }),
            Status::Enqueued => Some(BlitCommandEncoder {  }),
            _ => None,
        }
    }

    /// An encoder for compute passes: available until the buffer is
    /// committed.
    pub fn compute_command_encoder(&self) -> (r: Option<ComputeCommandEncoder>)
        ensures
            r is Some <==> (self.status_spec() == Status::NotEnqueued || self.status_spec()
                == Status::Enqueued),
    {
        match self.status_field {
            Status::NotEnqueued => Some(ComputeCommandEncoder {  }),
            Status::Enqueued => Some(ComputeCommandEncoder {  }),
            _ => None,
        }
    }
}

} // verus!
