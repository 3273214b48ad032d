use vstd::prelude::*;

verus! {

/// Size in bytes of the zero-filled buffer that clears and fills copy from.
pub const ZERO_BUFFER_SIZE: usize = 262144;

/// Why a device could not be opened.
#[derive(Debug, Clone, Copy, PartialEq, Eq, Structural)]
pub enum DeviceError {
    OutOfMemory,
}

/// The native objects that opening a device creates, in order.
#[derive(Debug, Clone, Copy, PartialEq, Eq, Structural)]
pub enum OpenStep {
    /// The vertex array that stays bound for the context's lifetime.
    VertexArray,
    /// The zero-filled buffer.
    ZeroBuffer,
    /// The framebuffer that draws attach to.
    DrawFramebuffer,
    /// The framebuffer that copies go through.
    CopyFramebuffer,
}

/// What to do next while opening a device.
#[derive(Debug, Clone, Copy, PartialEq, Eq, Structural)]
pub enum OpenAction {
    /// Create this object and report whether that worked.
    Create(OpenStep),
    /// All objects exist: hand out the device and queue.
    Finish,
    /// A creation failed: delete the objects created so far, the first
    /// `n` of the order, and report the error.
    Rollback(usize),
}

/// The number of objects that opening a device creates.
pub const OPEN_STEPS: usize = 4;

pub open spec fn step_at(i: int) -> OpenStep {
    if i == 0 {
        OpenStep::VertexArray
    } else if i == 1 {
        OpenStep::ZeroBuffer
    } else if i == 2 {
        OpenStep::DrawFramebuffer
    } else {
        OpenStep::CopyFramebuffer
    }
}

/// Progress of opening a device: how many objects exist, and whether a
/// creation failed.
#[derive(Debug, Clone, Copy, PartialEq, Eq, Structural)]
pub struct OpenProgress {
    pub created: usize,
    pub failed: bool,
}

impl OpenProgress {
    pub open spec fn wf(&self) -> bool {
        self.created <= OPEN_STEPS
    }

    /// The action that a state calls for.
    pub open spec fn action_of(&self) -> OpenAction {
        if self.failed {
            OpenAction::Rollback(self.created)
        } else if self.created < OPEN_STEPS {
            OpenAction::Create(step_at(self.created as int))
        } else {
            OpenAction::Finish
        }
    }

    /// Nothing created yet.
    pub fn new() -> (r: OpenProgress)
        ensures
            r.wf(),
            r.created == 0,
            !r.failed,
    {
        OpenProgress { created: 0, failed: false }
    }

    /// The next thing to do.
    pub fn next_action(&self) -> (r: OpenAction)
        requires
            self.wf(),
        ensures
            r == self.action_of(),
    {
        if self.failed {
            OpenAction::Rollback(self.created)
        } else if self.created < OPEN_STEPS {
            let step = if self.created == 0 {
                OpenStep::VertexArray
            } else if self.created == 1 {
                OpenStep::ZeroBuffer
            } else if self.created == 2 {
                OpenStep::DrawFramebuffer
            } else {
                OpenStep::CopyFramebuffer
            };
            OpenAction::Create(step)
        } else {
            OpenAction::Finish
        }
    }

    /// Takes in whether the creation that `next_action` asked for worked.
    pub fn record(&mut self, ok: bool)
        requires
            old(self).wf(),
            !old(self).failed,
            old(self).created < OPEN_STEPS,
        ensures
            final(self).wf(),
            ok ==> final(self).created == old(self).created + 1 && !final(self).failed,
            !ok ==> final(self).created == old(self).created && final(self).failed,
    {
        if ok {
            self.created = self.created + 1;
        } else {
            self.failed = true;
        }
    }

    /// The outcome once the process has ended: `Ok` only when every object
    /// was created.
    pub fn outcome(&self) -> (r: Result<(), DeviceError>)
        requires
            self.wf(),
        ensures
            r is Ok <==> (!self.failed && self.created == OPEN_STEPS),
    {
        if !self.failed && self.created == OPEN_STEPS {
            Ok(())
        } else {
            Err(DeviceError::OutOfMemory)
        }
    }
}

} // verus!
