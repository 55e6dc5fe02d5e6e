use vstd::prelude::*;

use crate::error::CorosError;

verus! {

/// Where a coroutine is in its life cycle.
#[derive(Debug, Clone, Copy, PartialEq, Eq, Structural)]
pub enum CoroutineState {
    New,
    Running,
    Blocked,
    Terminated,
}

/// What a coroutine asked its scheduler to arrange before it yielded: the
/// parking step that the scheduler performs once the coroutine is off its stack.
#[derive(Debug, Clone, Copy, PartialEq, Eq, Structural)]
pub enum Intent {
    /// Set a timer that fires after `ms` milliseconds.
    Sleep { ms: u64 },
    /// Hand a wake ticket to a channel's sender.
    Recv,
    /// Register an I/O handle and wait for its readiness.
    Register,
    /// Re-register an I/O handle and wait for its readiness.
    Reregister,
    /// Deregister an I/O handle and set an immediate timer.
    Deregister,
}

impl Intent {
    /// A park for this intent waits for I/O readiness and has a reply slot.
    pub open spec fn spec_awaits_readiness(self) -> bool {
        self is Register || self is Reregister
    }

    pub fn awaits_readiness(&self) -> (r: bool)
        ensures
            r == self.spec_awaits_readiness(),
    {
        match self {
            Intent::Register | Intent::Reregister => true,
            _ => false,
        }
    }
}

/// The verified part of a coroutine's control block: its identity, its state
/// and the parking intent recorded by the blocking handle.
#[derive(Debug)]
pub struct Coroutine {
    pub id: u64,
    pub state: CoroutineState,
    pub intent: Option<Intent>,
}

impl Coroutine {
    /// May be resumed: fresh, or woken after a park whose intent was consumed.
    pub open spec fn runnable(self) -> bool {
        &&& (self.state == CoroutineState::New || self.state == CoroutineState::Blocked)
        &&& self.intent is None
    }

    pub fn is_runnable(&self) -> (r: bool)
        ensures
            r == self.runnable(),
    {
        let fresh = match self.state {
            CoroutineState::New | CoroutineState::Blocked => true,
            _ => false,
        };
        fresh && self.intent.is_none()
    }

    pub fn new(id: u64) -> (c: Coroutine)
        ensures
            c.id == id,
            c.state == CoroutineState::New,
            c.intent is None,
    {
        Coroutine { id, state: CoroutineState::New, intent: None }
    }

    /// Marks the coroutine as running, just before the switch onto its stack.
    /// Only a runnable coroutine may be run.
    pub fn run(&mut self) -> (r: Result<(), CorosError>)
        ensures
            r is Ok <==> old(self).runnable(),
            r is Ok ==> *final(self) == (Coroutine { state: CoroutineState::Running, ..*old(self) }),
            r is Err ==> r == Err::<(), CorosError>(CorosError::InvalidCoroutineState)
                && *final(self) == *old(self),
    {
        if self.is_runnable() {
            self.state = CoroutineState::Running;
            Ok(())
        } else {
            Err(CorosError::InvalidCoroutineState)
        }
    }

    /// The blocking handle's first two steps: mark the coroutine blocked and
    /// record the parking intent, before yielding to the scheduler.
    pub fn block(&mut self, intent: Intent)
        requires
            old(self).state == CoroutineState::Running,
        ensures
            final(self).id == old(self).id,
            final(self).state == CoroutineState::Blocked,
            final(self).intent == Some(intent),
    {
        self.state = CoroutineState::Blocked;
        self.intent = Some(intent);
    }

    /// Marks the coroutine as finished, once its body has returned.
    pub fn terminate(&mut self)
        requires
            old(self).state == CoroutineState::Running,
        ensures
            final(self).id == old(self).id,
            final(self).state == CoroutineState::Terminated,
            final(self).intent is None,
    {
        self.state = CoroutineState::Terminated;
        self.intent = None;
    }

    pub fn blocked(&self) -> (r: bool)
        ensures
            r == (self.state == CoroutineState::Blocked),
    {
        match self.state {
            CoroutineState::Blocked => true,
            _ => false,
        }
    }

    pub fn terminated(&self) -> (r: bool)
        ensures
            r == (self.state == CoroutineState::Terminated),
    {
        match self.state {
            CoroutineState::Terminated => true,
            _ => false,
        }
    }

    /// Consumes the parking intent, leaving none behind.
    pub fn take_intent(&mut self) -> (r: Option<Intent>)
        ensures
            r == old(self).intent,
            *final(self) == (Coroutine { intent: None, ..*old(self) }),
    {
        self.intent.take()
    }
}

} // verus!
