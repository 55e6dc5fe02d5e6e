use vstd::prelude::*;

use deque::{Stealer, Stolen, Worker};
use std::sync::mpsc::TryRecvError;

use crate::error::CorosError;
use crate::parked::{Parked, ParkedTable, PARKED_CAPACITY};
use crate::state::{Coroutine, CoroutineState, Intent};

verus! {

#[verifier::external_type_specification]
#[verifier::external_body]
#[verifier::reject_recursive_types(T)]
pub struct ExWorker<T: Send>(Worker<T>);

#[verifier::external_type_specification]
#[verifier::external_body]
#[verifier::reject_recursive_types(T)]
pub struct ExStealer<T: Send>(Stealer<T>);

#[verifier::external_type_specification]
#[verifier::external_body]
#[verifier::reject_recursive_types(T)]
pub struct ExReceiver<T>(std::sync::mpsc::Receiver<T>);

/// The most coroutines taken from the inbound mailbox in one loop iteration.
pub const MAX_RECEIVED_WORK_BATCH_SIZE: usize = 1024;

/// Relies on deque::Worker::push: the coroutine goes onto the owner's end of
/// the run queue. The queue is shared with stealers, so nothing is claimed of
/// its contents.
#[verifier::external_body]
fn queue_push(queue: &Worker<Coroutine>, coroutine: Coroutine) {
    queue.push(coroutine)
}

/// Relies on deque::Worker::pop: a coroutine from the owner's end, or `None`.
#[verifier::external_body]
fn queue_pop(queue: &Worker<Coroutine>) -> (r: Option<Coroutine>) {
    queue.pop()
}

/// Relies on deque::Stealer::steal: a coroutine from the far end of another
/// worker's queue; an empty queue and a lost race both give `None`.
#[verifier::external_body]
fn queue_steal(stealer: &Stealer<Coroutine>) -> (r: Option<Coroutine>) {
    match stealer.steal() {
        Stolen::Data(coroutine) => Some(coroutine),
        Stolen::Empty => None,
        Stolen::Abort => None,
    }
}

/// What one look into a mailbox found.
pub enum Polled<T> {
    Value(T),
    Empty,
    Closed,
}

/// Relies on std::sync::mpsc::Receiver::try_recv, which does not block: a
/// waiting value, or whether the mailbox is empty or closed.
#[verifier::external_body]
fn try_receive<T>(rx: &std::sync::mpsc::Receiver<T>) -> (r: Polled<T>) {
    match rx.try_recv() {
        Ok(value) => Polled::Value(value),
        Err(TryRecvError::Empty) => Polled::Empty,
        Err(TryRecvError::Disconnected) => Polled::Closed,
    }
}

/// What draining the inbound mailbox does after one look into it.
pub enum Drain {
    /// Put this newly spawned coroutine onto the run queue and look again.
    Push(Coroutine),
    /// The mailbox is empty: the batch is over.
    Stop,
    /// The mailbox is closed: the worker fails with this error.
    Fail(CorosError),
}

/// Decides what one look into the inbound mailbox means for the batch.
pub fn drain_step(polled: Polled<Coroutine>) -> (r: Drain)
    ensures
        polled matches Polled::Value(c) ==> r == Drain::Push(c),
        polled is Empty ==> r is Stop,
        polled is Closed ==> r == Drain::Fail(CorosError::TryRecvError),
{
    match polled {
        Polled::Value(c) => Drain::Push(c),
        Polled::Empty => Drain::Stop,
        Polled::Closed => Drain::Fail(CorosError::TryRecvError),
    }
}

/// What the scheduler did with a coroutine that came back from its stack.
pub enum AfterRun {
    /// Its body returned; the coroutine is dropped.
    Finished,
    /// It is parked under `token`; the reactor must be set up for `intent`.
    Parked { token: usize, intent: Intent },
    /// The parked table is full: the coroutine is handed back, runnable, and
    /// its suspension call fails with `error`.
    Refused { coroutine: Coroutine, error: CorosError },
}

/// What a reactor event did to the coroutine parked under its token.
pub enum Wake {
    /// Unparked: push it back onto the run queue; when `readiness` holds, the
    /// event's readiness is its suspension call's reply.
    Resume { coroutine: Coroutine, readiness: bool },
    /// Readiness for a coroutine that waits for something else: it stays parked.
    Stray,
}

/// The decision-making half of one worker: its parked table, its run queue and
/// the stealers of the other workers' queues, its mailboxes, and whether it has
/// been told to shut down. The worker thread drives the reactor and switches
/// stacks; the scheduler decides.
pub struct Scheduler {
    blocked_coroutines: ParkedTable,
    is_shutting_down: bool,
    shutdown_rx: std::sync::mpsc::Receiver<()>,
    work_provider: Worker<Coroutine>,
    work_rx: std::sync::mpsc::Receiver<Coroutine>,
    work_stealers: Vec<Stealer<Coroutine>>,
}

impl Scheduler {
    pub closed spec fn parked(&self) -> Map<usize, Parked> {
        self.blocked_coroutines@
    }

    pub closed spec fn shutting_down(&self) -> bool {
        self.is_shutting_down
    }

    /// How many other workers' queues this scheduler may steal from.
    pub closed spec fn stealer_count(&self) -> nat {
        self.work_stealers@.len()
    }

    pub closed spec fn wf(&self) -> bool {
        self.blocked_coroutines.wf()
    }

    pub fn new(
        shutdown_rx: std::sync::mpsc::Receiver<()>,
        work_provider: Worker<Coroutine>,
        work_rx: std::sync::mpsc::Receiver<Coroutine>,
        work_stealers: Vec<Stealer<Coroutine>>,
    ) -> (s: Scheduler)
        ensures
            s.wf(),
            s.parked() == Map::<usize, Parked>::empty(),
            !s.shutting_down(),
            s.stealer_count() == work_stealers@.len(),
    {
        Scheduler {
            blocked_coroutines: ParkedTable::new(),
            is_shutting_down: false,
            shutdown_rx,
            work_provider,
            work_rx,
            work_stealers,
        }
    }

    /// The number of parked coroutines.
    pub fn parked_count(&self) -> (n: usize)
        requires
            self.wf(),
        ensures
            n == self.parked().len(),
    {
        self.blocked_coroutines.len()
    }

    /// Records a shutdown signal, if one came, and says whether the event loop
    /// may end: shutdown was signalled and nothing is parked.
    pub fn observe_shutdown(&mut self, signalled: bool) -> (r: bool)
        requires
            old(self).wf(),
        ensures
            final(self).wf(),
            final(self).parked() == old(self).parked(),
            final(self).shutting_down() == (old(self).shutting_down() || signalled),
            r == (final(self).shutting_down() && final(self).parked() == Map::<usize, Parked>::empty()),
    {
        if signalled {
            self.is_shutting_down = true;
        }
        self.is_shutting_down && self.blocked_coroutines.is_empty()
    }

    /// Looks for a shutdown signal and says whether the event loop may end.
    pub fn ready_to_shutdown(&mut self) -> (r: bool)
        requires
            old(self).wf(),
        ensures
            final(self).wf(),
            final(self).parked() == old(self).parked(),
            old(self).shutting_down() ==> final(self).shutting_down(),
            r == (final(self).shutting_down() && final(self).parked() == Map::<usize, Parked>::empty()),
    {
        let signalled = match try_receive(&self.shutdown_rx) {
            Polled::Value(()) => true,
            Polled::Empty | Polled::Closed => false,
        };
        self.observe_shutdown(signalled)
    }

    /// Puts a runnable coroutine onto the local run queue.
    pub fn push_ready(&self, coroutine: Coroutine)
        requires
            coroutine.runnable(),
    {
        queue_push(&self.work_provider, coroutine)
    }

    /// Moves up to a batch of newly spawned coroutines from the mailbox onto
    /// the run queue, each look into the mailbox decided by `drain_step`: a
    /// waiting coroutine is pushed, an empty mailbox ends the batch, a closed
    /// one is an error. Returns how many were moved, never more than a batch.
    pub fn move_received_work_onto_queue(&self) -> (r: Result<usize, CorosError>)
        ensures
            r matches Ok(n) ==> n <= MAX_RECEIVED_WORK_BATCH_SIZE,
            r is Err ==> r == Err::<usize, CorosError>(CorosError::TryRecvError),
    {
        let mut moved: usize = 0;
        while moved < MAX_RECEIVED_WORK_BATCH_SIZE
            invariant
                moved <= MAX_RECEIVED_WORK_BATCH_SIZE,
            decreases MAX_RECEIVED_WORK_BATCH_SIZE - moved,
        {
            match drain_step(try_receive(&self.work_rx)) {
                Drain::Push(coroutine) => {
                    queue_push(&self.work_provider, coroutine);
                    moved = moved + 1;
                },
                Drain::Stop => break,
                Drain::Fail(e) => return Err(e),
            }
        }
        Ok(moved)
    }

    /// Takes the coroutine parked under `token` out of the table, for a park
    /// whose reactor registration failed: nothing would ever wake it.
    pub fn unpark(&mut self, token: usize) -> (r: Option<Coroutine>)
        requires
            old(self).wf(),
        ensures
            final(self).wf(),
            final(self).shutting_down() == old(self).shutting_down(),
            final(self).stealer_count() == old(self).stealer_count(),
            old(self).parked().dom().contains(token) ==> r == Some(old(self).parked()[token].coroutine)
                && final(self).parked() == old(self).parked().remove(token),
            !old(self).parked().dom().contains(token) ==> r is None && final(self).parked() == old(self).parked(),
    {
        match self.blocked_coroutines.unpark(token) {
            Some(parked) => Some(parked.coroutine),
            None => None,
        }
    }

    /// Takes a coroutine from the first other worker whose queue yields one.
    pub fn stolen_work(&self) -> (r: Option<Coroutine>)
        ensures
            self.stealer_count() == 0 ==> r is None,
    {
        let mut i: usize = 0;
        while i < self.work_stealers.len()
            invariant
                i <= self.work_stealers.len(),
            decreases self.work_stealers.len() - i,
        {
            if let Some(coroutine) = queue_steal(&self.work_stealers[i]) {
                return Some(coroutine);
            }
            i = i + 1;
        }
        None
    }

    /// The next coroutine to run: from the local queue, else stolen.
    pub fn next_coroutine(&self) -> (r: Option<Coroutine>) {
        match queue_pop(&self.work_provider) {
            Some(coroutine) => Some(coroutine),
            None => self.stolen_work(),
        }
    }

    /// Deals with a coroutine that has just switched back to the scheduler:
    /// a finished one is dropped; a blocked one has its intent consumed and is
    /// parked under a fresh token; anything else breaks the protocol.
    pub fn run_coroutine_finished(&mut self, coroutine: Coroutine) -> (r: Result<AfterRun, CorosError>)
        requires
            old(self).wf(),
        ensures
            final(self).wf(),
            final(self).shutting_down() == old(self).shutting_down(),
            coroutine.state == CoroutineState::Terminated ==> r is Ok && r->Ok_0 is Finished
                && final(self).parked() == old(self).parked(),
            coroutine.state == CoroutineState::New || coroutine.state == CoroutineState::Running
                ==> r == Err::<AfterRun, CorosError>(CorosError::InvalidCoroutineState)
                && final(self).parked() == old(self).parked(),
            coroutine.state == CoroutineState::Blocked && coroutine.intent is None
                ==> r == Err::<AfterRun, CorosError>(CorosError::InvalidCoroutineNoCallback)
                && final(self).parked() == old(self).parked(),
            coroutine.state == CoroutineState::Blocked && coroutine.intent is Some
                && old(self).parked().len() == PARKED_CAPACITY ==> {
                &&& r is Ok
                &&& r->Ok_0 matches AfterRun::Refused { coroutine: c, error: e }
                    && e == CorosError::SlabFullError
                    && c == (Coroutine { intent: None, ..coroutine })
                &&& final(self).parked() == old(self).parked()
            },
            coroutine.state == CoroutineState::Blocked && coroutine.intent is Some
                && old(self).parked().len() < PARKED_CAPACITY ==> {
                &&& r is Ok
                &&& r->Ok_0 matches AfterRun::Parked { token, intent }
                    && intent == coroutine.intent->Some_0
                    && !old(self).parked().dom().contains(token)
                    && final(self).parked() == old(self).parked().insert(
                        token,
                        Parked {
                            coroutine: Coroutine { intent: None, ..coroutine },
                            awaits_readiness: intent.spec_awaits_readiness(),
                        },
                    )
            },
    {
        let mut coroutine = coroutine;
        match coroutine.state {
            CoroutineState::Terminated => Ok(AfterRun::Finished),
            CoroutineState::New | CoroutineState::Running => Err(CorosError::InvalidCoroutineState),
            CoroutineState::Blocked => {
                match coroutine.take_intent() {
                    None => Err(CorosError::InvalidCoroutineNoCallback),
                    Some(intent) => {
                        let awaits_readiness = intent.awaits_readiness();
                        match self.blocked_coroutines.park(coroutine, awaits_readiness) {
                            Ok(token) => Ok(AfterRun::Parked { token, intent }),
                            Err((error, coroutine)) => Ok(AfterRun::Refused { coroutine, error }),
                        }
                    },
                }
            },
        }
    }

    /// Handles a reactor event for `token`: readiness when `readiness` holds,
    /// else a timer or a wake message. A coroutine parked for I/O is unparked
    /// by readiness only, and anything else for it breaks the protocol; one
    /// parked for anything else is unparked by a timer or a message, and stays
    /// parked on stray readiness.
    pub fn enqueue_coroutine(&mut self, token: usize, readiness: bool) -> (r: Result<Wake, CorosError>)
        requires
            old(self).wf(),
        ensures
            final(self).wf(),
            final(self).shutting_down() == old(self).shutting_down(),
            !old(self).parked().dom().contains(token) ==> r == Err::<Wake, CorosError>(CorosError::MissingCoroutine)
                && final(self).parked() == old(self).parked(),
            old(self).parked().dom().contains(token) ==> {
                let p = old(self).parked()[token];
                if p.awaits_readiness == readiness {
                    &&& r is Ok
                    &&& r->Ok_0 matches Wake::Resume { coroutine: c, readiness: ready }
                        && c == p.coroutine && ready == readiness
                    &&& resumes_runnable(r->Ok_0)
                    &&& final(self).parked() == old(self).parked().remove(token)
                } else if p.awaits_readiness {
                    &&& r == Err::<Wake, CorosError>(CorosError::CoroutineBlockedOnIoAwokenForNotIo)
                    &&& final(self).parked() == old(self).parked()
                } else {
                    &&& r is Ok
                    &&& r->Ok_0 is Stray
                    &&& final(self).parked() == old(self).parked()
                }
            },
    {
        let blocked_on_io = match self.blocked_coroutines.blocked_on_io(token) {
            Ok(b) => b,
            Err(e) => return Err(e),
        };
        if blocked_on_io == readiness {
            match self.blocked_coroutines.unpark(token) {
                Some(parked) => Ok(Wake::Resume { coroutine: parked.coroutine, readiness }),
                None => Err(CorosError::MissingCoroutine),
            }
        } else if blocked_on_io {
            Err(CorosError::CoroutineBlockedOnIoAwokenForNotIo)
        } else {
            Ok(Wake::Stray)
        }
    }
}

/// A resumed coroutine may be run again.
pub open spec fn resumes_runnable(w: Wake) -> bool {
    w matches Wake::Resume { coroutine, .. } ==> coroutine.runnable()
}

/// Every coroutine a well-formed scheduler holds parked is blocked, with its
/// parking intent already consumed, and the parked table is within capacity.
pub proof fn lemma_parked_are_blocked(s: &Scheduler)
    requires
        s.wf(),
    ensures
        s.parked().len() <= PARKED_CAPACITY,
        forall|t: usize| #[trigger] s.parked().dom().contains(t) ==> {
            &&& s.parked()[t].coroutine.state == CoroutineState::Blocked
            &&& s.parked()[t].coroutine.intent is None
        },
{
}

} // verus!
