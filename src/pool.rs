use vstd::prelude::*;

use deque::{Stealer, Worker};
use rand::Rng;

use crate::channel::{std_channel, std_send};
use crate::error::CorosError;
use crate::parked::Parked;
use crate::scheduler::Scheduler;
use crate::state::{Coroutine, CoroutineState};

verus! {

/// Relies on rand::Rng::gen_range over the thread-local generator: a number
/// drawn from `0..bound`, which must not be empty.
#[verifier::external_body]
fn random_below(bound: u32) -> (r: u32)
    requires
        bound > 0,
    ensures
        r < bound,
{
    rand::thread_rng().gen_range(0..bound)
}

/// The pool's own bookkeeping: how many workers it has, whether they run, and
/// the identity that the next spawned coroutine gets.
pub struct PoolState {
    pub is_running: bool,
    pub thread_count: u32,
    pub next_coroutine_id: u64,
}

impl PoolState {
    /// A stopped pool of `thread_count` workers; a pool needs at least one.
    pub fn new(thread_count: u32) -> (r: Result<PoolState, CorosError>)
        ensures
            thread_count == 0 <==> r is Err,
            r is Err ==> r == Err::<PoolState, CorosError>(CorosError::CannotStartPoolWithoutSchedulers),
            r matches Ok(p) ==> !p.is_running && p.thread_count == thread_count && p.next_coroutine_id == 0,
    {
        if thread_count == 0 {
            return Err(CorosError::CannotStartPoolWithoutSchedulers);
        }
        Ok(PoolState { is_running: false, thread_count, next_coroutine_id: 0 })
    }

    /// Checks that `thread_index` names one of the pool's workers.
    pub fn thread_for_spawn(&self, thread_index: u32) -> (r: Result<usize, CorosError>)
        ensures
            thread_index < self.thread_count ==> r == Ok::<usize, CorosError>(thread_index as usize),
            thread_index >= self.thread_count ==> r == Err::<usize, CorosError>(
                CorosError::InvalidThreadForSpawn(thread_index, self.thread_count),
            ),
    {
        if thread_index < self.thread_count {
            Ok(thread_index as usize)
        } else {
            Err(CorosError::InvalidThreadForSpawn(thread_index, self.thread_count))
        }
    }

    /// Picks a worker uniformly at random.
    pub fn random_thread(&self) -> (r: Result<usize, CorosError>)
        ensures
            self.thread_count > 0 ==> (r matches Ok(i) && i < self.thread_count),
            self.thread_count == 0 ==> r == Err::<usize, CorosError>(CorosError::InvalidThreadForSpawn(0, 0)),
    {
        if self.thread_count == 0 {
            return Err(CorosError::InvalidThreadForSpawn(0, 0));
        }
        let i = random_below(self.thread_count);
        Ok(i as usize)
    }

    /// Makes the control block of a newly spawned coroutine, with an identity
    /// that no earlier spawn of this pool had.
    pub fn new_coroutine(&mut self) -> (r: Result<Coroutine, CorosError>)
        ensures
            final(self).is_running == old(self).is_running,
            final(self).thread_count == old(self).thread_count,
            old(self).next_coroutine_id < u64::MAX ==> {
                &&& r matches Ok(c) && c.id == old(self).next_coroutine_id
                    && c.state == CoroutineState::New && c.intent is None
                &&& final(self).next_coroutine_id == old(self).next_coroutine_id + 1
            },
            old(self).next_coroutine_id == u64::MAX ==> r == Err::<Coroutine, CorosError>(CorosError::CoroutineIdsExhausted)
                && final(self).next_coroutine_id == old(self).next_coroutine_id,
    {
        if self.next_coroutine_id == u64::MAX {
            return Err(CorosError::CoroutineIdsExhausted);
        }
        let c = Coroutine::new(self.next_coroutine_id);
        self.next_coroutine_id = self.next_coroutine_id + 1;
        Ok(c)
    }

    /// Marks the pool running. Says whether the workers must be launched:
    /// starting a running pool does nothing.
    pub fn start(&mut self) -> (launch: bool)
        ensures
            launch == !old(self).is_running,
            *final(self) == (PoolState { is_running: true, ..*old(self) }),
    {
        if self.is_running {
            return false;
        }
        self.is_running = true;
        true
    }

    /// Marks the pool stopped. Says whether the workers must be shut down:
    /// stopping a stopped pool does nothing.
    pub fn stop(&mut self) -> (shut_down: bool)
        ensures
            shut_down == old(self).is_running,
            *final(self) == (PoolState { is_running: false, ..*old(self) }),
    {
        if !self.is_running {
            return false;
        }
        self.is_running = false;
        true
    }
}

/// The errors among the workers' terminal results, in order.
pub open spec fn worker_errors(results: Seq<Result<(), CorosError>>) -> Seq<CorosError>
    decreases results.len(),
{
    if results.len() == 0 {
        Seq::empty()
    } else {
        let rest = worker_errors(results.drop_last());
        match results.last() {
            Ok(_) => rest,
            Err(e) => rest.push(e),
        }
    }
}

/// The outcome of stopping the pool: the failures met while signalling the
/// workers, then each worker's failure; clean only when there are none.
pub fn shutdown_outcome(errors: Vec<CorosError>, results: Vec<Result<(), CorosError>>) -> (r: Result<(), CorosError>)
    ensures
        errors@ + worker_errors(results@) == Seq::<CorosError>::empty() ==> r is Ok,
        errors@ + worker_errors(results@) != Seq::<CorosError>::empty() ==> (r matches Err(CorosError::UncleanShutdown(all))
            && all@ == errors@ + worker_errors(results@)),
{
    let ghost all_results = results@;
    let mut errors = errors;
    let mut results = results;
    let ghost start = errors@;
    let mut k: usize = 0;
    let total = results.len();
    while results.len() > 0
        invariant
            all_results.len() == total,
            k + results@.len() == all_results.len(),
            results@ == all_results.subrange(k as int, all_results.len() as int),
            errors@ == start + worker_errors(all_results.subrange(0, k as int)),
        decreases results@.len(),
    {
        let next = results.remove(0);
        proof {
            let done = all_results.subrange(0, k as int + 1);
            assert(done.drop_last() =~= all_results.subrange(0, k as int));
            assert(done.last() == next);
        }
        match next {
            Ok(()) => {},
            Err(e) => errors.push(e),
        }
        k = k + 1;
        proof {
            assert(errors@ =~= start + worker_errors(all_results.subrange(0, k as int)));
        }
    }
    assert(all_results.subrange(0, k as int) =~= all_results);
    if errors.len() == 0 {
        assert(errors@ =~= Seq::<CorosError>::empty());
        Ok(())
    } else {
        Err(CorosError::UncleanShutdown(errors))
    }
}

} // verus!

verus! {

/// Relies on deque::new: the owner's end and a stealing end of a new, empty
/// run queue.
#[verifier::external_body]
fn new_queue() -> (r: (Worker<Coroutine>, Stealer<Coroutine>)) {
    deque::new()
}

/// Relies on Clone for deque::Stealer: another stealing end of the same queue.
#[verifier::external_body]
fn clone_stealer(stealer: &Stealer<Coroutine>) -> (r: Stealer<Coroutine>) {
    stealer.clone()
}

/// The pool's link to one worker: its shutdown signal, its mailbox for new
/// coroutines, and its scheduler until the worker thread takes it.
pub struct SchedulerHandle {
    pub shutdown_tx: std::sync::mpsc::Sender<()>,
    pub work_tx: std::sync::mpsc::Sender<Coroutine>,
    pub scheduler: Option<Scheduler>,
}

impl SchedulerHandle {
    /// Holds a fresh scheduler: nothing parked, no shutdown seen, and a
    /// stealer for each of the other workers of a pool of `thread_count`.
    pub open spec fn ready_to_start(&self, thread_count: u32) -> bool {
        &&& self.scheduler is Some
        &&& self.scheduler->Some_0.wf()
        &&& self.scheduler->Some_0.parked() == Map::<usize, Parked>::empty()
        &&& !self.scheduler->Some_0.shutting_down()
        &&& self.scheduler->Some_0.stealer_count() == thread_count - 1
    }
}

/// The stealing ends of every queue but the one at `own`.
fn stealers_except(stealers: &Vec<Stealer<Coroutine>>, own: usize) -> (r: Vec<Stealer<Coroutine>>)
    requires
        own < stealers@.len(),
    ensures
        r@.len() == stealers@.len() - 1,
{
    let mut r: Vec<Stealer<Coroutine>> = Vec::new();
    let mut j: usize = 0;
    while j < stealers.len()
        invariant
            j <= stealers@.len(),
            own < stealers@.len(),
            r@.len() == if j <= own { j as int } else { j - 1 },
        decreases stealers@.len() - j,
    {
        if j != own {
            r.push(clone_stealer(&stealers[j]));
        }
        j = j + 1;
    }
    r
}

/// One scheduler per worker, each with its own run queue and mailboxes and
/// able to steal from every other worker's queue.
pub fn create_scheduler_handles(thread_count: u32) -> (r: Vec<SchedulerHandle>)
    ensures
        r@.len() == thread_count,
        forall|i: int| 0 <= i < r@.len() ==> #[trigger] r@[i].ready_to_start(thread_count),
{
    let n = thread_count as usize;
    let mut workers: Vec<Worker<Coroutine>> = Vec::new();
    let mut stealers: Vec<Stealer<Coroutine>> = Vec::new();
    let mut i: usize = 0;
    while i < n
        invariant
            i <= n,
            n == thread_count,
            workers@.len() == i,
            stealers@.len() == i,
        decreases n - i,
    {
        let (worker, stealer) = new_queue();
        workers.push(worker);
        stealers.push(stealer);
        i = i + 1;
    }
    let mut handles: Vec<SchedulerHandle> = Vec::new();
    let mut k: usize = 0;
    while k < n
        invariant
            k <= n,
            n == thread_count,
            stealers@.len() == n,
            workers@.len() == n - k,
            handles@.len() == k,
            forall|i: int| 0 <= i < handles@.len() ==> #[trigger] handles@[i].ready_to_start(thread_count),
        decreases n - k,
    {
        let worker = workers.remove(0);
        let (shutdown_tx, shutdown_rx) = std_channel::<()>();
        let (work_tx, work_rx) = std_channel::<Coroutine>();
        let scheduler = Scheduler::new(shutdown_rx, worker, work_rx, stealers_except(&stealers, k));
        handles.push(SchedulerHandle { shutdown_tx, work_tx, scheduler: Some(scheduler) });
        k = k + 1;
    }
    handles
}

/// Sends each worker its shutdown signal; one error for each worker that
/// could not be told.
pub fn signal_shutdown(handles: &Vec<SchedulerHandle>) -> (r: Vec<CorosError>)
    ensures
        r@.len() <= handles@.len(),
        forall|i: int| 0 <= i < r@.len() ==> #[trigger] r@[i] == CorosError::UnableToSendThreadShutdownSignal,
{
    let mut errors: Vec<CorosError> = Vec::new();
    let mut i: usize = 0;
    while i < handles.len()
        invariant
            i <= handles@.len(),
            errors@.len() <= i,
            forall|j: int| 0 <= j < errors@.len() ==> #[trigger] errors@[j] == CorosError::UnableToSendThreadShutdownSignal,
        decreases handles@.len() - i,
    {
        if !std_send(&handles[i].shutdown_tx, ()) {
            errors.push(CorosError::UnableToSendThreadShutdownSignal);
        }
        i = i + 1;
    }
    errors
}

/// Hands a new coroutine to a worker's mailbox; a worker that has shut down
/// refuses it.
pub fn send_work(handle: &SchedulerHandle, coroutine: Coroutine) -> (r: Result<(), CorosError>)
    ensures
        r is Err ==> r == Err::<(), CorosError>(CorosError::TriedToSpawnCoroutineOnShutdownThread),
{
    if std_send(&handle.work_tx, coroutine) {
        Ok(())
    } else {
        Err(CorosError::TriedToSpawnCoroutineOnShutdownThread)
    }
}

} // verus!
