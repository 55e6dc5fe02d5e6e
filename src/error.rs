use vstd::prelude::*;

verus! {

/// Everything that can go wrong in the runtime: misuse by the host, exhausted
/// resources, broken internal protocol, failures of the outside collaborators,
/// a panicking coroutine body, and the aggregate of a failed shutdown.
#[derive(Debug, PartialEq, Eq)]
pub enum CorosError {
    CannotStartPoolWithoutSchedulers,
    CoroutineAlreadyJoined,
    CoroutineBlockedOnIoAwokenForNotIo,
    CoroutineBlockSendError,
    CoroutineIdsExhausted,
    CoroutineChannelSendError,
    CoroutinePanic,
    InvalidCoroutineContext,
    InvalidCoroutineNoCallback,
    InvalidCoroutineNoContext,
    InvalidCoroutineSlabContents,
    InvalidCoroutineState,
    InvalidPoolNoSchedulerResultReceiver,
    InvalidThreadForSpawn(u32, u32),
    MioIoError,
    MioTimerError,
    MioNotifyError,
    MissingCoroutine,
    RecvError,
    SendIoResultToCoroutineError,
    SlabFullError,
    ThreadPoolReadLockPoisoned,
    ThreadPoolWriteLockPoisoned,
    TriedToSpawnCoroutineOnShutdownThread,
    TryRecvError,
    UnableToReceiveThreadShutdownResult,
    UnableToSendThreadShutdownSignal,
    UncleanShutdown(Vec<CorosError>),
    WorkStealerMutexPoisoned,
}

impl CorosError {
    /// The human-readable text of each kind of error.
    pub open spec fn spec_description(&self) -> &'static str {
        match *self {
            CorosError::CannotStartPoolWithoutSchedulers => "Cannot start pool without schedulers",
            CorosError::CoroutineAlreadyJoined => "Coroutine has already been joined",
            CorosError::CoroutineBlockedOnIoAwokenForNotIo => "Coroutine was blocked on IO but awoken for not IO",
            CorosError::CoroutineBlockSendError => "Cannot send message to block coroutine",
            CorosError::CoroutineIdsExhausted => "Pool has no coroutine identities left",
            CorosError::CoroutineChannelSendError => "Cannot send message via channel to a finished coroutine",
            CorosError::CoroutinePanic => "Coroutine body panicked",
            CorosError::InvalidCoroutineContext => "Coroutine execution context could not be prepared",
            CorosError::InvalidCoroutineNoCallback => "Coroutine in invalid state, has no execution callback",
            CorosError::InvalidCoroutineNoContext => "Coroutine attempting to run in invalid state, has no execution context",
            CorosError::InvalidCoroutineSlabContents => "Invalid coroutine slab contents",
            CorosError::InvalidCoroutineState => "Coroutine is in a state that does not allow this step",
            CorosError::InvalidPoolNoSchedulerResultReceiver => "Pool has no receiver for scheduler results",
            CorosError::InvalidThreadForSpawn(_, _) => "Index of thread for coroutine spawn greater then thread count",
            CorosError::MioIoError => "Reactor IO error",
            CorosError::MioTimerError => "Reactor timer error",
            CorosError::MioNotifyError => "Reactor notification error",
            CorosError::MissingCoroutine => "Attempting to fetch missing coroutine from suspension",
            CorosError::RecvError => "Receiving on a closed channel",
            CorosError::SendIoResultToCoroutineError => "Error sending IO result to coroutine",
            CorosError::SlabFullError => "Error attempting to insert a suspended coroutine into a full slab",
            CorosError::ThreadPoolReadLockPoisoned => "Pool's thread pool read lock poisoned",
            CorosError::ThreadPoolWriteLockPoisoned => "Pool's thread pool write lock poisoned",
            CorosError::TriedToSpawnCoroutineOnShutdownThread => "Pool tried to spawn coroutine onto a native thread that is shutdown",
            CorosError::TryRecvError => "Receiving work from a closed channel",
            CorosError::UnableToReceiveThreadShutdownResult => "Unable to receive a native thread's shutdown result",
            CorosError::UnableToSendThreadShutdownSignal => "Error sending shutdown message to native thread",
            CorosError::UncleanShutdown(_) => "Unable to shutdown all native threads",
            CorosError::WorkStealerMutexPoisoned => "Thread scheduler work stealer mutex poisoned",
        }
    }

    pub fn description(&self) -> (r: &'static str)
        ensures
            r == self.spec_description(),
    {
        match self {
            CorosError::CannotStartPoolWithoutSchedulers => "Cannot start pool without schedulers",
            CorosError::CoroutineAlreadyJoined => "Coroutine has already been joined",
            CorosError::CoroutineBlockedOnIoAwokenForNotIo => "Coroutine was blocked on IO but awoken for not IO",
            CorosError::CoroutineBlockSendError => "Cannot send message to block coroutine",
            CorosError::CoroutineIdsExhausted => "Pool has no coroutine identities left",
            CorosError::CoroutineChannelSendError => "Cannot send message via channel to a finished coroutine",
            CorosError::CoroutinePanic => "Coroutine body panicked",
            CorosError::InvalidCoroutineContext => "Coroutine execution context could not be prepared",
            CorosError::InvalidCoroutineNoCallback => "Coroutine in invalid state, has no execution callback",
            CorosError::InvalidCoroutineNoContext => "Coroutine attempting to run in invalid state, has no execution context",
            CorosError::InvalidCoroutineSlabContents => "Invalid coroutine slab contents",
            CorosError::InvalidCoroutineState => "Coroutine is in a state that does not allow this step",
            CorosError::InvalidPoolNoSchedulerResultReceiver => "Pool has no receiver for scheduler results",
            CorosError::InvalidThreadForSpawn(_, _) => "Index of thread for coroutine spawn greater then thread count",
            CorosError::MioIoError => "Reactor IO error",
            CorosError::MioTimerError => "Reactor timer error",
            CorosError::MioNotifyError => "Reactor notification error",
            CorosError::MissingCoroutine => "Attempting to fetch missing coroutine from suspension",
            CorosError::RecvError => "Receiving on a closed channel",
            CorosError::SendIoResultToCoroutineError => "Error sending IO result to coroutine",
            CorosError::SlabFullError => "Error attempting to insert a suspended coroutine into a full slab",
            CorosError::ThreadPoolReadLockPoisoned => "Pool's thread pool read lock poisoned",
            CorosError::ThreadPoolWriteLockPoisoned => "Pool's thread pool write lock poisoned",
            CorosError::TriedToSpawnCoroutineOnShutdownThread => "Pool tried to spawn coroutine onto a native thread that is shutdown",
            CorosError::TryRecvError => "Receiving work from a closed channel",
            CorosError::UnableToReceiveThreadShutdownResult => "Unable to receive a native thread's shutdown result",
            CorosError::UnableToSendThreadShutdownSignal => "Error sending shutdown message to native thread",
            CorosError::UncleanShutdown(_) => "Unable to shutdown all native threads",
            CorosError::WorkStealerMutexPoisoned => "Thread scheduler work stealer mutex poisoned",
        }
    }
}

} // verus!
