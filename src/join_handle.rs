use vstd::prelude::*;


use crate::error::CorosError;

verus! {

/// Relies on std::sync::mpsc::Receiver::recv: blocks until a value arrives,
/// and gives `None` once every sender is gone and nothing is left to receive.
#[verifier::external_body]
pub(crate) fn receive<T>(rx: &std::sync::mpsc::Receiver<T>) -> (r: Option<T>) {
    rx.recv().ok()
}

/// What a join returns for what came over the result channel: the
/// coroutine's own result, or `RecvError` when the channel closed empty.
pub fn joined_result<T>(received: Option<Result<T, CorosError>>) -> (r: Result<T, CorosError>)
    ensures
        received is None ==> r == Err::<T, CorosError>(CorosError::RecvError),
        received matches Some(x) ==> r == x,
{
    match received {
        Some(x) => x,
        None => Err(CorosError::RecvError),
    }
}

/// The host's handle on one spawned coroutine's result, which it may take
/// once. A handle dropped without a join leaves the result in its channel,
/// where it is dropped with the channel.
#[verifier::reject_recursive_types(T)]
pub struct JoinHandle<T> {
    coroutine_result_rx: std::sync::mpsc::Receiver<Result<T, CorosError>>,
    pub is_joined: bool,
}

impl<T> JoinHandle<T> {
    pub closed spec fn joined(&self) -> bool {
        self.is_joined
    }

    pub fn new(coroutine_result_rx: std::sync::mpsc::Receiver<Result<T, CorosError>>) -> (h: JoinHandle<T>)
        ensures
            !h.joined(),
    {
        JoinHandle { coroutine_result_rx, is_joined: false }
    }

    /// Waits for the coroutine's result: its value, or `CoroutinePanic` when
    /// its body panicked. Every join after the first gives
    /// `CoroutineAlreadyJoined`.
    pub fn join(&mut self) -> (r: Result<T, CorosError>)
        ensures
            final(self).joined(),
            old(self).joined() ==> r == Err::<T, CorosError>(CorosError::CoroutineAlreadyJoined),
    {
        if self.is_joined {
            return Err(CorosError::CoroutineAlreadyJoined);
        }
        self.is_joined = true;
        joined_result(receive(&self.coroutine_result_rx))
    }
}

} // verus!
