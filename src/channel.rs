use vstd::prelude::*;

use mio::deprecated::Sender as ReactorSender;
use mio::Token;

use crate::error::CorosError;
use crate::join_handle::receive;

verus! {

#[verifier::external_type_specification]
#[verifier::external_body]
#[verifier::reject_recursive_types(T)]
pub struct ExStdSender<T>(std::sync::mpsc::Sender<T>);

#[verifier::external_type_specification]
#[verifier::external_body]
#[verifier::reject_recursive_types(M)]
pub struct ExReactorSender<M>(ReactorSender<M>);

#[verifier::external_type_specification]
#[verifier::external_body]
pub struct ExToken(Token);

/// Relies on std::sync::mpsc::channel: a connected sender and receiver.
#[verifier::external_body]
pub(crate) fn std_channel<T>() -> (r: (std::sync::mpsc::Sender<T>, std::sync::mpsc::Receiver<T>)) {
    std::sync::mpsc::channel()
}

/// Relies on std::sync::mpsc::Sender::send: `false` when the receiver is gone.
#[verifier::external_body]
pub(crate) fn std_send<T>(tx: &std::sync::mpsc::Sender<T>, value: T) -> (r: bool) {
    tx.send(value).is_ok()
}

/// Relies on mio::deprecated::Sender::send: hands a token to the reactor of a
/// parked receiver's worker; `false` when its queue is full or gone.
#[verifier::external_body]
fn wake_token(tx: &ReactorSender<Token>, token: usize) -> (r: bool) {
    tx.send(Token(token)).is_ok()
}

/// A pending receive: the way to wake the parked receiver, and the token it
/// is parked under.
pub struct BlockedMessage {
    pub mio_tx: ReactorSender<Token>,
    pub token: usize,
}

/// The sending half of a rendezvous channel. A send waits for a pending
/// receive, wakes that receiver, then delivers the message.
#[verifier::reject_recursive_types(M)]
pub struct Sender<M> {
    blocked_message_rx: std::sync::mpsc::Receiver<BlockedMessage>,
    user_message_tx: std::sync::mpsc::Sender<M>,
}

impl<M> Sender<M> {
    /// Fails with `RecvError` when no receiver can ever block again,
    /// `MioNotifyError` when the receiver's worker cannot be woken, and
    /// `CoroutineChannelSendError` when the receiving half is gone.
    pub fn send(&self, message: M) -> (r: Result<(), CorosError>)
        ensures
            r is Err ==> r == Err::<(), CorosError>(CorosError::RecvError)
                || r == Err::<(), CorosError>(CorosError::MioNotifyError)
                || r == Err::<(), CorosError>(CorosError::CoroutineChannelSendError),
    {
        let blocked_message = match receive(&self.blocked_message_rx) {
            Some(b) => b,
            None => return Err(CorosError::RecvError),
        };
        if !wake_token(&blocked_message.mio_tx, blocked_message.token) {
            return Err(CorosError::MioNotifyError);
        }
        if !std_send(&self.user_message_tx, message) {
            return Err(CorosError::CoroutineChannelSendError);
        }
        Ok(())
    }
}

/// The receiving half of a rendezvous channel. A coroutine receives through
/// its blocking handle, which files a pending receive on `blocked_message_tx`
/// and parks until a sender wakes it.
#[verifier::reject_recursive_types(M)]
pub struct Receiver<M> {
    pub blocked_message_tx: std::sync::mpsc::Sender<BlockedMessage>,
    user_message_rx: std::sync::mpsc::Receiver<M>,
}

impl<M> Receiver<M> {
    /// Blocks the calling thread until a message comes; `RecvError` when the
    /// sending half is gone.
    pub fn recv(&self) -> (r: Result<M, CorosError>)
        ensures
            r is Err ==> r == Err::<M, CorosError>(CorosError::RecvError),
    {
        match receive(&self.user_message_rx) {
            Some(m) => Ok(m),
            None => Err(CorosError::RecvError),
        }
    }
}

/// A connected pair of rendezvous channel halves.
pub fn new<M>() -> (r: (Sender<M>, Receiver<M>)) {
    let (blocked_message_tx, blocked_message_rx) = std_channel::<BlockedMessage>();
    let (user_message_tx, user_message_rx) = std_channel::<M>();
    (
        Sender { blocked_message_rx, user_message_tx },
        Receiver { blocked_message_tx, user_message_rx },
    )
}

} // verus!
