//! The channel endpoints the runtime is wired with: the dispatch channel
//! that carries command envelopes to the loop, the registration channel
//! that carries new observers to it, and the tick channels the loop
//! notifies observers on.
//!
//! The channels come from an outside crate; what is stated of them here is
//! what that crate's source shows, and no more. A message another context
//! sent may arrive at any receive, so no receive promises which value
//! comes back.

use vstd::prelude::*;
use crossbeam_channel::{Receiver, SendError, Sender};

verus! {

#[verifier::external_type_specification]
#[verifier::external_body]
#[verifier::reject_recursive_types(T)]
pub struct ExSender<T>(Sender<T>);

#[verifier::external_type_specification]
#[verifier::external_body]
#[verifier::reject_recursive_types(T)]
pub struct ExReceiver<T>(Receiver<T>);

#[verifier::external_type_specification]
pub struct ExSendError<T>(SendError<T>);

/// Relies on crossbeam_channel::unbounded: a fresh channel of unbounded
/// capacity, its two endpoints connected to each other.
pub assume_specification<T>[ crossbeam_channel::unbounded::<T> ]() -> (r: (Sender<T>, Receiver<T>));

/// Relies on crossbeam_channel::Sender::send: on an unbounded channel the
/// send never blocks; it fails exactly when every receiver was dropped,
/// and the error hands the unsent message back.
pub assume_specification<T>[ Sender::<T>::send ](s: &Sender<T>, msg: T) -> (r: Result<
    (),
    SendError<T>,
>)
    ensures
        r matches Err(e) ==> e.0 == msg,
;

/// What one receive attempt yielded.
pub enum ChannelPoll<T> {
    /// A message was waiting (or arrived in time).
    Msg(T),
    /// Nothing arrived: the channel was empty, or the wait timed out.
    Empty,
    /// The channel is empty and every sender was dropped.
    Closed,
}

/// Relies on crossbeam_channel::Receiver::try_recv: returns a waiting
/// message without blocking, `Empty` when none waits, `Closed` when the
/// channel is empty and every sender was dropped.
#[verifier::external_body]
pub(crate) fn channel_try_recv<T>(rx: &Receiver<T>) -> ChannelPoll<T> {
    match rx.try_recv() {
        Ok(v) => ChannelPoll::Msg(v),
        Err(crossbeam_channel::TryRecvError::Empty) => ChannelPoll::Empty,
        Err(crossbeam_channel::TryRecvError::Disconnected) => ChannelPoll::Closed,
    }
}

/// Relies on crossbeam_channel::Receiver::recv: blocks until a message
/// arrives (`Some`) or the channel is empty with every sender dropped
/// (`None`).
#[verifier::external_body]
pub(crate) fn channel_recv<T>(rx: &Receiver<T>) -> Option<T> {
    rx.recv().ok()
}

/// Relies on crossbeam_channel::Receiver::recv_timeout: blocks for at
/// most the given number of milliseconds; `Empty` stands for a timeout.
#[verifier::external_body]
pub(crate) fn channel_recv_timeout<T>(rx: &Receiver<T>, timeout_ms: u64) -> ChannelPoll<T> {
    match rx.recv_timeout(std::time::Duration::from_millis(timeout_ms)) {
        Ok(v) => ChannelPoll::Msg(v),
        Err(crossbeam_channel::RecvTimeoutError::Timeout) => ChannelPoll::Empty,
        Err(crossbeam_channel::RecvTimeoutError::Disconnected) => ChannelPoll::Closed,
    }
}

} // verus!
