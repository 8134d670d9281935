//! The channel substrate: tokio's mpsc queues and tokio-util's cancellation
//! scopes, declared opaquely and reached only through the trusted items here.
//! A channel is shared mutable state, so nothing is claimed about its
//! contents; the contracts state only how each call's outcome relates to its
//! arguments. FIFO delivery and the capacity bound are tokio's documented
//! behaviour and are relied on, not proved.

use vstd::prelude::*;
use tokio::sync::mpsc::Receiver;
use tokio::sync::mpsc::Sender;
use tokio::sync::mpsc::UnboundedReceiver;
use tokio::sync::mpsc::UnboundedSender;
use tokio_util::sync::CancellationToken;

verus! {

/// tokio's bounded mpsc sender, opaque to the verifier.
#[verifier::external_type_specification]
#[verifier::external_body]
#[verifier::reject_recursive_types(T)]
pub struct ExSender<T>(Sender<T>);

/// tokio's bounded mpsc receiver, opaque to the verifier.
#[verifier::external_type_specification]
#[verifier::external_body]
#[verifier::reject_recursive_types(T)]
pub struct ExReceiver<T>(Receiver<T>);

/// tokio's unbounded mpsc sender, opaque to the verifier.
#[verifier::external_type_specification]
#[verifier::external_body]
#[verifier::reject_recursive_types(T)]
pub struct ExUnboundedSender<T>(UnboundedSender<T>);

/// tokio's unbounded mpsc receiver, opaque to the verifier.
#[verifier::external_type_specification]
#[verifier::external_body]
#[verifier::reject_recursive_types(T)]
pub struct ExUnboundedReceiver<T>(UnboundedReceiver<T>);

/// tokio-util's hierarchical cancellation scope, opaque to the verifier.
#[verifier::external_type_specification]
#[verifier::external_body]
pub struct ExCancellationToken(CancellationToken);

/// The outcome of a non-blocking send into a bounded queue.
pub enum SendOutcome<T> {
    /// The value was placed into the queue.
    Sent,
    /// The queue was full; the value is handed back.
    Full(T),
    /// The receiver half was dropped; the value is handed back.
    Closed(T),
}

/// The outcome of a non-blocking receive.
pub enum RecvOutcome<T> {
    /// The next queued value.
    Got(T),
    /// The queue was empty but senders remain.
    Empty,
    /// The queue was empty and every sender was dropped.
    Closed,
}

/// Relies on tokio::sync::mpsc::channel: a fresh FIFO queue of the given
/// capacity, returning its single producer handle and its consumer handle.
/// tokio panics on capacity zero and on capacities above its semaphore's
/// permit bound (an eighth of the address space), so both are excluded.
#[verifier::external_body]
pub(crate) fn bounded_pair<T>(capacity: usize) -> (Sender<T>, Receiver<T>)
    requires
        1 <= capacity <= usize::MAX / 8,
{
    tokio::sync::mpsc::channel(capacity)
}

/// Relies on tokio::sync::mpsc::unbounded_channel: a fresh unbounded FIFO
/// queue.
#[verifier::external_body]
pub(crate) fn unbounded_pair<T>() -> (UnboundedSender<T>, UnboundedReceiver<T>) {
    tokio::sync::mpsc::unbounded_channel()
}

/// Relies on tokio's UnboundedSender::send: succeeds unless the receiver half
/// was dropped, in which case the value is handed back.
#[verifier::external_body]
pub(crate) fn send_unbounded<T>(tx: &UnboundedSender<T>, value: T) -> (r: Result<(), T>)
    ensures
        r is Err ==> r->Err_0 == value,
{
    match tx.send(value) {
        Ok(()) => Ok(()),
        Err(tokio::sync::mpsc::error::SendError(v)) => Err(v),
    }
}

/// Relies on tokio's Sender::try_send: places the value into the queue unless
/// the queue is full or the receiver half was dropped; in either failure the
/// value is handed back.
#[verifier::external_body]
pub(crate) fn try_send_bounded<T>(tx: &Sender<T>, value: T) -> (r: SendOutcome<T>)
    ensures
        r is Full ==> r->Full_0 == value,
        r is Closed ==> r->Closed_0 == value,
{
    match tx.try_send(value) {
        Ok(()) => SendOutcome::Sent,
        Err(tokio::sync::mpsc::error::TrySendError::Full(v)) => SendOutcome::Full(v),
        Err(tokio::sync::mpsc::error::TrySendError::Closed(v)) => SendOutcome::Closed(v),
    }
}

/// Relies on tokio's Receiver::try_recv: the next queued value, or which of
/// the two empty conditions holds.
#[verifier::external_body]
pub(crate) fn try_recv_bounded<T>(rx: &mut Receiver<T>) -> (r: RecvOutcome<T>) {
    match rx.try_recv() {
        Ok(v) => RecvOutcome::Got(v),
        Err(tokio::sync::mpsc::error::TryRecvError::Empty) => RecvOutcome::Empty,
        Err(tokio::sync::mpsc::error::TryRecvError::Disconnected) => RecvOutcome::Closed,
    }
}

/// Relies on tokio's UnboundedReceiver::try_recv: the next queued value, or
/// which of the two empty conditions holds.
#[verifier::external_body]
pub(crate) fn try_recv_unbounded<T>(rx: &mut UnboundedReceiver<T>) -> (r: RecvOutcome<T>) {
    match rx.try_recv() {
        Ok(v) => RecvOutcome::Got(v),
        Err(tokio::sync::mpsc::error::TryRecvError::Empty) => RecvOutcome::Empty,
        Err(tokio::sync::mpsc::error::TryRecvError::Disconnected) => RecvOutcome::Closed,
    }
}

/// Relies on tokio's UnboundedSender::clone: another producer handle for the
/// same queue.
#[verifier::external_body]
pub(crate) fn clone_unbounded_sender<T>(tx: &UnboundedSender<T>) -> (r: UnboundedSender<T>) {
    tx.clone()
}

/// Relies on tokio's Sender::clone: another producer handle for the same
/// queue.
#[verifier::external_body]
pub(crate) fn clone_bounded_sender<T>(tx: &Sender<T>) -> (r: Sender<T>) {
    tx.clone()
}

/// Relies on tokio_util's CancellationToken::new: a fresh, untriggered root
/// cancellation scope.
pub assume_specification[ CancellationToken::new ]() -> (r: CancellationToken);

/// Relies on tokio_util's CancellationToken::child_token: a child scope that
/// is cancelled whenever this one is.
pub assume_specification[ CancellationToken::child_token ](t: &CancellationToken) -> (r:
    CancellationToken);

/// Relies on tokio_util's CancellationToken::cancel: triggers this scope and
/// every child scope.
pub assume_specification[ CancellationToken::cancel ](t: &CancellationToken);


} // verus!
