//! The tokio handles that the library carries, declared so that they can
//! stand in fields and signatures, with one trusted wrapper per tokio (or
//! std) function that the verified code calls on them. Their contents stay
//! opaque.
use std::sync::Arc;
use vstd::prelude::*;

verus! {

/// `tokio::net::TcpStream`, carried as an opaque handle.
#[verifier::external_type_specification]
#[verifier::external_body]
pub struct ExTcpStream(tokio::net::TcpStream);

/// `tokio::sync::Mutex`, carried as an opaque handle.
#[verifier::external_type_specification]
#[verifier::external_body]
#[verifier::reject_recursive_types(T)]
pub struct ExMutex<T: ?Sized>(tokio::sync::Mutex<T>);

/// `tokio::sync::Notify`, carried as an opaque handle.
#[verifier::external_type_specification]
#[verifier::external_body]
pub struct ExNotify(tokio::sync::Notify);

/// `tokio::sync::oneshot::Sender`, carried as an opaque handle.
#[verifier::external_type_specification]
#[verifier::external_body]
#[verifier::reject_recursive_types(T)]
pub struct ExOneshotSender<T>(tokio::sync::oneshot::Sender<T>);

/// `tokio::sync::oneshot::Receiver`, carried as an opaque handle.
#[verifier::external_type_specification]
#[verifier::external_body]
#[verifier::reject_recursive_types(T)]
pub struct ExOneshotReceiver<T>(tokio::sync::oneshot::Receiver<T>);

/// `tokio::sync::oneshot::error::RecvError`, which a receiver resolves to
/// when its sender is gone; declared because the receiver's type mentions it.
#[verifier::external_type_specification]
#[verifier::external_body]
pub struct ExOneshotRecvError(tokio::sync::oneshot::error::RecvError);

/// `tokio::sync::mpsc::Sender`, carried as an opaque handle.
#[verifier::external_type_specification]
#[verifier::external_body]
#[verifier::reject_recursive_types(T)]
pub struct ExMpscSender<T>(tokio::sync::mpsc::Sender<T>);

/// Wraps `tokio::sync::Notify::new`: a notifier that holds no permit.
/// Its permit state is not stated: it changes as tasks wait and notify,
/// outside what Verus sees.
#[verifier::external_body]
pub(crate) fn new_notify() -> tokio::sync::Notify {
    tokio::sync::Notify::new()
}

/// The sending end of a cancel channel, with the identity of the channel it
/// belongs to.
pub struct CancelSender {
    pub inner: tokio::sync::oneshot::Sender<()>,
    pub channel: Ghost<int>,
}

/// The receiving end of a cancel channel, with the identity of the channel
/// it belongs to.
pub struct CancelReceiver {
    pub inner: tokio::sync::oneshot::Receiver<()>,
    pub channel: Ghost<int>,
}

/// Wraps `tokio::sync::oneshot::channel`: the two ends of one fresh
/// single-use channel, which the source creates together around one shared
/// slot. The contract states that they belong to the same channel.
#[verifier::external_body]
pub(crate) fn cancel_channel() -> (r: (CancelSender, CancelReceiver))
    ensures
        r.0.channel@ == r.1.channel@,
{
    let (tx, rx) = tokio::sync::oneshot::channel();
    (CancelSender { inner: tx, channel: Ghost(0int) }, CancelReceiver { inner: rx, channel: Ghost(0int) })
}

/// Wraps `Clone::clone` on `tokio::sync::mpsc::Sender`: another handle on the
/// same channel. That it reaches the same channel is not stated: the
/// handles are opaque to Verus.
#[verifier::external_body]
pub(crate) fn clone_mpsc_sender<T>(sender: &tokio::sync::mpsc::Sender<T>) -> tokio::sync::mpsc::Sender<T> {
    sender.clone()
}

/// Wraps `Clone::clone` on `std::sync::Arc` (std): another pointer to the
/// same allocation, which Verus models as the same value.
#[verifier::external_body]
pub(crate) fn share<T>(a: &Arc<T>) -> (r: Arc<T>)
    ensures
        r == *a,
{
    a.clone()
}

} // verus!
