//! The boundary to the channel primitives.
//!
//! Everything in this file that is marked `external_body` is believed, not
//! proved. What another task does to a channel between two calls cannot be
//! known here, so the contracts below promise only what holds of every
//! outcome: which value a call hands back, and the one outcome that a
//! sender's own state rules out. That state is kept in the sender's type: a
//! readiness check turns an [`IdleSender`] into a [`ClearedSender`], a
//! submission turns it back, and no other code can make either. A receiver
//! is kept in the same way: closing turns an [`OpenReceiver`] into a
//! [`ClosedReceiver`], and nothing turns it back.

use core::future::Future;
use core::pin::Pin;
use core::task::Context;
use core::task::Poll;
use tokio::sync::mpsc::error::TrySendError;
use vstd::prelude::*;

verus! {

/// The sending half of a bounded channel. Opaque to the verifier.
#[verifier::external_type_specification]
#[verifier::external_body]
#[verifier::reject_recursive_types(T)]
pub struct ExSender<T>(tokio::sync::mpsc::Sender<T>);

/// The receiving half of a bounded channel. Opaque to the verifier.
#[verifier::external_type_specification]
#[verifier::external_body]
#[verifier::reject_recursive_types(T)]
pub struct ExReceiver<T>(tokio::sync::mpsc::Receiver<T>);

/// The firing half of a one-shot signal. Opaque to the verifier.
#[verifier::external_type_specification]
#[verifier::external_body]
#[verifier::reject_recursive_types(T)]
pub struct ExSignalSender<T>(tokio::sync::oneshot::Sender<T>);

/// The observing half of a one-shot signal. Opaque to the verifier.
#[verifier::external_type_specification]
#[verifier::external_body]
#[verifier::reject_recursive_types(T)]
pub struct ExSignalReceiver<T>(tokio::sync::oneshot::Receiver<T>);

/// What awaiting an abandoned signal yields. Opaque to the verifier; named
/// here because the observing half is a future with this in its output.
#[verifier::external_type_specification]
#[verifier::external_body]
pub struct ExSignalLost(tokio::sync::oneshot::error::RecvError);

/// The task context that carries the waker. Opaque to the verifier.
#[verifier::external_type_specification]
#[verifier::external_body]
pub struct ExContext<'a>(core::task::Context<'a>);

/// A channel sender that holds no claim on the channel. Only this file can
/// make one or reach the sender inside.
#[verifier::reject_recursive_types(T)]
pub struct IdleSender<T> {
    inner: tokio::sync::mpsc::Sender<T>,
}

/// A channel sender whose next submission cannot find the channel full:
/// either a slot is reserved for it, or the receiving side is closed for
/// good. Only the readiness check in this file makes one, and a submission
/// uses it up.
#[verifier::reject_recursive_types(T)]
pub struct ClearedSender<T> {
    inner: tokio::sync::mpsc::Sender<T>,
}

/// A channel receiver that this crate has not closed. Only this file can make
/// one or reach the receiver inside.
#[verifier::reject_recursive_types(T)]
pub struct OpenReceiver<T> {
    inner: tokio::sync::mpsc::Receiver<T>,
}

/// A channel receiver that has been closed: nothing new can be sent to it,
/// and what is buffered can still be pulled. Only the closing call in this
/// file makes one, out of an open one.
#[verifier::reject_recursive_types(T)]
pub struct ClosedReceiver<T> {
    inner: tokio::sync::mpsc::Receiver<T>,
}

/// What a channel answered when it was asked for a slot, with the sender in
/// the state that the answer left it in.
#[verifier::reject_recursive_types(T)]
pub enum Polled<T> {
    /// A slot is reserved for the next item.
    Reserved(ClearedSender<T>),
    /// The receiving side is closed.
    Closed(ClearedSender<T>),
    /// No answer yet; the caller's waker has been registered.
    Waiting(IdleSender<T>),
}

/// Whether a submission may follow.
#[derive(Clone, Copy, Debug, PartialEq, Eq)]
pub enum Readiness {
    /// The next submission will not wait.
    Ready,
    /// The channel is full; the caller's waker has been registered.
    Pending,
}

/// What became of an item that was offered to a channel without waiting.
#[derive(Debug, PartialEq, Eq)]
pub enum SendOutcome<T> {
    /// The channel owns the item now.
    Sent,
    /// No slot was free; the item comes back.
    Full(T),
    /// The receiving side is closed; the item comes back.
    Closed(T),
}

/// What one attempt to take an item from a channel gave.
#[derive(Debug, PartialEq, Eq)]
pub enum Pull<T> {
    /// The next item, in the order in which the items were sent.
    Item(T),
    /// Nothing is buffered yet; the caller's waker has been registered.
    Pending,
    /// Nothing is buffered and nothing can arrive any more.
    Exhausted,
}

/// What one look at a one-shot signal gave.
#[derive(Clone, Copy, Debug, PartialEq, Eq)]
pub enum Signal {
    /// Not fired yet; the caller's waker has been registered.
    Quiet,
    /// The firing half sent the signal.
    Fired,
    /// The firing half was dropped without sending.
    Abandoned,
}

impl<T> IdleSender<T> {
    /// The sender inside.
    pub closed spec fn sender(&self) -> tokio::sync::mpsc::Sender<T> {
        self.inner
    }

    /// Takes a sender in. Whatever it may have reserved before is not
    /// counted on.
    pub(crate) fn new(sender: tokio::sync::mpsc::Sender<T>) -> (idle: Self)
        ensures
            idle.sender() == sender,
    {
        IdleSender { inner: sender }
    }
}

impl<T> ClearedSender<T> {
    /// The sender inside.
    pub closed spec fn sender(&self) -> tokio::sync::mpsc::Sender<T> {
        self.inner
    }
}

impl<T> OpenReceiver<T> {
    /// The receiver inside.
    pub closed spec fn receiver(&self) -> tokio::sync::mpsc::Receiver<T> {
        self.inner
    }

    /// Takes a receiver in.
    pub(crate) fn new(receiver: tokio::sync::mpsc::Receiver<T>) -> (open: Self)
        ensures
            open.receiver() == receiver,
    {
        OpenReceiver { inner: receiver }
    }

    /// One attempt to take the next item.
    pub(crate) fn poll(&mut self, cx: &mut Context<'_>) -> (pull: Pull<T>) {
        receiver_poll_recv(&mut self.inner, cx)
    }
}

impl<T> ClosedReceiver<T> {
    /// The receiver inside.
    pub closed spec fn receiver(&self) -> tokio::sync::mpsc::Receiver<T> {
        self.inner
    }

    /// One attempt to take the next item of those that were buffered.
    pub(crate) fn poll(&mut self, cx: &mut Context<'_>) -> (pull: Pull<T>) {
        receiver_poll_recv(&mut self.inner, cx)
    }
}

impl<T> Pull<T> {
    /// A log of pulled items after this pull: one item longer if the pull
    /// gave an item, unchanged otherwise.
    pub open spec fn appended_to(self, log: Seq<T>) -> Seq<T> {
        match self {
            Pull::Item(item) => log.push(item),
            Pull::Pending => log,
            Pull::Exhausted => log,
        }
    }
}

impl<T> SendOutcome<T> {
    /// The item that came back, if one did.
    pub open spec fn returned(self) -> Option<T> {
        match self {
            SendOutcome::Sent => None,
            SendOutcome::Full(item) => Some(item),
            SendOutcome::Closed(item) => Some(item),
        }
    }
}

/// `tokio::sync::mpsc::Sender::poll_ready`: asks the channel for one slot.
/// Which answer comes depends on the other side of the channel, so nothing is
/// claimed of it. The sender comes back cleared exactly in the two arms in
/// which the channel answered that a slot is reserved or that the receiving
/// side is closed.
#[verifier::external_body]
pub(crate) fn sender_poll_ready<T>(idle: IdleSender<T>, cx: &mut Context<'_>) -> (polled: Polled<
    T,
>) {
    let mut sender = idle.inner;
    match sender.poll_ready(cx) {
        Poll::Ready(Ok(())) => Polled::Reserved(ClearedSender { inner: sender }),
        Poll::Ready(Err(_)) => Polled::Closed(ClearedSender { inner: sender }),
        Poll::Pending => Polled::Waiting(IdleSender { inner: sender }),
    }
}

/// `tokio::sync::mpsc::Sender::try_send`: offers the item without waiting.
/// Claimed: an item that is not taken comes back as it was given, and the
/// channel is never found full. The second holds because the sender is a
/// cleared one: after the answer that a slot is reserved, the outside code
/// sends on the reserved slot without asking for another; after the answer
/// that the receiving side is closed, it finds the channel closed before it
/// looks for a slot, and a closed channel stays closed. Whether the item is
/// taken is not claimed.
#[verifier::external_body]
pub(crate) fn sender_try_send<T>(cleared: ClearedSender<T>, item: T) -> (sent: (
    SendOutcome<T>,
    IdleSender<T>,
))
    ensures
        !(sent.0 is Full),
        sent.0.returned() matches Some(back) ==> back == item,
{
    let mut sender = cleared.inner;
    let outcome = match sender.try_send(item) {
        Ok(()) => SendOutcome::Sent,
        Err(TrySendError::Full(back)) => SendOutcome::Full(back),
        Err(TrySendError::Closed(back)) => SendOutcome::Closed(back),
    };
    (outcome, IdleSender { inner: sender })
}

/// `tokio::sync::mpsc::Receiver::poll_recv`: takes the next buffered item if
/// there is one. Nothing is claimed of the answer.
#[verifier::external_body]
fn receiver_poll_recv<T>(
    receiver: &mut tokio::sync::mpsc::Receiver<T>,
    cx: &mut Context<'_>,
) -> (pull: Pull<T>) {
    match receiver.poll_recv(cx) {
        Poll::Ready(Some(item)) => Pull::Item(item),
        Poll::Ready(None) => Pull::Exhausted,
        Poll::Pending => Pull::Pending,
    }
}

/// `tokio::sync::mpsc::Receiver::close`: refuses further sends and keeps what
/// is buffered. The outside call returns nothing. The receiver comes back as
/// a closed one, and this is the only place that makes one, so whoever holds
/// a closed receiver holds one on which this call was made.
#[verifier::external_body]
pub(crate) fn receiver_close<T>(open: OpenReceiver<T>) -> (closed: ClosedReceiver<T>) {
    let mut receiver = open.inner;
    receiver.close();
    ClosedReceiver { inner: receiver }
}

/// `tokio::sync::oneshot::channel`: a fresh signal, not fired and not yet
/// looked at. The two halves are opaque, and nothing is claimed of them.
#[verifier::external_body]
pub(crate) fn signal_pair() -> (halves: (
    tokio::sync::oneshot::Sender<()>,
    tokio::sync::oneshot::Receiver<()>,
)) {
    tokio::sync::oneshot::channel()
}

/// `tokio::sync::oneshot::Sender::send`: fires the signal and uses up the
/// firing half. The answer tells whether an observing half was still there;
/// that depends on the other side, so nothing is claimed of it.
#[verifier::external_body]
pub(crate) fn signal_send(firing: tokio::sync::oneshot::Sender<()>) -> (delivered: bool) {
    firing.send(()).is_ok()
}

/// `Future::poll` of `tokio::sync::oneshot::Receiver`: one look at the
/// signal. Which of the three answers comes is not claimed. Claimed: the
/// observing half comes back exactly when the signal is still quiet. The
/// outside code panics when a half that has completed is polled again; the
/// half is taken by value here and handed back only while it is quiet, and
/// the only halves this crate ever holds come from `signal_pair` or from
/// here, so a completed one is never looked at.
#[verifier::external_body]
pub(crate) fn signal_poll(
    watch: tokio::sync::oneshot::Receiver<()>,
    cx: &mut Context<'_>,
) -> (seen: (Signal, Option<tokio::sync::oneshot::Receiver<()>>))
    ensures
        seen.1 is Some <==> seen.0 is Quiet,
{
    let mut watch = watch;
    match Pin::new(&mut watch).poll(cx) {
        Poll::Pending => (Signal::Quiet, Some(watch)),
        Poll::Ready(Ok(())) => (Signal::Fired, None),
        Poll::Ready(Err(_)) => (Signal::Abandoned, None),
    }
}

} // verus!
