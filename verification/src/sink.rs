//! The adapter that drives a bounded channel's sender through the four
//! operations of a push consumer: readiness, submission, flush and close.
//!
//! The adapter buffers nothing. Its model is the sender it holds, the
//! sequence of items that the channel has accepted through it, in the order
//! of the calls, and whether a readiness check has cleared the way for the
//! next submission.

use crate::channel::sender_poll_ready;
use crate::channel::sender_try_send;
use crate::channel::ClearedSender;
use crate::channel::IdleSender;
use crate::channel::Polled;
use crate::channel::Readiness;
use crate::channel::SendOutcome;
use core::task::Context;
use vstd::prelude::*;

verus! {

/// Why a submitted item was not accepted. There is one reason, and the item
/// is handed back with it.
#[derive(Debug, PartialEq, Eq)]
pub enum SubmitError<T> {
    /// The receiving side is closed.
    Closed(T),
}

impl<T> SubmitError<T> {
    /// The item that was refused.
    pub open spec fn item(self) -> T {
        match self {
            SubmitError::Closed(item) => item,
        }
    }

    /// Takes the refused item back out of the error.
    pub fn into_item(self) -> (item: T)
        ensures
            item == self.item(),
    {
        match self {
            SubmitError::Closed(item) => item,
        }
    }
}

/// The answer of a readiness check, for each thing the channel can say when
/// it is asked for a slot: a reserved slot gives `Ready`, waiting gives
/// `Pending`. A closed receiver gives `Ready` too: readiness does not fail,
/// and the submission that follows reports the closed receiver.
pub open spec fn readiness_for<T>(polled: Polled<T>) -> Readiness {
    match polled {
        Polled::Reserved(_) => Readiness::Ready,
        Polled::Closed(_) => Readiness::Ready,
        Polled::Waiting(_) => Readiness::Pending,
    }
}

/// Turns what the channel said into the answer of a readiness check.
pub fn readiness_of<T>(polled: &Polled<T>) -> (answer: Readiness)
    ensures
        answer == readiness_for(*polled),
{
    match polled {
        Polled::Reserved(_) => Readiness::Ready,
        Polled::Closed(_) => Readiness::Ready,
        Polled::Waiting(_) => Readiness::Pending,
    }
}

/// The result of a submission, for each outcome that a cleared sender can
/// report.
pub open spec fn submit_result_of<T>(outcome: SendOutcome<T>) -> Result<(), SubmitError<T>>
    recommends
        !(outcome is Full),
{
    match outcome {
        SendOutcome::Sent => Ok(()),
        SendOutcome::Closed(item) => Err(SubmitError::Closed(item)),
        SendOutcome::Full(_) => arbitrary(),
    }
}

/// Turns what the channel reported into the result of a submission: a closed
/// receiver becomes the error that carries the item. A full channel is no
/// outcome of a submission that followed a readiness check.
pub fn submit_result<T>(outcome: SendOutcome<T>) -> (result: Result<(), SubmitError<T>>)
    requires
        !(outcome is Full),
    ensures
        result == submit_result_of(outcome),
{
    match outcome {
        SendOutcome::Sent => Ok(()),
        SendOutcome::Closed(item) => Err(SubmitError::Closed(item)),
        SendOutcome::Full(_) => unreached(),
    }
}

/// A channel sender behind the push-consumer operations.
#[verifier::reject_recursive_types(T)]
pub struct Pipeline<T> {
    idle: Option<IdleSender<T>>,
    cleared: Option<ClearedSender<T>>,
    accepted: Ghost<Seq<T>>,
}

impl<T> Pipeline<T> {
    /// The sender this adapter holds.
    pub closed spec fn sender(&self) -> tokio::sync::mpsc::Sender<T> {
        match self.cleared {
            Some(cleared) => cleared.sender(),
            None => self.idle->0.sender(),
        }
    }

    /// The items the channel has accepted through this adapter, oldest first.
    pub closed spec fn accepted(&self) -> Seq<T> {
        self.accepted@
    }

    /// Whether the last readiness check cleared the way for a submission that
    /// has not been made yet.
    pub closed spec fn ready(&self) -> bool {
        self.cleared is Some
    }

    /// What every adapter satisfies: it holds its one sender, either idle or
    /// cleared.
    pub closed spec fn inv(&self) -> bool {
        self.idle is Some <==> self.cleared is None
    }

    /// Wraps a sender: the adapter holds exactly this sender and nothing
    /// else. Nothing is asked of the channel, nothing has been accepted, and
    /// the way is not cleared.
    pub fn new(inner: tokio::sync::mpsc::Sender<T>) -> (pipeline: Self)
        ensures
            pipeline.inv(),
            pipeline.sender() == inner,
            pipeline.accepted() == Seq::<T>::empty(),
            !pipeline.ready(),
    {
        Pipeline { idle: Some(IdleSender::new(inner)), cleared: None, accepted: Ghost(Seq::empty()) }
    }

    /// Whether a submission may follow.
    pub fn is_ready(&self) -> (ready: bool)
        ensures
            ready == self.ready(),
    {
        self.cleared.is_some()
    }

    /// Asks whether a submission may follow. Readiness does not fail: the
    /// answer is `Ready` or `Pending`. An adapter whose way is cleared
    /// answers `Ready` at once and keeps its sender as it is. Otherwise the
    /// channel is asked once, and the answer is what [`readiness_of`] makes
    /// of what it said. The way is cleared afterwards if and only if the
    /// answer is `Ready`. Nothing enters the channel.
    pub fn poll_ready(&mut self, cx: &mut Context<'_>) -> (answer: Readiness)
        requires
            old(self).inv(),
        ensures
            final(self).inv(),
            final(self).ready() == (answer is Ready),
            old(self).ready() ==> answer is Ready && final(self).sender() == old(self).sender(),
            final(self).accepted() == old(self).accepted(),
    {
        match self.idle.take() {
            None => Readiness::Ready,
            Some(idle) => {
                let polled = sender_poll_ready(idle, cx);
                let answer = readiness_of(&polled);
                match polled {
                    Polled::Reserved(cleared) => {
                        self.cleared = Some(cleared);
                    },
                    Polled::Closed(cleared) => {
                        self.cleared = Some(cleared);
                    },
                    Polled::Waiting(idle) => {
                        self.idle = Some(idle);
                    },
                }
                answer
            },
        }
    }

    /// Submits one item on the cleared way, without waiting. Either the
    /// channel accepts it, and it becomes the newest accepted item, or the
    /// receiving side is closed, and the item comes back inside the one error
    /// there is, with nothing accepted. The clearance is used up either way.
    pub fn start_send(&mut self, item: T) -> (result: Result<(), SubmitError<T>>)
        requires
            old(self).inv(),
            old(self).ready(),
        ensures
            final(self).inv(),
            !final(self).ready(),
            result is Ok ==> final(self).accepted() == old(self).accepted().push(item),
            result is Err ==> result == Err::<(), SubmitError<T>>(SubmitError::Closed(item))
                && final(self).accepted() == old(self).accepted(),
    {
        let ghost offered = item;
        let cleared = self.cleared.take().unwrap();
        let (outcome, idle) = sender_try_send(cleared, item);
        self.idle = Some(idle);
        let result = submit_result(outcome);
        if result.is_ok() {
            self.accepted = Ghost(self.accepted@.push(offered));
        }
        result
    }

    /// Flushing has nothing to do: the adapter holds no item of its own. It
    /// completes at once and changes nothing.
    pub fn poll_flush(&mut self, _cx: &mut Context<'_>) -> (answer: Readiness)
        ensures
            answer is Ready,
            *final(self) == *old(self),
    {
        Readiness::Ready
    }

    /// Closing has nothing to do: the channel learns that this side is done
    /// when the adapter is dropped. It completes at once and changes nothing.
    pub fn poll_close(&mut self, _cx: &mut Context<'_>) -> (answer: Readiness)
        ensures
            answer is Ready,
            *final(self) == *old(self),
    {
        Readiness::Ready
    }
}

} // verus!
