//! The shutdown gate: a guarded pull from a channel receiver.
//!
//! Before each pull a gate looks at a one-shot signal. The first time the
//! signal is seen fired, or seen abandoned by its firing half, it closes the
//! receiver: nothing new can be sent, and what is buffered still drains. The
//! step from armed to fired happens at most once and is never undone.
//!
//! An abandoned signal counts as fired. A gate whose firing half is gone could
//! otherwise never stop on request, and a gate that nobody can stop is the
//! unguarded gate, which exists as a constructor of its own.

use crate::channel::receiver_close;
use crate::channel::signal_pair;
use crate::channel::signal_poll;
use crate::channel::signal_send;
use crate::channel::ClosedReceiver;
use crate::channel::OpenReceiver;
use crate::channel::Pull;
use crate::channel::Signal;
use core::task::Context;
use vstd::prelude::*;

verus! {

/// The two states of a gate.
#[derive(Clone, Copy, Debug, PartialEq, Eq, Structural)]
pub enum GateState {
    /// No signal has been seen; pulls pass through.
    Armed,
    /// The signal has been seen and the receiver has been closed.
    Fired,
}

impl GateState {
    /// The state after one look at the signal.
    pub open spec fn after(self, seen: Signal) -> GateState {
        match self {
            GateState::Fired => GateState::Fired,
            GateState::Armed => if seen is Quiet {
                GateState::Armed
            } else {
                GateState::Fired
            },
        }
    }

    /// Whether one look at the signal makes a gate close its receiver.
    pub open spec fn closes_on(self, seen: Signal) -> bool {
        self is Armed && !(seen is Quiet)
    }

    /// The state after a sequence of looks at the signal, taken in order.
    pub open spec fn after_all(self, seen: Seq<Signal>) -> GateState
        decreases seen.len(),
    {
        if seen.len() == 0 {
            self
        } else {
            self.after_all(seen.drop_last()).after(seen.last())
        }
    }

    /// How many times a gate closes its receiver over a sequence of looks.
    pub open spec fn closes_over(self, seen: Seq<Signal>) -> nat
        decreases seen.len(),
    {
        if seen.len() == 0 {
            0
        } else {
            self.closes_over(seen.drop_last()) + if self.after_all(seen.drop_last()).closes_on(
                seen.last(),
            ) {
                1nat
            } else {
                0nat
            }
        }
    }

    /// One transition: the next state, and whether the receiver is to be
    /// closed now. Only an armed gate that sees the signal fired or abandoned
    /// closes; a fired gate stays fired and closes nothing.
    pub fn observe(self, seen: Signal) -> (step: (GateState, bool))
        ensures
            step.0 == self.after(seen),
            step.1 == self.closes_on(seen),
    {
        match self {
            GateState::Fired => (GateState::Fired, false),
            GateState::Armed => match seen {
                Signal::Quiet => (GateState::Armed, false),
                Signal::Fired => (GateState::Fired, true),
                Signal::Abandoned => (GateState::Fired, true),
            },
        }
    }
}

/// The firing half of a gate's signal. Firing consumes it, so a signal is
/// fired at most once.
pub struct Trigger {
    inner: tokio::sync::oneshot::Sender<()>,
}

impl Trigger {
    /// Requests shutdown. Returns whether a gate was still there to hear it.
    pub fn fire(self) -> (delivered: bool) {
        signal_send(self.inner)
    }
}

/// A channel receiver behind a shutdown signal.
#[verifier::reject_recursive_types(T)]
pub struct ShutdownGate<T> {
    watch: Option<tokio::sync::oneshot::Receiver<()>>,
    open: Option<OpenReceiver<T>>,
    closed: Option<ClosedReceiver<T>>,
    state: GateState,
    pulled: Ghost<Seq<T>>,
}

impl<T> ShutdownGate<T> {
    /// Armed or fired.
    pub closed spec fn state(&self) -> GateState {
        self.state
    }

    /// The receiver this gate pulls from.
    pub closed spec fn receiver(&self) -> tokio::sync::mpsc::Receiver<T> {
        match self.closed {
            Some(closed) => closed.receiver(),
            None => self.open->0.receiver(),
        }
    }

    /// Whether this gate still looks at a signal before it pulls.
    pub closed spec fn watching(&self) -> bool {
        self.watch is Some
    }

    /// How many times this gate has closed its receiver: once if the
    /// receiver it holds is a closed one, never if it is an open one.
    pub closed spec fn closes(&self) -> nat {
        if self.closed is Some {
            1
        } else {
            0
        }
    }

    /// The items pulled through this gate, oldest first.
    pub closed spec fn pulled(&self) -> Seq<T> {
        self.pulled@
    }

    /// What every gate satisfies: it holds its one receiver, a closed one if
    /// it has fired and an open one otherwise, and a fired gate has let go of
    /// its signal.
    pub closed spec fn inv(&self) -> bool {
        &&& self.state is Fired ==> self.watch is None
        &&& self.open is Some <==> self.closed is None
        &&& self.state is Fired <==> self.closed is Some
    }

    /// A gate closes its receiver at most once, and exactly when it fires.
    pub proof fn lemma_closes_at_most_once(&self)
        requires
            self.inv(),
        ensures
            self.closes() <= 1,
            self.closes() == 1 <==> self.state() is Fired,
            self.state() is Fired ==> !self.watching(),
    {
    }

    /// A gate with no signal: it never fires, and every pull passes through.
    /// It holds exactly the receiver it was given, and has asked nothing of
    /// it.
    pub fn unguarded(source: tokio::sync::mpsc::Receiver<T>) -> (gate: Self)
        ensures
            gate.inv(),
            gate.receiver() == source,
            gate.state() is Armed,
            !gate.watching(),
            gate.closes() == 0,
            gate.pulled() == Seq::<T>::empty(),
    {
        ShutdownGate {
            watch: None,
            open: Some(OpenReceiver::new(source)),
            closed: None,
            state: GateState::Armed,
            pulled: Ghost(Seq::empty()),
        }
    }

    /// An armed gate with a fresh signal, and the half that fires it. The
    /// gate holds exactly the receiver it was given, and has asked nothing of
    /// it.
    pub fn guarded(source: tokio::sync::mpsc::Receiver<T>) -> (made: (Self, Trigger))
        ensures
            made.0.inv(),
            made.0.receiver() == source,
            made.0.state() is Armed,
            made.0.watching(),
            made.0.closes() == 0,
            made.0.pulled() == Seq::<T>::empty(),
    {
        let (firing, watch) = signal_pair();
        let gate = ShutdownGate {
            watch: Some(watch),
            open: Some(OpenReceiver::new(source)),
            closed: None,
            state: GateState::Armed,
            pulled: Ghost(Seq::empty()),
        };
        (gate, Trigger { inner: firing })
    }

    /// Whether this gate has fired.
    pub fn is_fired(&self) -> (fired: bool)
        ensures
            fired == (self.state() is Fired),
    {
        match self.state {
            GateState::Fired => true,
            GateState::Armed => false,
        }
    }

    /// One guarded pull. A watching gate first looks at its signal once and
    /// takes the transition that [`GateState::observe`] gives for what it saw,
    /// closing the receiver if that transition says so. A gate that is not
    /// watching looks at nothing and keeps its state. Then, in every case, the
    /// receiver is asked once; its answer is the result, and an item it gave
    /// is the newest in the log of pulled items.
    pub fn poll_next(&mut self, cx: &mut Context<'_>) -> (pull: Pull<T>)
        requires
            old(self).inv(),
        ensures
            final(self).inv(),
            !old(self).watching() ==> final(self).state() == old(self).state()
                && !final(self).watching(),
            old(self).watching() ==> exists|seen: Signal|
                {
                    &&& final(self).state() == #[trigger] old(self).state().after(seen)
                    &&& final(self).watching() == (seen is Quiet)
                },
            final(self).closes() == old(self).closes() + if old(self).state() is Armed
                && final(self).state() is Fired {
                1nat
            } else {
                0nat
            },
            final(self).pulled() == pull.appended_to(old(self).pulled()),
    {
        match self.watch.take() {
            Some(watch) => {
                let (seen, rest) = signal_poll(watch, cx);
                let (next, close) = self.state.observe(seen);
                self.state = next;
                self.watch = rest;
                if close {
                    let open = self.open.take().unwrap();
                    self.closed = Some(receiver_close(open));
                }
                assert(self.state == old(self).state().after(seen));
            },
            None => {},
        }
        let pull = match self.closed.take() {
            Some(closed) => {
                let mut closed = closed;
                let pull = closed.poll(cx);
                self.closed = Some(closed);
                pull
            },
            None => {
                let mut open = self.open.take().unwrap();
                let pull = open.poll(cx);
                self.open = Some(open);
                pull
            },
        };
        self.pulled = Ghost(pull.appended_to(self.pulled@));
        pull
    }
}

} // verus!
