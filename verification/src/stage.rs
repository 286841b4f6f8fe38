//! The forwarding stage: items pulled from a guarded receiver are counted and
//! handed, one at a time, to a [`Pipeline`](crate::sink::Pipeline).
//!
//! The stage is described by a model ([`StageModel`]) that changes only when
//! an answer arrives from outside ([`StageEvent`]): a pull, a readiness
//! answer, or the result of a submission. [`StageCore`] is the executable
//! state with that model as its view; each of its three transitions takes the
//! outside answer as an argument and is specified exactly.

use crate::channel::Pull;
use crate::channel::Readiness;
use crate::gate::GateState;
use crate::gate::ShutdownGate;
use crate::sink::Pipeline;
use crate::sink::SubmitError;
use core::sync::atomic::AtomicUsize;
use core::sync::atomic::Ordering;
use core::task::Context;
use std::sync::Arc;
use vstd::prelude::*;

verus! {

/// Where a stage stands.
#[derive(Clone, Copy, Debug, PartialEq, Eq, Structural)]
pub enum StagePhase {
    /// Still forwarding.
    Running,
    /// The source is exhausted and everything pulled has been forwarded.
    Drained,
    /// The downstream receiver is closed; the stage stopped in good order.
    DownstreamClosed,
}

/// What the driver of a stage does after an outside answer.
#[derive(Clone, Copy, Debug, PartialEq, Eq, Structural)]
pub enum StageFlow {
    /// Go on with the next call.
    Continue,
    /// An outside call registered the waker; wait to be woken.
    Pending,
    /// The stage is finished.
    Complete,
}

/// The outside call a stage needs next.
#[derive(Clone, Copy, Debug, PartialEq, Eq, Structural)]
pub enum StageWant {
    /// A pull from the source.
    Item,
    /// A readiness answer from the sink, for the item that is held.
    Slot,
    /// The result of the submission that is under way.
    Settlement,
    /// Nothing: the stage is finished.
    Nothing,
}

/// An answer from outside, as the stage takes it in.
pub enum StageEvent<T> {
    /// The source answered a pull.
    Pulled(Pull<T>),
    /// The sink answered a readiness check.
    Answered(Readiness),
    /// The sink settled a submission.
    Settled(Result<(), SubmitError<T>>),
}

/// The mathematical state of a stage.
pub ghost struct StageModel<T> {
    /// The item that was pulled and counted and waits for a slot.
    pub held: Option<T>,
    /// The item that has been handed to the sink and is not settled yet.
    pub in_flight: Option<T>,
    /// Running, or how the stage ended.
    pub phase: StagePhase,
    /// Every item pulled from the source, oldest first.
    pub pulled: Seq<T>,
    /// Every item the sink accepted, oldest first.
    pub forwarded: Seq<T>,
}

/// The sequence with the item in it, or the empty one.
pub open spec fn as_seq<T>(slot: Option<T>) -> Seq<T> {
    match slot {
        Some(item) => seq![item],
        None => Seq::empty(),
    }
}

impl<T> StageModel<T> {
    /// A stage that has done nothing yet.
    pub open spec fn initial() -> Self {
        StageModel {
            held: None,
            in_flight: None,
            phase: StagePhase::Running,
            pulled: Seq::empty(),
            forwarded: Seq::empty(),
        }
    }

    /// How many items the stage has counted: every pulled item, once.
    pub open spec fn count(self) -> nat {
        self.pulled.len()
    }

    /// The outside call the stage needs next.
    pub open spec fn wants(self) -> StageWant {
        if !(self.phase is Running) {
            StageWant::Nothing
        } else if self.in_flight is Some {
            StageWant::Settlement
        } else if self.held is Some {
            StageWant::Slot
        } else {
            StageWant::Item
        }
    }

    /// Whether the event answers the call the stage is waiting for. A
    /// settlement that refuses an item must hand back the item in flight.
    pub open spec fn expects(self, event: StageEvent<T>) -> bool {
        match event {
            StageEvent::Pulled(_) => self.wants() is Item,
            StageEvent::Answered(_) => self.wants() is Slot,
            StageEvent::Settled(result) => self.wants() is Settlement && (result matches Err(
                refused,
            ) ==> self.in_flight == Some(refused.item())),
        }
    }

    /// The state after an event. An event the stage does not expect changes
    /// nothing.
    pub open spec fn step(self, event: StageEvent<T>) -> Self {
        if !self.expects(event) {
            self
        } else {
            match event {
                StageEvent::Pulled(Pull::Item(item)) => StageModel {
                    held: Some(item),
                    pulled: self.pulled.push(item),
                    ..self
                },
                StageEvent::Pulled(Pull::Pending) => self,
                StageEvent::Pulled(Pull::Exhausted) => StageModel {
                    phase: StagePhase::Drained,
                    ..self
                },
                StageEvent::Answered(Readiness::Ready) => StageModel {
                    held: None,
                    in_flight: self.held,
                    ..self
                },
                StageEvent::Answered(Readiness::Pending) => self,
                StageEvent::Settled(Ok(_)) => StageModel {
                    in_flight: None,
                    forwarded: self.forwarded + as_seq(self.in_flight),
                    ..self
                },
                StageEvent::Settled(Err(SubmitError::Closed(item))) => StageModel {
                    held: Some(item),
                    in_flight: None,
                    phase: StagePhase::DownstreamClosed,
                    ..self
                },
            }
        }
    }

    /// What the driver does after an event that the stage expected.
    pub open spec fn flow(event: StageEvent<T>) -> StageFlow {
        match event {
            StageEvent::Pulled(Pull::Item(_)) => StageFlow::Continue,
            StageEvent::Pulled(Pull::Pending) => StageFlow::Pending,
            StageEvent::Pulled(Pull::Exhausted) => StageFlow::Complete,
            StageEvent::Answered(Readiness::Ready) => StageFlow::Continue,
            StageEvent::Answered(Readiness::Pending) => StageFlow::Pending,
            StageEvent::Settled(Ok(_)) => StageFlow::Continue,
            StageEvent::Settled(Err(SubmitError::Closed(_))) => StageFlow::Complete,
        }
    }

    /// The state after a sequence of events, taken in order.
    pub open spec fn run(self, events: Seq<StageEvent<T>>) -> Self
        decreases events.len(),
    {
        if events.len() == 0 {
            self
        } else {
            self.run(events.drop_last()).step(events.last())
        }
    }

    /// Whether each event of the sequence, in its turn, answers the call the
    /// stage is waiting for at that point.
    pub open spec fn follows(self, events: Seq<StageEvent<T>>) -> bool
        decreases events.len(),
    {
        events.len() == 0 || (self.follows(events.drop_last()) && self.run(
            events.drop_last(),
        ).expects(events.last()))
    }

    /// The bookkeeping that no event disturbs: every pulled item is either
    /// forwarded, in flight, or held, in the order in which it was pulled, and
    /// at most one item is on its way at a time. A drained stage holds
    /// nothing; a finished stage has nothing in flight.
    pub open spec fn balanced(self) -> bool {
        &&& self.pulled == self.forwarded + as_seq(self.in_flight) + as_seq(self.held)
        &&& !(self.held is Some && self.in_flight is Some)
        &&& self.phase is Drained ==> self.held is None
        &&& !(self.phase is Running) ==> self.in_flight is None
    }
}

/// The executable state of a stage: the held item, the count, the phase, and
/// the logs that the contracts speak of.
#[verifier::reject_recursive_types(T)]
pub struct StageCore<T> {
    held: Option<T>,
    count: usize,
    phase: StagePhase,
    in_flight: Ghost<Option<T>>,
    pulled: Ghost<Seq<T>>,
    forwarded: Ghost<Seq<T>>,
}

impl<T> View for StageCore<T> {
    type V = StageModel<T>;

    closed spec fn view(&self) -> StageModel<T> {
        StageModel {
            held: self.held,
            in_flight: self.in_flight@,
            phase: self.phase,
            pulled: self.pulled@,
            forwarded: self.forwarded@,
        }
    }
}

impl<T> StageCore<T> {
    /// The number the core reports as its count.
    pub closed spec fn tally(&self) -> usize {
        self.count
    }

    /// What every core satisfies: its model is balanced and its count is the
    /// number of items pulled.
    pub open spec fn inv(&self) -> bool {
        &&& self@.balanced()
        &&& self.tally() == self@.count()
    }

    /// A core that has done nothing yet.
    pub fn new() -> (core: Self)
        ensures
            core@ == StageModel::<T>::initial(),
            core.inv(),
    {
        StageCore {
            held: None,
            count: 0,
            phase: StagePhase::Running,
            in_flight: Ghost(None),
            pulled: Ghost(Seq::empty()),
            forwarded: Ghost(Seq::empty()),
        }
    }

    /// How many items have been pulled and counted.
    pub fn count(&self) -> (count: usize)
        ensures
            count == self.tally(),
    {
        self.count
    }

    /// Running, or how the stage ended.
    pub fn phase(&self) -> (phase: StagePhase)
        ensures
            phase == self@.phase,
    {
        self.phase
    }

    /// Whether an item is held, waiting for a slot.
    pub fn holds_item(&self) -> (holds: bool)
        ensures
            holds == (self@.held is Some),
    {
        self.held.is_some()
    }

    /// Takes in the answer to a pull. An item is counted and held; an
    /// exhausted source ends the stage as drained; a pending source changes
    /// nothing.
    pub fn on_pull(&mut self, pull: Pull<T>) -> (flow: StageFlow)
        requires
            old(self).inv(),
            old(self)@.wants() is Item,
            old(self)@.count() < usize::MAX,
        ensures
            final(self).inv(),
            final(self)@ == old(self)@.step(StageEvent::Pulled(pull)),
            flow == StageModel::flow(StageEvent::Pulled(pull)),
    {
        match pull {
            Pull::Item(item) => {
                self.pulled = Ghost(self.pulled@.push(item));
                self.held = Some(item);
                self.count = self.count + 1;
                StageFlow::Continue
            },
            Pull::Pending => StageFlow::Pending,
            Pull::Exhausted => {
                self.phase = StagePhase::Drained;
                StageFlow::Complete
            },
        }
    }

    /// Takes in the answer to a readiness check. On `Ready` the held item is
    /// given out for submission and is in flight from then on; on `Pending`
    /// nothing changes.
    pub fn on_ready(&mut self, answer: Readiness) -> (out: (StageFlow, Option<T>))
        requires
            old(self).inv(),
            old(self)@.wants() is Slot,
        ensures
            final(self).inv(),
            final(self)@ == old(self)@.step(StageEvent::Answered(answer)),
            out.0 == StageModel::<T>::flow(StageEvent::Answered(answer)),
            out.1 == final(self)@.in_flight,
    {
        match answer {
            Readiness::Ready => {
                let item = self.held.take();
                self.in_flight = Ghost(item);
                (StageFlow::Continue, item)
            },
            Readiness::Pending => (StageFlow::Pending, None),
        }
    }

    /// Takes in the result of the submission under way. An accepted item
    /// joins the forwarded ones. A refused item is held again, and the stage
    /// ends: the downstream receiver is closed.
    pub fn on_submit(&mut self, result: Result<(), SubmitError<T>>) -> (flow: StageFlow)
        requires
            old(self).inv(),
            old(self)@.expects(StageEvent::Settled(result)),
        ensures
            final(self).inv(),
            final(self)@ == old(self)@.step(StageEvent::Settled(result)),
            flow == StageModel::flow(StageEvent::Settled(result)),
    {
        match result {
            Ok(_) => {
                self.forwarded = Ghost(self.forwarded@ + as_seq(self.in_flight@));
                self.in_flight = Ghost(None);
                StageFlow::Continue
            },
            Err(SubmitError::Closed(item)) => {
                self.held = Some(item);
                self.in_flight = Ghost(None);
                self.phase = StagePhase::DownstreamClosed;
                StageFlow::Complete
            },
        }
    }
}

/// What one poll of a stage reports.
#[derive(Clone, Copy, Debug, PartialEq, Eq)]
pub enum StagePoll {
    /// An outside call registered the waker; poll again when woken.
    Pending,
    /// The stage gave up its turn and has more to do; poll again.
    Yielded,
    /// The stage is finished; this is the number of items it counted.
    Complete(usize),
}

impl StagePoll {
    /// Whether this report is the one that the answers of a poll call for.
    /// `Pending` follows an answer that was pending, and `Complete`, from a
    /// running stage, the answer that ended it. `Yielded` is reported when
    /// every round of the budget was used, or when the count can go no
    /// higher.
    pub open spec fn accounts_for<T>(
        self,
        start: StageModel<T>,
        events: Seq<StageEvent<T>>,
        budget: usize,
    ) -> bool {
        let last_flow = StageModel::flow(events.last());
        match self {
            StagePoll::Pending => events.len() > 0 && last_flow is Pending,
            StagePoll::Complete(_) => !(start.phase is Running) || (events.len() > 0
                && last_flow is Complete),
            StagePoll::Yielded => {
                ||| events.len() >= budget
                ||| start.run(events).count() == usize::MAX
            },
        }
    }
}

/// Adding an event to a run is one more step, and the longer sequence follows
/// the protocol if the shorter one does and the event is awaited after it.
proof fn lemma_run_push<T>(start: StageModel<T>, events: Seq<StageEvent<T>>, event: StageEvent<T>)
    ensures
        start.run(events.push(event)) == start.run(events).step(event),
        start.follows(events.push(event)) == (start.follows(events) && start.run(events).expects(
            event,
        )),
{
    assert(events.push(event).drop_last() =~= events);
}

/// Counts one item on the shared counter, for whoever watches it.
fn record(counter: &Arc<AtomicUsize>) {
    let _ = counter.fetch_add(1, Ordering::SeqCst);
}

/// A guarded receiver, a sink, and the state of the forwarding between them.
#[verifier::reject_recursive_types(T)]
pub struct PipelineStage<T> {
    source: ShutdownGate<T>,
    sink: Pipeline<T>,
    counter: Arc<AtomicUsize>,
    core: StageCore<T>,
    pulled_before: Ghost<Seq<T>>,
    accepted_before: Ghost<Seq<T>>,
}

impl<T> View for PipelineStage<T> {
    type V = StageModel<T>;

    closed spec fn view(&self) -> StageModel<T> {
        self.core@
    }
}

impl<T> PipelineStage<T> {
    /// The number the stage reports as its count.
    pub closed spec fn tally(&self) -> usize {
        self.core.tally()
    }

    /// The state of the stage's gate.
    pub closed spec fn gate(&self) -> GateState {
        self.source.state()
    }

    /// How many times the stage's gate has closed its receiver.
    pub closed spec fn gate_closes(&self) -> nat {
        self.source.closes()
    }

    /// Whether the stage's gate still looks at a signal before it pulls.
    pub closed spec fn watching(&self) -> bool {
        self.source.watching()
    }

    /// The guarded receiver that the stage pulls through.
    pub closed spec fn source(&self) -> ShutdownGate<T> {
        self.source
    }

    /// The sink the stage submits to.
    pub closed spec fn sink(&self) -> Pipeline<T> {
        self.sink
    }

    /// The shared counter on which the stage counts each item.
    pub closed spec fn counter(&self) -> Arc<AtomicUsize> {
        self.counter
    }

    /// What the stage's gate had pulled when the stage was made.
    pub closed spec fn pulled_before(&self) -> Seq<T> {
        self.pulled_before@
    }

    /// What the stage's sink had accepted when the stage was made.
    pub closed spec fn accepted_before(&self) -> Seq<T> {
        self.accepted_before@
    }

    /// What every stage satisfies between two polls: the model is balanced,
    /// the count is the number of items pulled, no submission is under way,
    /// the stage's logs are what its gate and its sink have logged since the
    /// stage was made, and its gate is sound.
    pub closed spec fn inv(&self) -> bool {
        &&& self.source.inv()
        &&& self.sink.inv()
        &&& self.core.inv()
        &&& self.core@.in_flight is None
        &&& self.source.pulled() == self.pulled_before@ + self.core@.pulled
        &&& self.sink.accepted() == self.accepted_before@ + self.core@.forwarded
    }

    /// Puts a stage between a gate and a sink: the stage holds exactly this
    /// gate, this sink and this counter, and has done nothing yet. Each
    /// counted item is also counted on `counter`, before it is forwarded.
    pub fn new(source: ShutdownGate<T>, sink: Pipeline<T>, counter: Arc<AtomicUsize>) -> (stage:
        Self)
        requires
            source.inv(),
            sink.inv(),
        ensures
            stage.inv(),
            stage@ == StageModel::<T>::initial(),
            stage.tally() == 0,
            stage.source() == source,
            stage.sink() == sink,
            stage.counter() == counter,
            stage.pulled_before() == source.pulled(),
            stage.accepted_before() == sink.accepted(),
            stage.gate() == source.state(),
            stage.gate_closes() == source.closes(),
            stage.watching() == source.watching(),
    {
        let ghost pulled_before = source.pulled();
        let ghost accepted_before = sink.accepted();
        let stage = PipelineStage {
            source,
            sink,
            counter,
            core: StageCore::new(),
            pulled_before: Ghost(pulled_before),
            accepted_before: Ghost(accepted_before),
        };
        assert(pulled_before + Seq::<T>::empty() =~= pulled_before);
        assert(accepted_before + Seq::<T>::empty() =~= accepted_before);
        stage
    }

    /// Between two polls a stage is balanced, counts what it pulled, has no
    /// submission under way, and its gate has closed its receiver exactly if
    /// it has fired. The laws on balanced stages therefore hold of it. What
    /// the model calls pulled is what the stage's gate has pulled since the
    /// stage was made, and what it calls forwarded is what the stage's sink
    /// has accepted since then.
    pub proof fn lemma_inv_is_balanced(&self)
        requires
            self.inv(),
        ensures
            self@.balanced(),
            self@.in_flight is None,
            self.tally() == self@.count(),
            self.source().inv(),
            self.sink().inv(),
            self.source().pulled() == self.pulled_before() + self@.pulled,
            self.sink().accepted() == self.accepted_before() + self@.forwarded,
            self.gate() == self.source().state(),
            self.gate_closes() == self.source().closes(),
            self.watching() == self.source().watching(),
            self.gate_closes() == if self.gate() is Fired {
                1nat
            } else {
                0nat
            },
            self.gate() is Fired ==> !self.watching(),
    {
        self.source.lemma_closes_at_most_once();
    }

    /// How many items have been pulled and counted.
    pub fn count(&self) -> (count: usize)
        ensures
            count == self.tally(),
    {
        self.core.count()
    }

    /// Running, or how the stage ended.
    pub fn phase(&self) -> (phase: StagePhase)
        ensures
            phase == self@.phase,
    {
        self.core.phase()
    }

    /// Whether the stage's gate has fired.
    pub fn gate_fired(&self) -> (fired: bool)
        ensures
            fired == (self.gate() is Fired),
    {
        self.source.is_fired()
    }

    /// Ends the stage and hands back the item it still holds, if any: the one
    /// that was counted and could not be forwarded.
    pub fn into_undelivered(self) -> (item: Option<T>)
        ensures
            item == self@.held,
    {
        self.core.held
    }

    /// Drives the stage until an outside call is pending, the stage is
    /// finished, or `budget` rounds are used up. A round is one pull, or one
    /// readiness check followed, if a slot was confirmed, by one submission.
    ///
    /// Whatever the outside calls answer, the state afterwards is the state
    /// before, run over the answers that came: each of them one the stage was
    /// waiting for, at most two of them a round, and the last of them the
    /// reason for what is reported. A finished stage makes no call and
    /// reports its count again. Its gate never goes back from fired to armed,
    /// and a gate without a signal stays as it is, so that such a stage
    /// forwards until its source is exhausted.
    ///
    /// The count does not pass `usize::MAX`: a stage that has counted that
    /// many items pulls no more and yields.
    pub fn poll(&mut self, cx: &mut Context<'_>, budget: usize) -> (answer: StagePoll)
        requires
            old(self).inv(),
        ensures
            final(self).inv(),
            exists|events: Seq<StageEvent<T>>|
                {
                    &&& final(self)@ == #[trigger] old(self)@.run(events)
                    &&& old(self)@.follows(events)
                    &&& events.len() <= 2 * budget
                    &&& answer.accounts_for(old(self)@, events, budget)
                },
            answer is Complete <==> !(final(self)@.phase is Running),
            answer matches StagePoll::Complete(count) ==> count == final(self)@.count(),
            final(self).tally() == final(self)@.count(),
            final(self).counter() == old(self).counter(),
            final(self).pulled_before() == old(self).pulled_before(),
            final(self).accepted_before() == old(self).accepted_before(),
            !(old(self)@.phase is Running) ==> final(self)@ == old(self)@,
            old(self).gate() is Fired ==> final(self).gate() is Fired,
            !old(self).watching() ==> final(self).gate() == old(self).gate()
                && !final(self).watching() && final(self).gate_closes() == old(
                self,
            ).gate_closes(),
            final(self).gate_closes() <= 1,
    {
        let ghost start = self@;
        let ghost mut events: Seq<StageEvent<T>> = Seq::empty();
        let mut left: usize = budget;
        while left > 0
            invariant
                self.inv(),
                start == old(self)@,
                self.counter() == old(self).counter(),
                self.pulled_before() == old(self).pulled_before(),
                self.accepted_before() == old(self).accepted_before(),
                self@ == start.run(events),
                start.follows(events),
                budget - left <= events.len() <= 2 * (budget - left),
                left <= budget,
                !(start.phase is Running) ==> self@ == start,
                old(self).gate() is Fired ==> self.gate() is Fired,
                !old(self).watching() ==> self.gate() == old(self).gate() && !self.watching()
                    && self.gate_closes() == old(self).gate_closes(),
            decreases left,
        {
            match self.core.phase() {
                StagePhase::Running => {},
                _ => {
                    proof {
                        self.source.lemma_closes_at_most_once();
                    }
                    return StagePoll::Complete(self.core.count());
                },
            }
            if self.core.holds_item() {
                let answer = self.sink.poll_ready(cx);
                let (flow, item) = self.core.on_ready(answer);
                proof {
                    lemma_run_push(start, events, StageEvent::Answered(answer));
                    events = events.push(StageEvent::Answered(answer));
                    self.source.lemma_closes_at_most_once();
                }
                match item {
                    Some(item) => {
                        let ghost sent = item;
                        let ghost accepted = self.sink.accepted();
                        let result = self.sink.start_send(item);
                        let ghost settled = result;
                        let flow = self.core.on_submit(result);
                        proof {
                            lemma_run_push(start, events, StageEvent::Settled(settled));
                            events = events.push(StageEvent::Settled(settled));
                            assert(accepted.push(sent) =~= accepted + seq![sent]);
                            assert(self.accepted_before@ + (self.core@.forwarded)
                                =~= self.sink.accepted());
                        }
                        match flow {
                            StageFlow::Continue => {},
                            _ => {
                                return StagePoll::Complete(self.core.count());
                            },
                        }
                    },
                    None => {
                        return StagePoll::Pending;
                    },
                }
            } else {
                if self.core.count() == usize::MAX {
                    proof {
                        self.source.lemma_closes_at_most_once();
                    }
                    return StagePoll::Yielded;
                }
                let pull = self.source.poll_next(cx);
                let ghost pulled = pull;
                let flow = self.core.on_pull(pull);
                proof {
                    lemma_run_push(start, events, StageEvent::Pulled(pulled));
                    events = events.push(StageEvent::Pulled(pulled));
                    self.source.lemma_closes_at_most_once();
                    assert(self.pulled_before@ + (self.core@.pulled) =~= self.source.pulled());
                }
                match flow {
                    StageFlow::Continue => {
                        record(&self.counter);
                    },
                    StageFlow::Complete => {
                        let _ = self.sink.poll_close(cx);
                        return StagePoll::Complete(self.core.count());
                    },
                    _ => {
                        let _ = self.sink.poll_flush(cx);
                        return StagePoll::Pending;
                    },
                }
            }
            left = left - 1;
        }
        proof {
            self.source.lemma_closes_at_most_once();
        }
        match self.core.phase() {
            StagePhase::Running => StagePoll::Yielded,
            _ => StagePoll::Complete(self.core.count()),
        }
    }
}

} // verus!
