//! What holds of every run.
//!
//! The laws of a stage are stated over [`StageModel`] and every sequence of
//! outside answers, those of a gate over [`GateState`] and every sequence of
//! looks at the signal. The executable types keep these models as their
//! views, so what is proved here holds of every state they can reach.

use crate::channel::Readiness;
use crate::channel::Signal;
use crate::gate::GateState;
use crate::stage::as_seq;
use crate::stage::StageEvent;
use crate::stage::StageModel;
use vstd::prelude::*;

verus! {

/// No event disturbs the bookkeeping: a balanced stage is balanced after any
/// event, expected or not.
pub proof fn lemma_step_keeps_balance<T>(model: StageModel<T>, event: StageEvent<T>)
    requires
        model.balanced(),
    ensures
        model.step(event).balanced(),
{
    let next = model.step(event);
    if model.expects(event) {
        assert(next.pulled =~= next.forwarded + as_seq(next.in_flight) + as_seq(next.held));
    }
}

/// A balanced stage is balanced after any sequence of events.
pub proof fn lemma_run_keeps_balance<T>(model: StageModel<T>, events: Seq<StageEvent<T>>)
    requires
        model.balanced(),
    ensures
        model.run(events).balanced(),
    decreases events.len(),
{
    if events.len() > 0 {
        lemma_run_keeps_balance(model, events.drop_last());
        lemma_step_keeps_balance(model.run(events.drop_last()), events.last());
    }
}

/// Order is preserved. Whatever the outside answers, the items a stage has
/// forwarded are the first of the items it has pulled, in the order in which
/// they were pulled, and at most one pulled item is not forwarded yet.
pub proof fn lemma_forwarded_in_pulled_order<T>(events: Seq<StageEvent<T>>)
    ensures
        ({
            let reached = StageModel::<T>::initial().run(events);
            &&& reached.forwarded.is_prefix_of(reached.pulled)
            &&& reached.pulled.len() <= reached.forwarded.len() + 1
        }),
{
    let start = StageModel::<T>::initial();
    assert(start.pulled =~= start.forwarded + as_seq(start.in_flight) + as_seq(start.held));
    lemma_run_keeps_balance(start, events);
    lemma_balanced_keeps_order(start.run(events));
}

/// In a balanced stage the forwarded items are a prefix of the pulled ones,
/// the count covers them, and the two differ by what is held or in flight.
pub proof fn lemma_balanced_keeps_order<T>(model: StageModel<T>)
    requires
        model.balanced(),
    ensures
        model.forwarded.is_prefix_of(model.pulled),
        model.forwarded.len() <= model.count() <= model.forwarded.len() + 1,
        model.count() == model.forwarded.len() + as_seq(model.in_flight).len() + as_seq(
            model.held,
        ).len(),
{
    let rest = as_seq(model.in_flight) + as_seq(model.held);
    assert(model.pulled =~= model.forwarded + rest);
    assert(model.forwarded =~= model.pulled.subrange(0, model.forwarded.len() as int));
}

/// Shutdown drains and does not truncate, and the counts agree. A stage that
/// ended as drained, after any answers whatever, has forwarded every item it
/// pulled: the two logs are equal, nothing is held, and the count is the
/// number of forwarded items.
pub proof fn lemma_drained_forwarded_everything<T>(events: Seq<StageEvent<T>>)
    requires
        StageModel::<T>::initial().run(events).phase is Drained,
    ensures
        ({
            let reached = StageModel::<T>::initial().run(events);
            &&& reached.forwarded == reached.pulled
            &&& reached.held is None
            &&& reached.in_flight is None
            &&& reached.count() == reached.forwarded.len()
        }),
{
    let start = StageModel::<T>::initial();
    assert(start.pulled =~= start.forwarded + as_seq(start.in_flight) + as_seq(start.held));
    lemma_run_keeps_balance(start, events);
    lemma_balanced_drained(start.run(events));
}

/// A balanced, drained stage has forwarded everything it pulled.
pub proof fn lemma_balanced_drained<T>(model: StageModel<T>)
    requires
        model.balanced(),
        model.phase is Drained,
    ensures
        model.forwarded == model.pulled,
        model.held is None,
        model.in_flight is None,
        model.count() == model.forwarded.len(),
{
    assert(model.pulled =~= model.forwarded);
}

/// A stage that stopped because downstream is closed still holds the item it
/// could not forward: it counted one item more than it forwarded, and that
/// item is the last one pulled.
pub proof fn lemma_closed_downstream_keeps_item<T>(events: Seq<StageEvent<T>>)
    requires
        StageModel::<T>::initial().run(events).phase is DownstreamClosed,
    ensures
        ({
            let reached = StageModel::<T>::initial().run(events);
            &&& reached.held is Some
            &&& reached.pulled == reached.forwarded.push(reached.held->0)
            &&& reached.count() == reached.forwarded.len() + 1
        }),
{
    let start = StageModel::<T>::initial();
    assert(start.pulled =~= start.forwarded + as_seq(start.in_flight) + as_seq(start.held));
    lemma_run_keeps_balance(start, events);
    lemma_closed_downstream_holds(events);
    let reached = start.run(events);
    assert(reached.pulled =~= reached.forwarded.push(reached.held->0));
}

/// A stage that stopped because downstream is closed holds an item.
proof fn lemma_closed_downstream_holds<T>(events: Seq<StageEvent<T>>)
    ensures
        StageModel::<T>::initial().run(events).phase is DownstreamClosed
            ==> StageModel::<T>::initial().run(events).held is Some,
    decreases events.len(),
{
    if events.len() > 0 {
        lemma_closed_downstream_holds(events.drop_last());
    }
}

/// Logs only grow. Over any sequence of events, what was pulled stays pulled
/// and what was forwarded stays forwarded, at the same places.
pub proof fn lemma_run_extends_logs<T>(model: StageModel<T>, events: Seq<StageEvent<T>>)
    ensures
        model.pulled.is_prefix_of(model.run(events).pulled),
        model.forwarded.is_prefix_of(model.run(events).forwarded),
    decreases events.len(),
{
    if events.len() > 0 {
        let before = model.run(events.drop_last());
        lemma_run_extends_logs(model, events.drop_last());
        let after = before.step(events.last());
        assert(before.pulled.is_prefix_of(after.pulled));
        assert(before.forwarded.is_prefix_of(after.forwarded));
    }
}

/// A finished stage is final: no event changes it, so it reports the same
/// count however often it is asked.
pub proof fn lemma_finished_is_final<T>(model: StageModel<T>, events: Seq<StageEvent<T>>)
    requires
        !(model.phase is Running),
    ensures
        model.run(events) == model,
    decreases events.len(),
{
    if events.len() > 0 {
        lemma_finished_is_final(model, events.drop_last());
    }
}

/// Nothing is submitted without a confirmed slot. An item goes in flight only
/// on the answer `Ready`; on `Pending` the stage does not change at all; and
/// the forwarded log grows only when a submission that was in flight is
/// accepted.
pub proof fn lemma_submission_needs_slot<T>(model: StageModel<T>, event: StageEvent<T>)
    ensures
        model.step(StageEvent::Answered(Readiness::Pending)) == model,
        model.in_flight is None && model.step(event).in_flight is Some ==> event
            == StageEvent::<T>::Answered(Readiness::Ready),
        model.step(event).forwarded != model.forwarded ==> {
            &&& model.in_flight is Some
            &&& event matches StageEvent::Settled(Ok(_))
        },
{
    if model.expects(event) && model.step(event).forwarded != model.forwarded {
        if !(event matches StageEvent::Settled(Ok(_))) {
            assert(model.step(event).forwarded == model.forwarded);
        }
    }
}

/// Firing is idempotent. Over any sequence of looks at the signal a gate
/// closes its receiver at most once; a gate that has fired stays fired and
/// closes nothing more; and an armed gate has closed once exactly if it ends
/// fired.
pub proof fn lemma_gate_closes_at_most_once(state: GateState, seen: Seq<Signal>)
    ensures
        state.closes_over(seen) <= 1,
        state is Fired ==> state.after_all(seen) is Fired && state.closes_over(seen) == 0,
        state is Armed ==> (state.closes_over(seen) == 1 <==> state.after_all(seen) is Fired),
    decreases seen.len(),
{
    if seen.len() > 0 {
        lemma_gate_closes_at_most_once(state, seen.drop_last());
    }
}

/// A signal that stays quiet is no signal. An armed gate that only ever sees
/// its signal quiet stays armed and closes nothing.
pub proof fn lemma_quiet_signal_passes_through(seen: Seq<Signal>)
    requires
        forall|i: int| 0 <= i < seen.len() ==> seen[i] is Quiet,
    ensures
        GateState::Armed.after_all(seen) is Armed,
        GateState::Armed.closes_over(seen) == 0,
    decreases seen.len(),
{
    if seen.len() > 0 {
        lemma_quiet_signal_passes_through(seen.drop_last());
    }
}

/// Once any look shows the signal fired or abandoned, an armed gate ends
/// fired, whatever it sees afterwards.
pub proof fn lemma_seen_signal_fires_gate(seen: Seq<Signal>, at: int)
    requires
        0 <= at < seen.len(),
        !(seen[at] is Quiet),
    ensures
        GateState::Armed.after_all(seen) is Fired,
        GateState::Armed.closes_over(seen) == 1,
    decreases seen.len(),
{
    if at < seen.len() - 1 {
        lemma_seen_signal_fires_gate(seen.drop_last(), at);
    } else {
        lemma_gate_closes_at_most_once(GateState::Armed, seen.drop_last());
    }
}

} // verus!
