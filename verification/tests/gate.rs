use futures::task::noop_waker;
use pipeline::GateState;
use pipeline::Pull;
use pipeline::ShutdownGate;
use pipeline::Signal;
use std::task::Context;
use tokio::sync::mpsc;
use tokio::sync::mpsc::error::TrySendError;

#[test]
fn armed_gate_transitions() {
    assert_eq!(GateState::Armed.observe(Signal::Quiet), (GateState::Armed, false));
    assert_eq!(GateState::Armed.observe(Signal::Fired), (GateState::Fired, true));
    assert_eq!(GateState::Armed.observe(Signal::Abandoned), (GateState::Fired, true));
}

#[test]
fn fired_gate_transitions() {
    assert_eq!(GateState::Fired.observe(Signal::Quiet), (GateState::Fired, false));
    assert_eq!(GateState::Fired.observe(Signal::Fired), (GateState::Fired, false));
    assert_eq!(GateState::Fired.observe(Signal::Abandoned), (GateState::Fired, false));
}

#[test]
fn reacting_twice_closes_once() {
    let looks = [Signal::Quiet, Signal::Fired, Signal::Fired, Signal::Abandoned, Signal::Quiet];
    let mut state = GateState::Armed;
    let mut closes: u32 = 0;
    for seen in looks.iter() {
        let (next, close) = state.observe(*seen);
        if close {
            closes += 1;
        }
        state = next;
    }
    assert_eq!(state, GateState::Fired);
    assert_eq!(closes, 1);
}

#[test]
fn quiet_looks_never_close() {
    let mut state = GateState::Armed;
    for _ in 0..100 {
        let (next, close) = state.observe(Signal::Quiet);
        assert!(!close);
        state = next;
    }
    assert_eq!(state, GateState::Armed);
}

#[test]
fn unguarded_gate_passes_pulls_through() {
    let waker = noop_waker();
    let mut cx = Context::from_waker(&waker);
    let (mut tx, rx) = mpsc::channel::<u32>(4);
    let mut gate = ShutdownGate::unguarded(rx);

    assert_eq!(gate.poll_next(&mut cx), Pull::Pending);
    tx.try_send(1).unwrap();
    tx.try_send(2).unwrap();
    assert_eq!(gate.poll_next(&mut cx), Pull::Item(1));
    assert_eq!(gate.poll_next(&mut cx), Pull::Item(2));
    assert_eq!(gate.poll_next(&mut cx), Pull::Pending);
    assert!(!gate.is_fired());
    drop(tx);
    assert_eq!(gate.poll_next(&mut cx), Pull::Exhausted);
    assert!(!gate.is_fired());
}

#[test]
fn gate_with_quiet_signal_passes_pulls_through() {
    let waker = noop_waker();
    let mut cx = Context::from_waker(&waker);
    let (mut tx, rx) = mpsc::channel::<u32>(4);
    let (mut gate, trigger) = ShutdownGate::guarded(rx);

    assert_eq!(gate.poll_next(&mut cx), Pull::Pending);
    tx.try_send(1).unwrap();
    tx.try_send(2).unwrap();
    assert_eq!(gate.poll_next(&mut cx), Pull::Item(1));
    assert_eq!(gate.poll_next(&mut cx), Pull::Item(2));
    assert_eq!(gate.poll_next(&mut cx), Pull::Pending);
    assert!(!gate.is_fired());
    // The sender can still send: the receiver was never closed.
    tx.try_send(3).unwrap();
    assert_eq!(gate.poll_next(&mut cx), Pull::Item(3));
    drop(tx);
    assert_eq!(gate.poll_next(&mut cx), Pull::Exhausted);
    assert!(!gate.is_fired());
    drop(trigger);
}

#[test]
fn fired_gate_drains_what_is_buffered() {
    let waker = noop_waker();
    let mut cx = Context::from_waker(&waker);
    let (mut tx, rx) = mpsc::channel::<u32>(8);
    let (mut gate, trigger) = ShutdownGate::guarded(rx);

    tx.try_send(10).unwrap();
    tx.try_send(20).unwrap();
    tx.try_send(30).unwrap();
    assert_eq!(gate.poll_next(&mut cx), Pull::Item(10));
    assert!(!gate.is_fired());

    assert!(trigger.fire());
    assert_eq!(gate.poll_next(&mut cx), Pull::Item(20));
    assert!(gate.is_fired());
    // Nothing new gets in.
    assert!(matches!(tx.try_send(40), Err(TrySendError::Closed(40))));
    // What was buffered still comes out, then the source is exhausted.
    assert_eq!(gate.poll_next(&mut cx), Pull::Item(30));
    assert_eq!(gate.poll_next(&mut cx), Pull::Exhausted);
    assert_eq!(gate.poll_next(&mut cx), Pull::Exhausted);
    assert!(gate.is_fired());
}

#[test]
fn fired_gate_with_empty_buffer_is_exhausted() {
    let waker = noop_waker();
    let mut cx = Context::from_waker(&waker);
    let (mut tx, rx) = mpsc::channel::<u32>(8);
    let (mut gate, trigger) = ShutdownGate::guarded(rx);

    assert_eq!(gate.poll_next(&mut cx), Pull::Pending);
    assert!(trigger.fire());
    assert_eq!(gate.poll_next(&mut cx), Pull::Exhausted);
    assert!(gate.is_fired());
    assert!(matches!(tx.try_send(1), Err(TrySendError::Closed(1))));
}

#[test]
fn abandoned_trigger_fires_its_gate() {
    let waker = noop_waker();
    let mut cx = Context::from_waker(&waker);
    let (mut tx, rx) = mpsc::channel::<u32>(8);
    let (mut gate, trigger) = ShutdownGate::guarded(rx);

    tx.try_send(1).unwrap();
    drop(trigger);
    assert_eq!(gate.poll_next(&mut cx), Pull::Item(1));
    assert!(gate.is_fired());
    assert!(matches!(tx.try_send(2), Err(TrySendError::Closed(2))));
    assert_eq!(gate.poll_next(&mut cx), Pull::Exhausted);
}

#[test]
fn firing_without_a_listener_is_not_delivered() {
    let (_tx, rx) = mpsc::channel::<u32>(8);
    let (gate, trigger) = ShutdownGate::guarded(rx);
    drop(gate);
    assert!(!trigger.fire());
}
