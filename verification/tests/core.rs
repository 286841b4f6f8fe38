use pipeline::Pull;
use pipeline::Readiness;
use pipeline::StageCore;
use pipeline::StageFlow;
use pipeline::StagePhase;
use pipeline::SubmitError;

#[test]
fn new_core_is_running_and_empty() {
    let core: StageCore<u32> = StageCore::new();
    assert_eq!(core.count(), 0);
    assert_eq!(core.phase(), StagePhase::Running);
    assert!(!core.holds_item());
}

#[test]
fn pulled_item_is_counted_and_held() {
    let mut core: StageCore<u32> = StageCore::new();
    assert_eq!(core.on_pull(Pull::Item(7)), StageFlow::Continue);
    assert_eq!(core.count(), 1);
    assert!(core.holds_item());
    assert_eq!(core.phase(), StagePhase::Running);
}

#[test]
fn pending_pull_changes_nothing() {
    let mut core: StageCore<u32> = StageCore::new();
    assert_eq!(core.on_pull(Pull::Pending), StageFlow::Pending);
    assert_eq!(core.count(), 0);
    assert!(!core.holds_item());
    assert_eq!(core.phase(), StagePhase::Running);
}

#[test]
fn exhausted_pull_drains_the_stage() {
    let mut core: StageCore<u32> = StageCore::new();
    assert_eq!(core.on_pull(Pull::Exhausted), StageFlow::Complete);
    assert_eq!(core.phase(), StagePhase::Drained);
    assert_eq!(core.count(), 0);
}

#[test]
fn ready_gives_the_held_item_out() {
    let mut core: StageCore<String> = StageCore::new();
    core.on_pull(Pull::Item(String::from("foo bar")));
    let (flow, item) = core.on_ready(Readiness::Ready);
    assert_eq!(flow, StageFlow::Continue);
    assert_eq!(item, Some(String::from("foo bar")));
    assert!(!core.holds_item());
    assert_eq!(core.count(), 1);
}

#[test]
fn pending_sink_keeps_the_item_held() {
    let mut core: StageCore<u32> = StageCore::new();
    core.on_pull(Pull::Item(3));
    assert_eq!(core.on_ready(Readiness::Pending), (StageFlow::Pending, None));
    assert!(core.holds_item());
    assert_eq!(core.phase(), StagePhase::Running);
    assert_eq!(core.count(), 1);
}

#[test]
fn accepted_submission_goes_on() {
    let mut core: StageCore<u32> = StageCore::new();
    core.on_pull(Pull::Item(3));
    let (_, item) = core.on_ready(Readiness::Ready);
    assert_eq!(item, Some(3));
    assert_eq!(core.on_submit(Ok(())), StageFlow::Continue);
    assert!(!core.holds_item());
    assert_eq!(core.phase(), StagePhase::Running);
    assert_eq!(core.on_pull(Pull::Item(4)), StageFlow::Continue);
    assert_eq!(core.count(), 2);
}

#[test]
fn submission_refused_by_closed_receiver_ends_the_stage() {
    let mut core: StageCore<u32> = StageCore::new();
    core.on_pull(Pull::Item(3));
    let (_, item) = core.on_ready(Readiness::Ready);
    let refused = SubmitError::Closed(item.unwrap());
    assert_eq!(core.on_submit(Err(refused)), StageFlow::Complete);
    assert!(core.holds_item());
    assert_eq!(core.phase(), StagePhase::DownstreamClosed);
    assert_eq!(core.count(), 1);
}

#[test]
fn three_items_then_exhaustion() {
    let mut core: StageCore<u32> = StageCore::new();
    let mut forwarded: Vec<u32> = Vec::new();
    for item in [5u32, 6, 7].iter() {
        assert_eq!(core.on_pull(Pull::Item(*item)), StageFlow::Continue);
        let (_, out) = core.on_ready(Readiness::Ready);
        forwarded.push(out.unwrap());
        assert_eq!(core.on_submit(Ok(())), StageFlow::Continue);
    }
    assert_eq!(core.on_pull(Pull::Exhausted), StageFlow::Complete);
    assert_eq!(core.phase(), StagePhase::Drained);
    assert_eq!(core.count(), 3);
    assert_eq!(forwarded, vec![5, 6, 7]);
    assert!(!core.holds_item());
}
