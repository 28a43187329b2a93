use eth_proofs::latest::{LatestAction, LatestEvent, LatestFetcherState, LatestOutcome};
use eth_proofs::messages::FetchMsg;

fn request(count: u64) -> LatestEvent {
    LatestEvent::Message(FetchMsg::ProveLatest { count })
}

fn header(block_number: u64) -> LatestEvent {
    LatestEvent::Header { block_number }
}

#[test]
fn a_new_fetcher_is_idle() {
    let state = LatestFetcherState::new();
    assert_eq!(state.remaining(), 0);
    assert_eq!(state.batch_count(), 0);
    assert!(!state.is_subscribed());
}

#[test]
fn empty_request_while_idle_is_a_no_op() {
    let mut state = LatestFetcherState::new();
    let outcome = state.step(request(0));
    assert_eq!(outcome, LatestOutcome { fetch: None, next: LatestAction::AwaitRequest });
    assert_eq!(state.remaining(), 0);
    assert!(!state.is_subscribed());
}

#[test]
fn a_request_while_idle_opens_a_subscription() {
    let mut state = LatestFetcherState::new();
    let outcome = state.step(request(3));
    assert_eq!(outcome, LatestOutcome { fetch: None, next: LatestAction::Subscribe });
    assert_eq!(state.remaining(), 3);
    assert!(state.is_subscribed());
}

#[test]
fn overlapping_requests_coalesce_by_max() {
    let mut state = LatestFetcherState::new();
    state.step(request(5));
    let outcome = state.step(request(3));
    assert_eq!(outcome, LatestOutcome { fetch: None, next: LatestAction::AwaitBlock });
    assert_eq!(state.remaining(), 5);
    state.step(request(8));
    assert_eq!(state.remaining(), 8);
    state.step(request(8));
    assert_eq!(state.remaining(), 8);
    state.step(request(0));
    assert_eq!(state.remaining(), 8);
}

#[test]
fn overlapping_latest_history() {
    let mut state = LatestFetcherState::new();
    let mut history = vec![];
    let mut fetched = vec![];
    state.step(request(5));
    history.push(state.remaining());
    for block in [1000u64, 1001] {
        let outcome = state.step(header(block));
        fetched.extend(outcome.fetch);
        history.push(state.remaining());
    }
    state.step(request(3));
    history.push(state.remaining());
    let mut block = 1002;
    while state.is_subscribed() {
        let outcome = state.step(header(block));
        fetched.extend(outcome.fetch);
        history.push(state.remaining());
        block += 1;
    }
    assert_eq!(history, vec![5, 4, 3, 3, 2, 1, 0]);
    assert_eq!(fetched, vec![1000, 1001, 1002, 1003, 1004]);
}

#[test]
fn each_header_is_fetched_and_counted() {
    let mut state = LatestFetcherState::new();
    state.step(request(2));
    assert_eq!(
        state.step(header(500)),
        LatestOutcome { fetch: Some(500), next: LatestAction::AwaitBlock }
    );
    assert_eq!(state.remaining(), 1);
    assert_eq!(state.batch_count(), 1);
    assert_eq!(
        state.step(header(501)),
        LatestOutcome { fetch: Some(501), next: LatestAction::AwaitRequest }
    );
    assert_eq!(state.remaining(), 0);
    assert_eq!(state.batch_count(), 0);
}

#[test]
fn a_batch_of_ten_renews_the_subscription() {
    let mut state = LatestFetcherState::new();
    state.step(request(25));
    for i in 0..9u64 {
        let outcome = state.step(header(i));
        assert_eq!(outcome, LatestOutcome { fetch: Some(i), next: LatestAction::AwaitBlock });
        assert_eq!(state.batch_count(), i + 1);
    }
    let outcome = state.step(header(9));
    assert_eq!(outcome, LatestOutcome { fetch: Some(9), next: LatestAction::Subscribe });
    assert_eq!(state.remaining(), 15);
    assert_eq!(state.batch_count(), 0);
    for i in 10..19u64 {
        assert_eq!(state.step(header(i)).next, LatestAction::AwaitBlock);
    }
    assert_eq!(state.step(header(19)).next, LatestAction::Subscribe);
    assert_eq!(state.remaining(), 5);
    for i in 20..24u64 {
        assert_eq!(state.step(header(i)).next, LatestAction::AwaitBlock);
    }
    assert_eq!(state.step(header(24)).next, LatestAction::AwaitRequest);
    assert_eq!(state.remaining(), 0);
}

#[test]
fn exactly_ten_blocks_end_idle_without_renewal() {
    let mut state = LatestFetcherState::new();
    state.step(request(10));
    for i in 0..9u64 {
        assert_eq!(state.step(header(i)).next, LatestAction::AwaitBlock);
    }
    assert_eq!(state.step(header(9)).next, LatestAction::AwaitRequest);
    assert!(!state.is_subscribed());
}

#[test]
fn a_header_while_idle_is_not_fetched() {
    let mut state = LatestFetcherState::new();
    let outcome = state.step(header(1));
    assert_eq!(outcome, LatestOutcome { fetch: None, next: LatestAction::AwaitRequest });
    assert_eq!(state.remaining(), 0);
}

#[test]
fn an_ended_subscription_is_opened_again_while_blocks_are_wanted() {
    let mut state = LatestFetcherState::new();
    state.step(request(4));
    state.step(header(1));
    let outcome = state.step(LatestEvent::SubscriptionEnded);
    assert_eq!(outcome, LatestOutcome { fetch: None, next: LatestAction::Subscribe });
    assert_eq!(state.remaining(), 3);
    assert_eq!(state.batch_count(), 0);

    let mut idle = LatestFetcherState::new();
    let outcome = idle.step(LatestEvent::SubscriptionEnded);
    assert_eq!(outcome, LatestOutcome { fetch: None, next: LatestAction::AwaitRequest });
}

#[test]
fn other_requests_and_a_closed_queue_stop_the_fetcher() {
    let mut state = LatestFetcherState::new();
    state.step(request(2));
    let other = LatestEvent::Message(FetchMsg::ProveFromStart { start_block_number: 1, count: 1 });
    assert_eq!(state.step(other), LatestOutcome { fetch: None, next: LatestAction::Stop });
    assert_eq!(state.remaining(), 2);
    let other = LatestEvent::Message(FetchMsg::ReproduceFromStart { start_block_number: 1, count: 1 });
    assert_eq!(state.step(other).next, LatestAction::Stop);
    assert_eq!(state.step(LatestEvent::Closed).next, LatestAction::Stop);
    assert_eq!(state.remaining(), 2);
}
