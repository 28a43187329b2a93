use eth_proofs::inputs::ProvingInputs;
use eth_proofs::messages::{BlockMsg, CompleteProvingResult, FetchMsg, ProvingMsg};
use eth_proofs::proving_client::{ClientAction, ClientEvent, ClientFault, ProvingClientState};
use eth_proofs::report::BlockProvingReport;

fn sample_inputs(block_number: u64) -> ProvingInputs {
    ProvingInputs::new(
        block_number,
        vec![block_number as u8],
        vec![vec![1, block_number as u8], vec![2]],
        vec![vec![3], vec![4]],
    )
    .unwrap()
}

fn proving_event(block_number: u64) -> ClientEvent {
    ClientEvent::Message(BlockMsg::Proving(ProvingMsg::new(
        BlockProvingReport::new(block_number, 10 + block_number),
        sample_inputs(block_number),
    )))
}

fn proved_event(block_number: u64, success: bool) -> ClientEvent {
    ClientEvent::Message(BlockMsg::Proved(CompleteProvingResult {
        block_number,
        success,
        cycles: 1234,
        proving_milliseconds: 10_000,
        proof: if success { Some(vec![1, 2, 3]) } else { None },
    }))
}

#[test]
fn a_new_client_is_idle() {
    let state = ProvingClientState::new();
    assert_eq!(state.in_flight_block(), None);
    assert_eq!(state.last_inputs(), None);
    assert_eq!(state.pending_len(), 0);
}

#[test]
fn first_request_goes_in_flight_and_is_dispatched() {
    let (state, action) = ProvingClientState::new().step(proving_event(100));
    assert!(matches!(action, ClientAction::Dispatch));
    assert_eq!(state.in_flight_block(), Some(100));
    assert_eq!(state.last_inputs(), Some(&sample_inputs(100)));
    assert_eq!(state.pending_len(), 0);
}

#[test]
fn requests_behind_a_block_in_flight_are_queued() {
    let (state, _) = ProvingClientState::new().step(proving_event(100));
    let (state, action) = state.step(proving_event(101));
    assert!(matches!(action, ClientAction::Queued));
    let (state, action) = state.step(proving_event(102));
    assert!(matches!(action, ClientAction::Queued));
    assert_eq!(state.in_flight_block(), Some(100));
    assert_eq!(state.last_inputs(), Some(&sample_inputs(100)));
    assert_eq!(state.pending_len(), 2);
}

#[test]
fn a_result_publishes_the_merged_report() {
    let (state, _) = ProvingClientState::new().step(proving_event(100));
    let (state, action) = state.step(proved_event(100, true));
    match action {
        ClientAction::Publish { report, dispatch_next } => {
            assert_eq!(
                report,
                BlockProvingReport {
                    success: true,
                    block_number: 100,
                    cycles: 1234,
                    proving_milliseconds: 10_000,
                    data_fetch_milliseconds: 110,
                    proof: Some(vec![1, 2, 3]),
                }
            );
            assert!(!dispatch_next);
        }
        other => panic!("unexpected action {:?}", other),
    }
    assert_eq!(state.in_flight_block(), None);
    assert_eq!(state.last_inputs(), None);
}

#[test]
fn a_failed_result_publishes_a_failed_report() {
    let (state, _) = ProvingClientState::new().step(proving_event(5));
    let (_, action) = state.step(proved_event(5, false));
    match action {
        ClientAction::Publish { report, dispatch_next } => {
            assert_eq!(
                report,
                BlockProvingReport {
                    success: false,
                    block_number: 5,
                    cycles: 1234,
                    proving_milliseconds: 10_000,
                    data_fetch_milliseconds: 15,
                    proof: None,
                }
            );
            assert!(!dispatch_next);
        }
        other => panic!("unexpected action {:?}", other),
    }
}

#[test]
fn a_failed_result_hands_on_all_it_carries() {
    let (state, _) = ProvingClientState::new().step(proving_event(6));
    let event = ClientEvent::Message(BlockMsg::Proved(CompleteProvingResult {
        block_number: 6,
        success: false,
        cycles: 77,
        proving_milliseconds: 88,
        proof: Some(vec![9, 9]),
    }));
    let (state, action) = state.step(event);
    match action {
        ClientAction::Publish { report, dispatch_next } => {
            assert_eq!(
                report,
                BlockProvingReport {
                    success: false,
                    block_number: 6,
                    cycles: 77,
                    proving_milliseconds: 88,
                    data_fetch_milliseconds: 16,
                    proof: Some(vec![9, 9]),
                }
            );
            assert!(!dispatch_next);
        }
        other => panic!("unexpected action {:?}", other),
    }
    assert_eq!(state.in_flight_block(), None);
}

#[test]
fn queued_requests_are_served_oldest_first() {
    let (state, _) = ProvingClientState::new().step(proving_event(1));
    let (state, _) = state.step(proving_event(2));
    let (state, _) = state.step(proving_event(3));

    let (state, action) = state.step(proved_event(1, true));
    assert!(matches!(action, ClientAction::Publish { dispatch_next: true, .. }));
    assert_eq!(state.in_flight_block(), Some(2));
    assert_eq!(state.last_inputs(), Some(&sample_inputs(2)));
    assert_eq!(state.pending_len(), 1);

    let (state, action) = state.step(proved_event(2, true));
    assert!(matches!(action, ClientAction::Publish { dispatch_next: true, .. }));
    assert_eq!(state.in_flight_block(), Some(3));
    assert_eq!(state.pending_len(), 0);

    let (state, action) = state.step(proved_event(3, false));
    assert!(matches!(action, ClientAction::Publish { dispatch_next: false, .. }));
    assert_eq!(state.in_flight_block(), None);
}

#[test]
fn one_report_per_accepted_result() {
    let events = vec![
        proving_event(10),
        proving_event(11),
        ClientEvent::Timeout,
        proved_event(10, true),
        proving_event(12),
        proved_event(11, false),
        ClientEvent::Timeout,
        proved_event(12, true),
        ClientEvent::Timeout,
    ];
    let mut state = ProvingClientState::new();
    let mut published = vec![];
    for event in events {
        let (next, action) = state.step(event);
        state = next;
        if let ClientAction::Publish { report, .. } = action {
            published.push((report.block_number, report.success));
        }
    }
    assert_eq!(published, vec![(10, true), (11, false), (12, true)]);
}

#[test]
fn a_result_for_another_block_is_a_fault() {
    let (state, _) = ProvingClientState::new().step(proving_event(100));
    let (state, action) = state.step(proved_event(101, true));
    assert!(matches!(
        action,
        ClientAction::Abort(ClientFault::UnexpectedBlock { in_flight: 100, proved: 101 })
    ));
    assert_eq!(state.in_flight_block(), Some(100));
    assert_eq!(state.last_inputs(), Some(&sample_inputs(100)));
}

#[test]
fn a_result_with_nothing_in_flight_is_a_fault() {
    let (state, action) = ProvingClientState::new().step(proved_event(1, true));
    assert!(matches!(action, ClientAction::Abort(ClientFault::NothingInFlight)));
    assert_eq!(state.in_flight_block(), None);
}

fn success_without_proof(block_number: u64) -> ClientEvent {
    ClientEvent::Message(BlockMsg::Proved(CompleteProvingResult {
        block_number,
        success: true,
        cycles: 1,
        proving_milliseconds: 2,
        proof: None,
    }))
}

#[test]
fn a_success_without_proof_is_published_as_it_is() {
    let (state, _) = ProvingClientState::new().step(proving_event(4));
    let (state, _) = state.step(proving_event(5));
    let (state, action) = state.step(success_without_proof(4));
    match action {
        ClientAction::Publish { report, dispatch_next } => {
            assert_eq!(
                report,
                BlockProvingReport {
                    success: true,
                    block_number: 4,
                    cycles: 1,
                    proving_milliseconds: 2,
                    data_fetch_milliseconds: 14,
                    proof: None,
                }
            );
            assert!(dispatch_next);
        }
        other => panic!("unexpected action {:?}", other),
    }
    assert_eq!(state.in_flight_block(), Some(5));
    assert_eq!(state.last_inputs(), Some(&sample_inputs(5)));
    assert_eq!(state.pending_len(), 0);
}

#[test]
fn a_result_after_recovery_is_published() {
    let (state, _) = ProvingClientState::new().step(proving_event(7));
    let (state, action) = state.step(ClientEvent::Timeout);
    assert!(matches!(action, ClientAction::Recover));
    let (state, action) = state.step(success_without_proof(7));
    assert!(matches!(action, ClientAction::Publish { dispatch_next: false, .. }));
    assert_eq!(state.in_flight_block(), None);

    let (state, _) = state.step(proving_event(8));
    let (state, _) = state.step(ClientEvent::Timeout);
    let (state, action) = state.step(proved_event(8, true));
    match action {
        ClientAction::Publish { report, .. } => assert_eq!(report.block_number, 8),
        other => panic!("unexpected action {:?}", other),
    }
    assert_eq!(state.in_flight_block(), None);
}

/// Runs three requests and their three results in the order `order` gives,
/// `true` standing for the next request and `false` for the result of the
/// block in flight, and returns what was published and what was sent to the
/// workers, each report and each dispatch in the order in which it occurred.
fn run_interleaved(order: &[bool]) -> (Vec<u64>, Vec<String>) {
    let mut state = ProvingClientState::new();
    let mut next_request = 200;
    let mut published = vec![];
    let mut trace = vec![];
    for is_request in order {
        let event = if *is_request {
            next_request += 1;
            proving_event(next_request - 1)
        } else {
            proved_event(state.in_flight_block().expect("a block in flight"), true)
        };
        let (next, action) = state.step(event);
        state = next;
        match action {
            ClientAction::Dispatch => {
                trace.push(format!("dispatch {}", state.in_flight_block().unwrap()));
            }
            ClientAction::Publish { report, dispatch_next } => {
                published.push(report.block_number);
                trace.push(format!("report {}", report.block_number));
                if dispatch_next {
                    trace.push(format!("dispatch {}", state.in_flight_block().unwrap()));
                }
            }
            ClientAction::Queued => {}
            other => panic!("unexpected action {:?}", other),
        }
    }
    (published, trace)
}

#[test]
fn a_range_is_reported_in_order_however_requests_and_results_interleave() {
    let mut orders = vec![];
    for bits in 0u32..64 {
        let order: Vec<bool> = (0..6).map(|i| bits & (1 << i) != 0).collect();
        let mut requests = 0;
        let mut results = 0;
        let mut valid = true;
        for is_request in order.iter() {
            if *is_request {
                requests += 1;
            } else {
                results += 1;
            }
            valid = valid && results <= requests;
        }
        if valid && requests == 3 {
            orders.push(order);
        }
    }
    assert_eq!(orders.len(), 5);
    for order in orders {
        let (published, trace) = run_interleaved(&order);
        assert_eq!(published, vec![200, 201, 202], "{:?}", order);
        assert_eq!(
            trace,
            vec![
                "dispatch 200",
                "report 200",
                "dispatch 201",
                "report 201",
                "dispatch 202",
                "report 202",
            ],
            "{:?}",
            order
        );
    }
}

#[test]
fn timeout_in_flight_asks_for_recovery_and_keeps_the_state() {
    let (state, _) = ProvingClientState::new().step(proving_event(100));
    let (state, _) = state.step(proving_event(101));
    let (state, action) = state.step(ClientEvent::Timeout);
    assert!(matches!(action, ClientAction::Recover));
    assert_eq!(state.in_flight_block(), Some(100));
    assert_eq!(state.last_inputs(), Some(&sample_inputs(100)));
    assert_eq!(state.pending_len(), 1);
    let (state, action) = state.step(ClientEvent::Timeout);
    assert!(matches!(action, ClientAction::Recover));
    assert_eq!(state.in_flight_block(), Some(100));
}

#[test]
fn timeout_while_idle_waits_again() {
    let (state, action) = ProvingClientState::new().step(ClientEvent::Timeout);
    assert!(matches!(action, ClientAction::Wait));
    assert_eq!(state.in_flight_block(), None);
}

#[test]
fn a_closed_queue_stops_the_client() {
    let (_, action) = ProvingClientState::new().step(ClientEvent::Closed);
    assert!(matches!(action, ClientAction::Stop));
}

#[test]
fn a_message_of_another_kind_stops_the_client() {
    let (state, _) = ProvingClientState::new().step(proving_event(1));
    let event = ClientEvent::Message(BlockMsg::Fetch(FetchMsg::ProveLatest { count: 1 }));
    let (state, action) = state.step(event);
    assert!(matches!(action, ClientAction::Stop));
    assert_eq!(state.in_flight_block(), Some(1));
    let event = ClientEvent::Message(BlockMsg::Report(BlockProvingReport::new(1, 1)));
    let (_, action) = state.step(event);
    assert!(matches!(action, ClientAction::Stop));
}
