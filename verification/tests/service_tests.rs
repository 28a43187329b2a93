use eth_proofs::dispatch::dispatch_plan;
use eth_proofs::fetch::{
    ProveBlockByNumberParams, ProveLatestBlockParams, ReproduceBlockByNumberParams,
    HTTP_PROVE_BLOCK_BY_NUMBER_PATH, HTTP_PROVE_LATEST_BLOCK_PATH,
    HTTP_REPRODUCE_BLOCK_BY_NUMBER_PATH,
};
use eth_proofs::fetch_client::{ServiceFrame, WaitOutcome, WaitProgress};
use eth_proofs::fetch_service::{
    reply_to, ws_step, FetchService, HttpReply, PeerFrame, WsAction, WsEvent, WS_WELCOME,
};
use eth_proofs::inputs::ProvingInputs;
use eth_proofs::limits::{
    CLIENT_RETRY_INTERVAL_SECONDS, DEFAULT_PARAM_COUNT, DOCKER_RETRY_WAIT_SECONDS,
    MAX_NUM_SUBBLOCKS, MAX_PROVING_WAITING_SECONDS, NUM_BLOCKS_PER_BATCH, WS_PING_INTERVAL,
};
use eth_proofs::messages::{BlockMsg, CompleteProvingResult, FetchMsg};
use eth_proofs::mock::mock_result;
use eth_proofs::proof_service::ProofService;
use eth_proofs::recovery::{
    connect_step, first_recovery_step, next_recovery_step, ConnectAction, ConnectEvent,
    RecoveryStep, RestartOutcome,
};
use eth_proofs::report::BlockProvingReport;
use eth_proofs::wire::{encode_report, WireError};
use tokio::sync::mpsc::unbounded_channel;

#[test]
fn constants_of_the_service() {
    assert_eq!(MAX_NUM_SUBBLOCKS, 7);
    assert_eq!(NUM_BLOCKS_PER_BATCH, 10);
    assert_eq!(MAX_PROVING_WAITING_SECONDS, 120);
    assert_eq!(DOCKER_RETRY_WAIT_SECONDS, 10);
    assert_eq!(CLIENT_RETRY_INTERVAL_SECONDS, 2);
    assert_eq!(WS_PING_INTERVAL, 15);
    assert_eq!(DEFAULT_PARAM_COUNT, 1);
    assert_eq!(HTTP_PROVE_BLOCK_BY_NUMBER_PATH, "/prove_block_by_number");
    assert_eq!(HTTP_PROVE_LATEST_BLOCK_PATH, "/prove_latest_block");
    assert_eq!(HTTP_REPRODUCE_BLOCK_BY_NUMBER_PATH, "/reproduce_block_by_number");
    assert_eq!(WS_WELCOME, "fetch-service: client connected");
}

#[test]
fn http_requests_are_queued_as_fetch_messages() {
    let (tx, mut rx) = unbounded_channel();
    let service = FetchService::new(tx);

    let queued = service.prove_block_by_number(ProveBlockByNumberParams::new(100, None));
    assert!(queued.is_ok());
    assert_eq!(reply_to(&queued), HttpReply { status: 200, body: "OK" });
    assert!(matches!(
        rx.try_recv(),
        Ok(BlockMsg::Fetch(FetchMsg::ProveFromStart { start_block_number: 100, count: 1 }))
    ));

    assert!(service.prove_latest_block(ProveLatestBlockParams::new(Some(5))).is_ok());
    assert!(matches!(rx.try_recv(), Ok(BlockMsg::Fetch(FetchMsg::ProveLatest { count: 5 }))));

    assert!(service
        .reproduce_block_by_number(ReproduceBlockByNumberParams::new(100, Some(2)))
        .is_ok());
    assert!(matches!(
        rx.try_recv(),
        Ok(BlockMsg::Fetch(FetchMsg::ReproduceFromStart { start_block_number: 100, count: 2 }))
    ));
    assert!(rx.try_recv().is_err());
}

#[test]
fn a_closed_queue_is_answered_with_500() {
    let (tx, rx) = unbounded_channel();
    drop(rx);
    let service = FetchService::new(tx);
    let queued = service.prove_block_by_number(ProveBlockByNumberParams::new(100, Some(4)));
    assert!(matches!(
        queued,
        Err(BlockMsg::Fetch(FetchMsg::ProveFromStart { start_block_number: 100, count: 4 }))
    ));
    assert_eq!(
        reply_to(&queued),
        HttpReply { status: 500, body: "failed to send msg: channel closed" }
    );
    let queued = service.prove_latest_block(ProveLatestBlockParams::new(None));
    assert!(matches!(queued, Err(BlockMsg::Fetch(FetchMsg::ProveLatest { count: 1 }))));
    let queued = service.reproduce_block_by_number(ReproduceBlockByNumberParams::new(1, None));
    assert!(matches!(
        queued,
        Err(BlockMsg::Fetch(FetchMsg::ReproduceFromStart { start_block_number: 1, count: 1 }))
    ));
}

#[test]
fn a_subscriber_is_registered_with_its_own_queue() {
    let (tx, mut rx) = unbounded_channel();
    let service = FetchService::new(tx);
    let (report_tx, mut report_rx) = unbounded_channel();
    assert!(service.watch(report_tx).is_ok());
    match rx.try_recv() {
        Ok(BlockMsg::Watch(watch)) => {
            watch.sender.send(BlockProvingReport::new(3, 4)).unwrap();
            assert_eq!(report_rx.try_recv().unwrap(), BlockProvingReport::new(3, 4));
        }
        other => panic!("unexpected message {:?}", other),
    }
}

#[test]
fn socket_decisions() {
    let report = BlockProvingReport::new(100, 9);
    assert_eq!(
        ws_step(WsEvent::Report(report.clone())),
        WsAction::SendBinary(encode_report(&report))
    );
    assert_eq!(ws_step(WsEvent::Peer(PeerFrame::Ping)), WsAction::SendPong);
    assert_eq!(ws_step(WsEvent::Peer(PeerFrame::Close)), WsAction::EchoCloseAndExit);
    assert_eq!(ws_step(WsEvent::Peer(PeerFrame::Pong)), WsAction::Ignore);
    assert_eq!(ws_step(WsEvent::Peer(PeerFrame::Text)), WsAction::Ignore);
    assert_eq!(ws_step(WsEvent::Peer(PeerFrame::Binary)), WsAction::Ignore);
    assert_eq!(ws_step(WsEvent::DeliveryClosed), WsAction::StopDelivery);
    assert_eq!(ws_step(WsEvent::PeerGone), WsAction::Exit);
    assert_eq!(ws_step(WsEvent::Shutdown), WsAction::Exit);
}

#[test]
fn the_proof_service_queues_results_as_they_are() {
    let (tx, mut rx) = unbounded_channel();
    let service = ProofService::new(tx);
    let result = CompleteProvingResult {
        block_number: 100,
        success: true,
        cycles: 1,
        proving_milliseconds: 2,
        proof: Some(vec![3]),
    };
    assert!(service.complete_proving(result.clone()).is_ok());
    match rx.try_recv() {
        Ok(BlockMsg::Proved(got)) => assert_eq!(got, result),
        other => panic!("unexpected message {:?}", other),
    }
    drop(rx);
    match service.complete_proving(result.clone()) {
        Err(BlockMsg::Proved(back)) => assert_eq!(back, result),
        other => panic!("unexpected outcome {:?}", other),
    }
}

#[test]
fn the_stand_in_answers_with_the_same_result() {
    let inputs = ProvingInputs::new(100, vec![1], vec![vec![2]], vec![vec![3]]).unwrap();
    let plan = dispatch_plan(&inputs, 7).unwrap();
    assert_eq!(
        mock_result(&plan.aggregation),
        CompleteProvingResult {
            block_number: 100,
            success: true,
            cycles: 1234,
            proving_milliseconds: 10_000,
            proof: Some(vec![1, 2, 3, 4, 5, 6, 7, 8]),
        }
    );
}

#[test]
fn a_wait_ends_with_the_last_report_awaited() {
    let mut progress = WaitProgress::new(3);
    for (block, last) in [(200u64, false), (201, false), (202, true)] {
        let frame = ServiceFrame::Binary(encode_report(&BlockProvingReport::new(block, 1)));
        match progress.on_frame(frame) {
            WaitOutcome::Report { report, done } => {
                assert_eq!(report, BlockProvingReport::new(block, 1));
                assert_eq!(done, last);
            }
            other => panic!("unexpected outcome {:?}", other),
        }
    }
    assert_eq!(progress.awaited, 1);
}

#[test]
fn a_wait_for_one_or_no_report_ends_with_the_first() {
    for count in [0usize, 1] {
        let mut progress = WaitProgress::new(count);
        let frame = ServiceFrame::Binary(encode_report(&BlockProvingReport::new(5, 1)));
        assert!(matches!(progress.on_frame(frame), WaitOutcome::Report { done: true, .. }));
        assert_eq!(progress.awaited, count);
    }
}

#[test]
fn frames_that_are_no_report_do_not_count() {
    let mut progress = WaitProgress::new(2);
    assert!(matches!(progress.on_frame(ServiceFrame::Other), WaitOutcome::Ignored));
    assert!(matches!(progress.on_frame(ServiceFrame::Close), WaitOutcome::ClosedByService));
    assert!(matches!(
        progress.on_frame(ServiceFrame::Binary(vec![1, 2])),
        WaitOutcome::Malformed(WireError::Truncated)
    ));
    assert!(matches!(
        progress.on_frame(ServiceFrame::Binary(vec![9])),
        WaitOutcome::Malformed(WireError::InvalidFlag)
    ));
    assert_eq!(progress.awaited, 2);
}

#[test]
fn the_connect_loop_retries_until_shutdown() {
    assert_eq!(connect_step(ConnectEvent::Ready, false), ConnectAction::Attempt);
    assert_eq!(connect_step(ConnectEvent::Failed, false), ConnectAction::Pause { seconds: 2 });
    assert_eq!(connect_step(ConnectEvent::Connected, false), ConnectAction::Done);
    for event in [ConnectEvent::Ready, ConnectEvent::Failed, ConnectEvent::Connected] {
        assert_eq!(connect_step(event, true), ConnectAction::Abandon);
    }
}

#[test]
fn recovery_runs_its_steps_in_order() {
    let mut step = first_recovery_step();
    let mut steps = vec![step];
    while step != RecoveryStep::Resume {
        step = next_recovery_step(step, RestartOutcome::Succeeded);
        steps.push(step);
    }
    assert_eq!(
        steps,
        vec![
            RecoveryStep::Restart,
            RecoveryStep::Wait { seconds: 10 },
            RecoveryStep::Reconnect,
            RecoveryStep::Redispatch,
            RecoveryStep::Resume,
        ]
    );
}

#[test]
fn recovery_gives_up_when_the_restart_fails() {
    for outcome in [
        RestartOutcome::Failed { code: Some(1) },
        RestartOutcome::Failed { code: None },
        RestartOutcome::NotRun,
    ] {
        assert_eq!(next_recovery_step(RecoveryStep::Restart, outcome), RecoveryStep::Abort);
        assert_eq!(next_recovery_step(RecoveryStep::Abort, outcome), RecoveryStep::Abort);
        assert_eq!(next_recovery_step(RecoveryStep::Reconnect, outcome), RecoveryStep::Redispatch);
    }
}
