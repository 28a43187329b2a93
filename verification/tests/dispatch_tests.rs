use eth_proofs::dispatch::{
    dispatch_plan, DispatchError, ProveAggregationRequest, ProveSubblockRequest, RequestAttempts,
    RetryDecision,
};
use eth_proofs::inputs::ProvingInputs;
use eth_proofs::limits::{MAX_PROVING_REQUEST_RETRIES, PROVING_REQUEST_RETRY_INTERVAL_SECONDS};

fn inputs_with(k: usize) -> ProvingInputs {
    ProvingInputs::new(
        77,
        vec![7, 7],
        (0..k).map(|i| vec![i as u8, 100]).collect(),
        (0..k).map(|i| vec![i as u8, 200]).collect(),
    )
    .unwrap()
}

#[test]
fn plan_for_as_many_subblocks_as_workers() {
    let plan = dispatch_plan(&inputs_with(3), 3).unwrap();
    assert_eq!(
        plan.aggregation,
        ProveAggregationRequest {
            block_number: 77,
            num_subblocks: 3,
            subblock_public_values: vec![vec![0, 200], vec![1, 200], vec![2, 200]],
            input: vec![7, 7],
        }
    );
    assert_eq!(
        plan.subblocks,
        vec![
            ProveSubblockRequest { block_number: 77, num_subblocks: 3, subblock_index: 0, input: vec![0, 100] },
            ProveSubblockRequest { block_number: 77, num_subblocks: 3, subblock_index: 1, input: vec![1, 100] },
            ProveSubblockRequest { block_number: 77, num_subblocks: 3, subblock_index: 2, input: vec![2, 100] },
        ]
    );
}

#[test]
fn padding_repeats_the_first_input_for_idle_workers() {
    let given = inputs_with(2);
    let plan = dispatch_plan(&given, 7).unwrap();
    assert_eq!(plan.aggregation.num_subblocks, 2);
    assert_eq!(plan.subblocks.len(), 7);
    for (i, request) in plan.subblocks.iter().enumerate() {
        assert_eq!(request.block_number, 77);
        assert_eq!(request.num_subblocks, 2);
        assert_eq!(request.subblock_index, i as u32);
        let expected = if i < 2 { vec![i as u8, 100] } else { vec![0, 100] };
        assert_eq!(request.input, expected);
    }
    assert_eq!(given, inputs_with(2));
}

#[test]
fn a_single_subblock_arms_every_worker() {
    let plan = dispatch_plan(&inputs_with(1), 4).unwrap();
    let sent: Vec<Vec<u8>> = plan.subblocks.iter().map(|r| r.input.clone()).collect();
    assert_eq!(sent, vec![vec![0, 100]; 4]);
}

#[test]
fn every_count_of_subblocks_fits_seven_workers() {
    for k in 1..=7usize {
        let plan = dispatch_plan(&inputs_with(k), 7).unwrap();
        assert_eq!(plan.aggregation.num_subblocks, k as u32);
        assert_eq!(plan.subblocks.len(), 7);
        assert_eq!(plan.aggregation.subblock_public_values.len(), k);
    }
}

#[test]
fn more_subblocks_than_workers_is_refused() {
    assert_eq!(dispatch_plan(&inputs_with(3), 2), Err(DispatchError::InsufficientWorkers));
    assert_eq!(dispatch_plan(&inputs_with(1), 0), Err(DispatchError::InsufficientWorkers));
}

#[test]
fn the_aggregator_gets_the_public_values_as_they_are() {
    let given = ProvingInputs::new(1, vec![], vec![vec![1], vec![]], vec![vec![2], vec![3, 3]]).unwrap();
    let plan = dispatch_plan(&given, 2).unwrap();
    assert_eq!(plan.aggregation.subblock_public_values, vec![vec![2], vec![3, 3]]);
    assert_eq!(plan.aggregation.num_subblocks, 2);
    assert_eq!(plan.aggregation.input, Vec::<u8>::new());
}

#[test]
fn a_request_is_retried_until_the_limit() {
    let mut attempts = RequestAttempts::new();
    for failed in 1..MAX_PROVING_REQUEST_RETRIES {
        assert_eq!(
            attempts.on_failure(),
            RetryDecision::RetryAfter { seconds: PROVING_REQUEST_RETRY_INTERVAL_SECONDS }
        );
        assert_eq!(attempts.failures, failed);
    }
    assert_eq!(attempts.on_failure(), RetryDecision::GiveUp);
    assert_eq!(attempts.failures, 50);
    assert_eq!(attempts.on_failure(), RetryDecision::GiveUp);
    assert_eq!(attempts.failures, 50);
}

#[test]
fn retry_interval_is_ten_seconds() {
    let mut attempts = RequestAttempts::new();
    assert_eq!(attempts.on_failure(), RetryDecision::RetryAfter { seconds: 10 });
}

#[test]
fn request_copies_are_equal() {
    let plan = dispatch_plan(&inputs_with(2), 2).unwrap();
    assert_eq!(plan.aggregation.clone(), plan.aggregation);
    assert_eq!(plan.subblocks[1].clone(), plan.subblocks[1]);
}
