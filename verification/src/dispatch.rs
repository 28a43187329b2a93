//! Sending one block's inputs to the workers: the requests to make, and what
//! to do when a request fails.

use crate::inputs::{copy_byte_strings, lemma_byte_strings_index, InputsView, ProvingInputs};
use crate::limits::{MAX_PROVING_REQUEST_RETRIES, PROVING_REQUEST_RETRY_INTERVAL_SECONDS};
use vstd::prelude::*;

verus! {

/// The request made to the aggregator.
#[derive(Debug, PartialEq, Eq)]
pub struct ProveAggregationRequest {
    pub block_number: u64,
    pub num_subblocks: u32,
    pub subblock_public_values: Vec<Vec<u8>>,
    pub input: Vec<u8>,
}

/// The request made to one subblock worker.
#[derive(Debug, PartialEq, Eq)]
pub struct ProveSubblockRequest {
    pub block_number: u64,
    pub num_subblocks: u32,
    pub subblock_index: u32,
    pub input: Vec<u8>,
}

/// Every request that sending one block's inputs takes: first the one to the
/// aggregator, then one to each subblock worker, in the workers' order.
#[derive(Debug, PartialEq, Eq)]
pub struct DispatchPlan {
    pub aggregation: ProveAggregationRequest,
    pub subblocks: Vec<ProveSubblockRequest>,
}

/// Why a block's inputs cannot be sent.
#[derive(Clone, Copy, Debug, PartialEq, Eq, Structural)]
pub enum DispatchError {
    /// The inputs hold more subblocks than there are subblock workers.
    InsufficientWorkers,
}

/// Mathematical value of a [`ProveAggregationRequest`].
pub struct AggregationRequestView {
    pub block_number: u64,
    pub num_subblocks: u32,
    pub subblock_public_values: Seq<Seq<u8>>,
    pub input: Seq<u8>,
}

/// Mathematical value of a [`ProveSubblockRequest`].
pub struct SubblockRequestView {
    pub block_number: u64,
    pub num_subblocks: u32,
    pub subblock_index: u32,
    pub input: Seq<u8>,
}

/// Mathematical value of a [`DispatchPlan`].
pub struct PlanView {
    pub aggregation: AggregationRequestView,
    pub subblocks: Seq<SubblockRequestView>,
}

impl View for ProveAggregationRequest {
    type V = AggregationRequestView;

    open spec fn view(&self) -> AggregationRequestView {
        AggregationRequestView {
            block_number: self.block_number,
            num_subblocks: self.num_subblocks,
            subblock_public_values: self.subblock_public_values.deep_view(),
            input: self.input@,
        }
    }
}

impl View for ProveSubblockRequest {
    type V = SubblockRequestView;

    open spec fn view(&self) -> SubblockRequestView {
        SubblockRequestView {
            block_number: self.block_number,
            num_subblocks: self.num_subblocks,
            subblock_index: self.subblock_index,
            input: self.input@,
        }
    }
}

impl View for DispatchPlan {
    type V = PlanView;

    open spec fn view(&self) -> PlanView {
        PlanView {
            aggregation: self.aggregation@,
            subblocks: self.subblocks@.map_values(|r: ProveSubblockRequest| r@),
        }
    }
}

impl Clone for ProveAggregationRequest {
    fn clone(&self) -> (copy: Self)
        ensures
            copy@ == self@,
    {
        ProveAggregationRequest {
            block_number: self.block_number,
            num_subblocks: self.num_subblocks,
            subblock_public_values: copy_byte_strings(&self.subblock_public_values),
            input: self.input.clone(),
        }
    }
}

impl Clone for ProveSubblockRequest {
    fn clone(&self) -> (copy: Self)
        ensures
            copy@ == self@,
    {
        ProveSubblockRequest {
            block_number: self.block_number,
            num_subblocks: self.num_subblocks,
            subblock_index: self.subblock_index,
            input: self.input.clone(),
        }
    }
}

/// The input for each of `workers` subblock workers: the subblock inputs as
/// they are, followed by the first of them for every worker beyond their
/// number. All workers must receive a request, also those with no subblock
/// of their own.
pub open spec fn padded_inputs(inputs: Seq<Seq<u8>>, workers: nat) -> Seq<Seq<u8>>
    recommends
        1 <= inputs.len() <= workers,
{
    Seq::new(
        workers,
        |i: int|
            if i < inputs.len() {
                inputs[i]
            } else {
                inputs[0]
            },
    )
}

/// The requests for `inputs` with `workers` subblock workers.
pub open spec fn plan_of(inputs: InputsView, workers: nat) -> PlanView
    recommends
        1 <= inputs.subblock_inputs.len() <= workers <= u32::MAX,
{
    PlanView {
        aggregation: AggregationRequestView {
            block_number: inputs.block_number,
            num_subblocks: inputs.subblock_inputs.len() as u32,
            subblock_public_values: inputs.subblock_public_values,
            input: inputs.agg_input,
        },
        subblocks: Seq::new(
            workers,
            |i: int|
                SubblockRequestView {
                    block_number: inputs.block_number,
                    num_subblocks: inputs.subblock_inputs.len() as u32,
                    subblock_index: i as u32,
                    input: padded_inputs(inputs.subblock_inputs, workers)[i],
                },
        ),
    }
}

/// The requests for `inputs` with `workers` subblock workers, or why there
/// are none.
pub open spec fn dispatch_of(inputs: InputsView, workers: nat) -> Result<PlanView, DispatchError>
    recommends
        inputs.well_formed(),
{
    if inputs.subblock_inputs.len() > workers {
        Err(DispatchError::InsufficientWorkers)
    } else {
        Ok(plan_of(inputs, workers))
    }
}

/// Lays out the requests that send `inputs` to the aggregator and to
/// `worker_count` subblock workers.
pub fn dispatch_plan(inputs: &ProvingInputs, worker_count: u32) -> (plan: Result<
    DispatchPlan,
    DispatchError,
>)
    ensures
        inputs@.well_formed(),
        match plan {
            Ok(p) => dispatch_of(inputs@, worker_count as nat) == Ok::<PlanView, DispatchError>(p@),
            Err(e) => dispatch_of(inputs@, worker_count as nat) == Err::<PlanView, DispatchError>(e),
        },
{
    let k = inputs.num_subblocks();
    let workers = worker_count as usize;
    if k > workers {
        return Err(DispatchError::InsufficientWorkers);
    }
    let num_subblocks = k as u32;
    let aggregation = ProveAggregationRequest {
        block_number: inputs.block_number(),
        num_subblocks,
        subblock_public_values: copy_byte_strings(inputs.subblock_public_values()),
        input: inputs.agg_input().clone(),
    };
    let sources = inputs.subblock_inputs();
    let ghost want = plan_of(inputs@, worker_count as nat);
    let mut subblocks: Vec<ProveSubblockRequest> = Vec::with_capacity(workers);
    let mut i: usize = 0;
    while i < workers
        invariant
            1 <= k <= workers <= u32::MAX,
            workers == worker_count,
            k == sources.len(),
            sources.deep_view() == inputs@.subblock_inputs,
            num_subblocks == k as u32,
            want == plan_of(inputs@, worker_count as nat),
            i <= workers,
            subblocks.len() == i,
            forall|j: int| 0 <= j < i ==> (#[trigger] subblocks[j])@ == want.subblocks[j],
        decreases workers - i,
    {
        let source = if i < k {
            &sources[i]
        } else {
            &sources[0]
        };
        let request = ProveSubblockRequest {
            block_number: inputs.block_number(),
            num_subblocks,
            subblock_index: i as u32,
            input: source.clone(),
        };
        proof {
            let at: int = if i < k {
                i as int
            } else {
                0
            };
            lemma_byte_strings_index(*sources, at);
        }
        assert(request@ == want.subblocks[i as int]);
        subblocks.push(request);
        i += 1;
    }
    let plan = DispatchPlan { aggregation, subblocks };
    assert(plan@.subblocks =~= want.subblocks);
    Ok(plan)
}

/// What to do after a proving request has failed.
#[derive(Clone, Copy, Debug, PartialEq, Eq, Structural)]
pub enum RetryDecision {
    /// Wait this many seconds, then make the same request again.
    RetryAfter { seconds: u64 },
    /// The request has failed too often: give up for good.
    GiveUp,
}

/// The decision after the `failures`-th failed attempt of one request. A
/// request is attempted at most [`MAX_PROVING_REQUEST_RETRIES`] times.
pub open spec fn retry_decision(failures: u32) -> RetryDecision {
    if failures >= MAX_PROVING_REQUEST_RETRIES {
        RetryDecision::GiveUp
    } else {
        RetryDecision::RetryAfter { seconds: PROVING_REQUEST_RETRY_INTERVAL_SECONDS }
    }
}

/// Counts the failed attempts of one proving request.
#[derive(Clone, Copy, Debug, PartialEq, Eq, Structural)]
pub struct RequestAttempts {
    /// Attempts that have failed so far.
    pub failures: u32,
}

impl RequestAttempts {
    /// No attempt has failed yet.
    pub fn new() -> (attempts: Self)
        ensures
            attempts.failures == 0,
    {
        RequestAttempts { failures: 0 }
    }

    /// Counts one more failed attempt and decides what to do. The count
    /// stays where it is once the request is given up.
    pub fn on_failure(&mut self) -> (decision: RetryDecision)
        ensures
            old(self).failures < MAX_PROVING_REQUEST_RETRIES ==> final(self).failures == old(
                self,
            ).failures + 1,
            old(self).failures >= MAX_PROVING_REQUEST_RETRIES ==> final(self).failures == old(
                self,
            ).failures,
            decision == retry_decision(final(self).failures),
    {
        if self.failures < MAX_PROVING_REQUEST_RETRIES {
            self.failures = self.failures + 1;
        }
        if self.failures >= MAX_PROVING_REQUEST_RETRIES {
            RetryDecision::GiveUp
        } else {
            RetryDecision::RetryAfter { seconds: PROVING_REQUEST_RETRY_INTERVAL_SECONDS }
        }
    }
}

/// Padding leaves the subblock inputs as they are and gives every worker
/// beyond their number the first of them.
pub proof fn lemma_padding(inputs: Seq<Seq<u8>>, workers: nat)
    requires
        1 <= inputs.len() <= workers,
    ensures
        padded_inputs(inputs, workers).len() == workers,
        padded_inputs(inputs, workers).subrange(0, inputs.len() as int) == inputs,
        forall|i: int|
            inputs.len() <= i < workers ==> #[trigger] padded_inputs(inputs, workers)[i]
                == inputs[0],
        inputs.len() == workers ==> padded_inputs(inputs, workers) == inputs,
{
    assert(padded_inputs(inputs, workers).subrange(0, inputs.len() as int) =~= inputs);
    if inputs.len() == workers {
        assert(padded_inputs(inputs, workers) =~= inputs);
    }
}

/// Each subblock worker gets one request, which bears the worker's index,
/// the block number and the true number of subblocks.
pub proof fn lemma_one_request_per_worker(inputs: InputsView, workers: nat)
    requires
        1 <= inputs.subblock_inputs.len() <= workers <= u32::MAX,
    ensures
        dispatch_of(inputs, workers) is Ok,
        dispatch_of(inputs, workers)->Ok_0.subblocks.len() == workers,
        forall|i: int|
            0 <= i < workers ==> {
                let request = #[trigger] dispatch_of(inputs, workers)->Ok_0.subblocks[i];
                &&& request.subblock_index == i
                &&& request.block_number == inputs.block_number
                &&& request.num_subblocks == inputs.subblock_inputs.len()
            },
{
}

} // verus!
