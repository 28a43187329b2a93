//! The stand-in for the proving workers: it answers every aggregation
//! request at once with the same successful result.

use crate::dispatch::ProveAggregationRequest;
use crate::limits::MAX_NUM_SUBBLOCKS;
use crate::messages::{CompleteProvingResult, ProvedView};
use vstd::prelude::*;

verus! {

/// Number of stand-in subblock workers.
pub const NUM_MOCK_PROVING_SUBBLOCKS: usize = MAX_NUM_SUBBLOCKS;

/// Address of the stand-in aggregator.
pub const MOCK_PROVING_AGGREGATOR_ADDR: &'static str = "[::1]:55551";

/// Address shared by the stand-in subblock workers.
pub const MOCK_PROVING_SUBBLOCK_ADDR: &'static str = "[::1]:55552";

/// Cycles the stand-in reports.
pub const MOCK_CYCLES: u64 = 1234;

/// Proving time the stand-in reports, in milliseconds.
pub const MOCK_PROVING_MILLISECONDS: u64 = 10_000;

/// The proof the stand-in reports.
pub open spec fn mock_proof() -> Seq<u8> {
    seq![1u8, 2u8, 3u8, 4u8, 5u8, 6u8, 7u8, 8u8]
}

/// The result the stand-in reports for a block.
pub open spec fn mock_result_of(block_number: u64) -> ProvedView {
    ProvedView {
        block_number,
        success: true,
        cycles: MOCK_CYCLES,
        proving_milliseconds: MOCK_PROVING_MILLISECONDS,
        proof: Some(mock_proof()),
    }
}

/// Makes the result the stand-in reports for the block of a request.
pub fn mock_result(request: &ProveAggregationRequest) -> (result: CompleteProvingResult)
    ensures
        result@ == mock_result_of(request.block_number),
{
    let mut payload: Vec<u8> = Vec::with_capacity(8);
    payload.push(1);
    payload.push(2);
    payload.push(3);
    payload.push(4);
    payload.push(5);
    payload.push(6);
    payload.push(7);
    payload.push(8);
    assert(payload@ =~= mock_proof());
    CompleteProvingResult {
        block_number: request.block_number,
        success: true,
        cycles: MOCK_CYCLES,
        proving_milliseconds: MOCK_PROVING_MILLISECONDS,
        proof: Some(payload),
    }
}

} // verus!
