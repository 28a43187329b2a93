//! Fixed limits and intervals of the coordination plane.

use vstd::prelude::*;

verus! {

/// Largest number of subblocks a block is split into.
pub const MAX_NUM_SUBBLOCKS: usize = 7;

/// Most latest blocks handled on one subscription before it is renewed.
pub const NUM_BLOCKS_PER_BATCH: u64 = 10;

/// Seconds the proving client waits for a message before it suspects a stall.
pub const MAX_PROVING_WAITING_SECONDS: u64 = 120;

/// Seconds to wait after restarting the workers before reconnecting to them.
pub const DOCKER_RETRY_WAIT_SECONDS: u64 = 10;

/// Seconds between two attempts to connect to a worker.
pub const CLIENT_RETRY_INTERVAL_SECONDS: u64 = 2;

/// Retries allowed for one proving request before giving up.
pub const MAX_PROVING_REQUEST_RETRIES: u32 = 50;

/// Seconds between two attempts of one proving request.
pub const PROVING_REQUEST_RETRY_INTERVAL_SECONDS: u64 = 10;

/// Seconds between two keep-alive pings of a subscribed client.
pub const WS_PING_INTERVAL: u64 = 15;

/// Value of an omitted `count` parameter.
pub const DEFAULT_PARAM_COUNT: u64 = 1;

} // verus!
