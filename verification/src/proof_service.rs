//! The inbound side of the workers' callback: a finished block's result is
//! handed to the scheduler.

use crate::channel::send_or_return;
use crate::messages::{BlockMsg, CompleteProvingResult};
use tokio::sync::mpsc::UnboundedSender;
use vstd::prelude::*;

verus! {

/// The service's end of the queue to the scheduler.
#[derive(Debug)]
pub struct ProofService {
    pub comm_sender: UnboundedSender<BlockMsg>,
}

impl ProofService {
    pub fn new(comm_sender: UnboundedSender<BlockMsg>) -> (service: Self)
        ensures
            service.comm_sender == comm_sender,
    {
        ProofService { comm_sender }
    }

    /// Queues a worker's result for the scheduler, as it is. Where the
    /// queue is closed the message comes back.
    pub fn complete_proving(&self, result: CompleteProvingResult) -> (queued: Result<(), BlockMsg>)
        ensures
            queued matches Err(back) ==> back == BlockMsg::Proved(result),
    {
        send_or_return(&self.comm_sender, BlockMsg::Proved(result))
    }
}

} // verus!
