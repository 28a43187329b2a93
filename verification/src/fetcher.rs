//! The fetcher: the router in front of the three sub-fetchers, the blocks a
//! range request stands for, and the message that announces fetched inputs.

use crate::channel::send_or_return;
use crate::inputs::ProvingInputs;
use crate::messages::{BlockMsg, BlockMsgView, FetchMsg, ProvingMsg, ProvingMsgView};
use crate::report::{BlockProvingReport, ReportView};
use tokio::sync::mpsc::UnboundedSender;
use vstd::prelude::*;

verus! {

/// The three sub-fetchers.
#[derive(Clone, Copy, Debug, PartialEq, Eq, Structural)]
pub enum SubFetcher {
    ProvingFromStart,
    ProvingLatest,
    ReproducingFromStart,
}

/// The sub-fetcher that serves a request.
pub open spec fn sub_fetcher_of(msg: FetchMsg) -> SubFetcher {
    match msg {
        FetchMsg::ProveFromStart { .. } => SubFetcher::ProvingFromStart,
        FetchMsg::ProveLatest { .. } => SubFetcher::ProvingLatest,
        FetchMsg::ReproduceFromStart { .. } => SubFetcher::ReproducingFromStart,
    }
}

/// Finds the sub-fetcher that serves a request.
pub fn sub_fetcher_for(msg: &FetchMsg) -> (target: SubFetcher)
    ensures
        target == sub_fetcher_of(*msg),
{
    match msg {
        FetchMsg::ProveFromStart { .. } => SubFetcher::ProvingFromStart,
        FetchMsg::ProveLatest { .. } => SubFetcher::ProvingLatest,
        FetchMsg::ReproduceFromStart { .. } => SubFetcher::ReproducingFromStart,
    }
}

/// What became of a message that reached the router.
#[derive(Debug)]
pub enum Routed {
    /// The request was put on the queue of this sub-fetcher.
    Delivered(SubFetcher),
    /// The message is no request: it comes back unused.
    Ignored(BlockMsg),
    /// The queue of the sub-fetcher it is for is closed: it comes back.
    Undeliverable { target: SubFetcher, msg: FetchMsg },
}

/// What became of a request bound for `target`, given how putting it on the
/// queue ended.
pub fn routed(target: SubFetcher, sent: Result<(), FetchMsg>) -> (outcome: Routed)
    ensures
        match sent {
            Ok(()) => outcome matches Routed::Delivered(t) && t == target,
            Err(back) => outcome matches Routed::Undeliverable { target: t, msg } && t == target
                && msg == back,
        },
{
    match sent {
        Ok(()) => Routed::Delivered(target),
        Err(msg) => Routed::Undeliverable { target, msg },
    }
}

/// The router of the fetcher: it holds the queue of each sub-fetcher.
#[derive(Debug)]
pub struct BlockFetcher {
    pub proving_from_start: UnboundedSender<FetchMsg>,
    pub proving_latest: UnboundedSender<FetchMsg>,
    pub reproducing_from_start: UnboundedSender<FetchMsg>,
}

impl BlockFetcher {
    pub fn new(
        proving_from_start: UnboundedSender<FetchMsg>,
        proving_latest: UnboundedSender<FetchMsg>,
        reproducing_from_start: UnboundedSender<FetchMsg>,
    ) -> (fetcher: Self)
        ensures
            fetcher.proving_from_start == proving_from_start,
            fetcher.proving_latest == proving_latest,
            fetcher.reproducing_from_start == reproducing_from_start,
    {
        BlockFetcher { proving_from_start, proving_latest, reproducing_from_start }
    }

    /// Passes a request on to the one sub-fetcher that serves it. Any other
    /// message goes nowhere.
    pub fn route(&self, msg: BlockMsg) -> (outcome: Routed)
        ensures
            match msg@ {
                BlockMsgView::Fetch(request) => match outcome {
                    Routed::Delivered(t) => t == sub_fetcher_of(request),
                    Routed::Undeliverable { target, msg: back } => target == sub_fetcher_of(request)
                        && back == request,
                    Routed::Ignored(_) => false,
                },
                _ => outcome matches Routed::Ignored(back) && back == msg,
            },
    {
        match msg {
            BlockMsg::Fetch(request) => {
                let target = sub_fetcher_for(&request);
                let sent = match target {
                    SubFetcher::ProvingFromStart => send_or_return(&self.proving_from_start, request),
                    SubFetcher::ProvingLatest => send_or_return(&self.proving_latest, request),
                    SubFetcher::ReproducingFromStart => send_or_return(
                        &self.reproducing_from_start,
                        request,
                    ),
                };
                routed(target, sent)
            },
            other => Routed::Ignored(other),
        }
    }
}

/// The blocks of a range request, in the order in which they are fetched:
/// `count` blocks from `start` on, as far as block numbers reach.
pub open spec fn blocks_of(start: u64, count: u64) -> Seq<u64> {
    Seq::new(
        if start + count <= u64::MAX {
            count as nat
        } else {
            (u64::MAX - start + 1) as nat
        },
        |i: int| (start + i) as u64,
    )
}

/// Walks through the blocks of a range request.
#[derive(Clone, Copy, Debug)]
pub struct BlockRange {
    start: u64,
    count: u64,
    done: u64,
}

/// Mathematical value of a [`BlockRange`].
pub struct BlockRangeView {
    /// Every block of the request.
    pub blocks: Seq<u64>,
    /// How many of them were handed out.
    pub done: nat,
}

impl View for BlockRange {
    type V = BlockRangeView;

    closed spec fn view(&self) -> BlockRangeView {
        BlockRangeView { blocks: blocks_of(self.start, self.count), done: self.done as nat }
    }
}

impl BlockRange {
    #[verifier::type_invariant]
    spec fn inv(self) -> bool {
        self.done <= blocks_of(self.start, self.count).len()
    }

    /// The walk over `count` blocks from `start` on, none handed out yet.
    pub fn new(start: u64, count: u64) -> (range: Self)
        ensures
            range@ == (BlockRangeView { blocks: blocks_of(start, count), done: 0 }),
    {
        BlockRange { start, count, done: 0 }
    }

    /// Takes the walk of a request for a range; other requests have none.
    pub fn of_request(msg: &FetchMsg) -> (range: Option<Self>)
        ensures
            match *msg {
                FetchMsg::ProveFromStart { start_block_number, count } => range matches Some(r)
                    && r@ == (BlockRangeView {
                    blocks: blocks_of(start_block_number, count),
                    done: 0,
                }),
                FetchMsg::ReproduceFromStart { start_block_number, count } => range matches Some(r)
                    && r@ == (BlockRangeView {
                    blocks: blocks_of(start_block_number, count),
                    done: 0,
                }),
                FetchMsg::ProveLatest { .. } => range is None,
            },
    {
        match msg {
            FetchMsg::ProveFromStart { start_block_number, count } => Some(
                BlockRange::new(*start_block_number, *count),
            ),
            FetchMsg::ReproduceFromStart { start_block_number, count } => Some(
                BlockRange::new(*start_block_number, *count),
            ),
            FetchMsg::ProveLatest { .. } => None,
        }
    }

    /// Hands out the next block, or `None` when all were handed out.
    pub fn next_block(&mut self) -> (block: Option<u64>)
        ensures
            old(self)@.done <= old(self)@.blocks.len(),
            final(self)@.blocks == old(self)@.blocks,
            match block {
                Some(b) => old(self)@.done < old(self)@.blocks.len() && b == old(self)@.blocks[old(
                    self,
                )@.done as int] && final(self)@.done == old(self)@.done + 1,
                None => old(self)@.done == old(self)@.blocks.len() && final(self)@.done == old(
                    self,
                )@.done,
            },
    {
        proof {
            use_type_invariant(&*self);
        }
        if self.done < self.count && self.done <= u64::MAX - self.start {
            let block = self.start + self.done;
            *self = BlockRange { start: self.start, count: self.count, done: self.done + 1 };
            Some(block)
        } else {
            None
        }
    }
}

/// The message that announces the inputs of a fetched block: a report begun
/// with the time the fetch took, and the inputs as they are.
pub open spec fn announcement(
    block_number: u64,
    data_fetch_milliseconds: u64,
    inputs: ProvingInputs,
) -> ProvingMsgView {
    ProvingMsgView {
        fetch_report: ReportView::fetched(block_number, data_fetch_milliseconds),
        proving_inputs: inputs@,
    }
}

/// Builds the message that announces the inputs of a fetched block.
pub fn announce(block_number: u64, data_fetch_milliseconds: u64, inputs: ProvingInputs) -> (msg:
    BlockMsg)
    ensures
        msg@ == BlockMsgView::Proving(announcement(block_number, data_fetch_milliseconds, inputs)),
{
    let fetch_report = BlockProvingReport::new(block_number, data_fetch_milliseconds);
    BlockMsg::Proving(ProvingMsg::new(fetch_report, inputs))
}

/// Requests of different kinds are served by different sub-fetchers, and
/// requests of one kind by the same one: every request has its one queue.
pub proof fn lemma_one_queue_per_kind(a: FetchMsg, b: FetchMsg)
    ensures
        sub_fetcher_of(a) == sub_fetcher_of(b) <==> (a is ProveFromStart && b is ProveFromStart)
            || (a is ProveLatest && b is ProveLatest) || (a is ReproduceFromStart
            && b is ReproduceFromStart),
{
}

/// A range request stands for `count` blocks, numbered upwards from
/// `start` without a gap, unless block numbers end before.
pub proof fn lemma_blocks_in_order(start: u64, count: u64)
    ensures
        blocks_of(start, count).len() <= count,
        start + count <= u64::MAX + 1 ==> blocks_of(start, count).len() == count,
        forall|i: int|
            0 <= i < blocks_of(start, count).len() ==> #[trigger] blocks_of(start, count)[i]
                == start + i,
{
}

} // verus!
