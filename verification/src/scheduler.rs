//! The scheduler: which message from which component goes where.

use crate::channel::send_or_return;
use crate::messages::{BlockMsg, BlockMsgView};
use tokio::sync::mpsc::UnboundedSender;
use vstd::prelude::*;

verus! {

/// The components the scheduler receives from.
#[derive(Clone, Copy, Debug, PartialEq, Eq, Structural)]
pub enum Source {
    FetchService,
    ProofService,
    Fetcher,
    ProvingClient,
}

/// The components the scheduler sends to.
#[derive(Clone, Copy, Debug, PartialEq, Eq, Structural)]
pub enum Destination {
    Fetcher,
    ProvingClient,
    Reporter,
}

/// Where a message from `source` goes, or `None` where that component is
/// not expected to send such a message.
pub open spec fn route_of(source: Source, msg: BlockMsgView) -> Option<Destination> {
    match (source, msg) {
        (Source::FetchService, BlockMsgView::Fetch(_)) => Some(Destination::Fetcher),
        (Source::FetchService, BlockMsgView::Watch(_)) => Some(Destination::Reporter),
        (Source::ProofService, BlockMsgView::Proved(_)) => Some(Destination::ProvingClient),
        (Source::Fetcher, BlockMsgView::Proving(_)) => Some(Destination::ProvingClient),
        (Source::ProvingClient, BlockMsgView::Report(_)) => Some(Destination::Reporter),
        _ => None,
    }
}

/// Finds where a message from `source` goes.
pub fn route(source: Source, msg: &BlockMsg) -> (destination: Option<Destination>)
    ensures
        destination == route_of(source, msg@),
{
    match source {
        Source::FetchService => match msg {
            BlockMsg::Fetch(_) => Some(Destination::Fetcher),
            BlockMsg::Watch(_) => Some(Destination::Reporter),
            _ => None,
        },
        Source::ProofService => match msg {
            BlockMsg::Proved(_) => Some(Destination::ProvingClient),
            _ => None,
        },
        Source::Fetcher => match msg {
            BlockMsg::Proving(_) => Some(Destination::ProvingClient),
            _ => None,
        },
        Source::ProvingClient => match msg {
            BlockMsg::Report(_) => Some(Destination::Reporter),
            _ => None,
        },
    }
}

/// What became of a message.
#[derive(Debug)]
pub enum Forwarded {
    /// It was put on the queue of this component.
    Delivered(Destination),
    /// Its sender is not expected to send it: it comes back unused.
    Dropped(BlockMsg),
    /// The queue of the component it is for is closed: it comes back.
    Undeliverable { destination: Destination, msg: BlockMsg },
}

/// What became of a message bound for `destination`, given how putting it
/// on the queue ended.
pub fn forwarded(destination: Destination, sent: Result<(), BlockMsg>) -> (outcome: Forwarded)
    ensures
        match sent {
            Ok(()) => outcome matches Forwarded::Delivered(d) && d == destination,
            Err(back) => outcome matches Forwarded::Undeliverable { destination: d, msg } && d
                == destination && msg == back,
        },
{
    match sent {
        Ok(()) => Forwarded::Delivered(destination),
        Err(msg) => Forwarded::Undeliverable { destination, msg },
    }
}

/// The scheduler: it holds the queue of each component it sends to, and
/// keeps no state per block.
#[derive(Debug)]
pub struct Scheduler {
    pub fetcher: UnboundedSender<BlockMsg>,
    pub proving_client: UnboundedSender<BlockMsg>,
    pub reporter: UnboundedSender<BlockMsg>,
}

impl Scheduler {
    pub fn new(
        fetcher: UnboundedSender<BlockMsg>,
        proving_client: UnboundedSender<BlockMsg>,
        reporter: UnboundedSender<BlockMsg>,
    ) -> (scheduler: Self)
        ensures
            scheduler.fetcher == fetcher,
            scheduler.proving_client == proving_client,
            scheduler.reporter == reporter,
    {
        Scheduler { fetcher, proving_client, reporter }
    }

    /// Passes a message from `source` on to the component it is for. A
    /// message that `source` is not expected to send goes nowhere.
    pub fn forward(&self, source: Source, msg: BlockMsg) -> (outcome: Forwarded)
        ensures
            match route_of(source, msg@) {
                None => outcome matches Forwarded::Dropped(back) && back == msg,
                Some(destination) => match outcome {
                    Forwarded::Delivered(d) => d == destination,
                    Forwarded::Undeliverable { destination: d, msg: back } => d == destination
                        && back == msg,
                    Forwarded::Dropped(_) => false,
                },
            },
    {
        match route(source, &msg) {
            None => Forwarded::Dropped(msg),
            Some(Destination::Fetcher) => forwarded(
                Destination::Fetcher,
                send_or_return(&self.fetcher, msg),
            ),
            Some(Destination::ProvingClient) => forwarded(
                Destination::ProvingClient,
                send_or_return(&self.proving_client, msg),
            ),
            Some(Destination::Reporter) => forwarded(
                Destination::Reporter,
                send_or_return(&self.reporter, msg),
            ),
        }
    }
}

/// A message is passed on to one component at most, and which one depends
/// on nothing but its sender and its kind.
pub proof fn lemma_route_by_kind(source: Source, a: BlockMsgView, b: BlockMsgView)
    requires
        a is Watch == b is Watch,
        a is Fetch == b is Fetch,
        a is Proving == b is Proving,
        a is Proved == b is Proved,
        a is Report == b is Report,
    ensures
        route_of(source, a) == route_of(source, b),
{
}

} // verus!
