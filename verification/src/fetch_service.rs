//! The front door: what each HTTP request puts on the scheduler's queue and
//! is answered with, and what the service does on a subscriber's socket.

use crate::channel::send_or_return;
use crate::fetch::{ProveBlockByNumberParams, ProveLatestBlockParams, ReproduceBlockByNumberParams};
use crate::messages::{BlockMsg, ReportMsg, WatchMsg};
use crate::report::{BlockProvingReport, ReportView};
use crate::wire::{encode_report, wire_report};
use tokio::sync::mpsc::UnboundedSender;
use vstd::prelude::*;
use vstd::std_specs::convert::FromSpec;

verus! {

/// Path of the subscribers' socket.
pub const WS_PATH: &'static str = "/";

/// Text of the frame that greets a new subscriber.
pub const WS_WELCOME: &'static str = "fetch-service: client connected";

/// Status of the answer to a request that was queued.
pub const HTTP_OK: u16 = 200;

/// Status of the answer to a request that could not be queued.
pub const HTTP_INTERNAL_SERVER_ERROR: u16 = 500;

/// Body of the answer to a request that was queued.
pub const HTTP_OK_TEXT: &'static str = "OK";

/// Body of the answer to a request that could not be queued.
pub const HTTP_SEND_FAILED_TEXT: &'static str = "failed to send msg: channel closed";

/// The answer to an HTTP request.
#[derive(Clone, Copy, Debug, PartialEq, Eq)]
pub struct HttpReply {
    pub status: u16,
    pub body: &'static str,
}

/// Answers a request: `200` where its message was queued, `500` with the
/// reason where it was not.
pub fn reply_to(queued: &Result<(), BlockMsg>) -> (reply: HttpReply)
    ensures
        queued is Ok ==> reply.status == HTTP_OK && reply.body@ == HTTP_OK_TEXT@,
        queued is Err ==> reply.status == HTTP_INTERNAL_SERVER_ERROR && reply.body@
            == HTTP_SEND_FAILED_TEXT@,
{
    match queued {
        Ok(_) => HttpReply { status: HTTP_OK, body: HTTP_OK_TEXT },
        Err(_) => HttpReply { status: HTTP_INTERNAL_SERVER_ERROR, body: HTTP_SEND_FAILED_TEXT },
    }
}

/// The service's end of the queue to the scheduler.
#[derive(Debug)]
pub struct FetchService {
    pub comm_sender: UnboundedSender<BlockMsg>,
}

impl FetchService {
    pub fn new(comm_sender: UnboundedSender<BlockMsg>) -> (service: Self)
        ensures
            service.comm_sender == comm_sender,
    {
        FetchService { comm_sender }
    }

    /// Queues the request to prove a range of blocks. Where the queue is
    /// closed the message comes back.
    pub fn prove_block_by_number(&self, params: ProveBlockByNumberParams) -> (queued: Result<
        (),
        BlockMsg,
    >)
        ensures
            queued matches Err(back) ==> back == <BlockMsg as FromSpec<
                ProveBlockByNumberParams,
            >>::from_spec(params),
    {
        send_or_return(&self.comm_sender, BlockMsg::from(params))
    }

    /// Queues the request to prove the next blocks to appear. Where the
    /// queue is closed the message comes back.
    pub fn prove_latest_block(&self, params: ProveLatestBlockParams) -> (queued: Result<
        (),
        BlockMsg,
    >)
        ensures
            queued matches Err(back) ==> back == <BlockMsg as FromSpec<
                ProveLatestBlockParams,
            >>::from_spec(params),
    {
        send_or_return(&self.comm_sender, BlockMsg::from(params))
    }

    /// Queues the request to prove a range of blocks again from stored
    /// inputs. Where the queue is closed the message comes back.
    pub fn reproduce_block_by_number(&self, params: ReproduceBlockByNumberParams) -> (queued:
        Result<(), BlockMsg>)
        ensures
            queued matches Err(back) ==> back == <BlockMsg as FromSpec<
                ReproduceBlockByNumberParams,
            >>::from_spec(params),
    {
        send_or_return(&self.comm_sender, BlockMsg::from(params))
    }

    /// Registers the queue on which a new subscriber wants the reports.
    /// Where the scheduler's queue is closed the registration comes back.
    pub fn watch(&self, sender: UnboundedSender<ReportMsg>) -> (queued: Result<(), BlockMsg>)
        ensures
            queued matches Err(back) ==> back == BlockMsg::Watch(WatchMsg { sender }),
    {
        send_or_return(&self.comm_sender, BlockMsg::Watch(WatchMsg::new(sender)))
    }
}

/// The kinds of frame a subscriber sends.
#[derive(Clone, Copy, Debug, PartialEq, Eq, Structural)]
pub enum PeerFrame {
    Ping,
    Pong,
    Text,
    Binary,
    Close,
}

/// What happened on a subscriber's connection.
#[derive(Debug)]
pub enum WsEvent {
    /// A report arrived on the subscriber's queue.
    Report(BlockProvingReport),
    /// The subscriber's queue closed.
    DeliveryClosed,
    /// The subscriber sent a frame.
    Peer(PeerFrame),
    /// The subscriber is gone: reading its frames failed or ended.
    PeerGone,
    /// The process was told to shut down.
    Shutdown,
}

/// What the service does on a subscriber's connection.
#[derive(Debug, PartialEq, Eq)]
pub enum WsAction {
    /// Send a binary frame with this payload.
    SendBinary(Vec<u8>),
    /// Send a pong frame.
    SendPong,
    /// Send a close frame and leave the connection.
    EchoCloseAndExit,
    /// Read the subscriber's queue no more.
    StopDelivery,
    /// Nothing.
    Ignore,
    /// Leave the connection.
    Exit,
}

/// Mathematical value of a [`WsEvent`].
pub enum WsEventView {
    Report(ReportView),
    DeliveryClosed,
    Peer(PeerFrame),
    PeerGone,
    Shutdown,
}

/// Mathematical value of a [`WsAction`].
pub enum WsActionView {
    SendBinary(Seq<u8>),
    SendPong,
    EchoCloseAndExit,
    StopDelivery,
    Ignore,
    Exit,
}

impl View for WsEvent {
    type V = WsEventView;

    open spec fn view(&self) -> WsEventView {
        match self {
            WsEvent::Report(r) => WsEventView::Report(r@),
            WsEvent::DeliveryClosed => WsEventView::DeliveryClosed,
            WsEvent::Peer(f) => WsEventView::Peer(*f),
            WsEvent::PeerGone => WsEventView::PeerGone,
            WsEvent::Shutdown => WsEventView::Shutdown,
        }
    }
}

impl View for WsAction {
    type V = WsActionView;

    open spec fn view(&self) -> WsActionView {
        match self {
            WsAction::SendBinary(bytes) => WsActionView::SendBinary(bytes@),
            WsAction::SendPong => WsActionView::SendPong,
            WsAction::EchoCloseAndExit => WsActionView::EchoCloseAndExit,
            WsAction::StopDelivery => WsActionView::StopDelivery,
            WsAction::Ignore => WsActionView::Ignore,
            WsAction::Exit => WsActionView::Exit,
        }
    }
}

/// What the service does about an event on a subscriber's connection: a
/// report goes out as a binary frame in its wire layout, a ping is answered
/// with a pong, a close is echoed and ends the connection.
pub open spec fn ws_action_of(event: WsEventView) -> WsActionView {
    match event {
        WsEventView::Report(r) => WsActionView::SendBinary(wire_report(r)),
        WsEventView::DeliveryClosed => WsActionView::StopDelivery,
        WsEventView::Peer(PeerFrame::Ping) => WsActionView::SendPong,
        WsEventView::Peer(PeerFrame::Close) => WsActionView::EchoCloseAndExit,
        WsEventView::Peer(_) => WsActionView::Ignore,
        WsEventView::PeerGone => WsActionView::Exit,
        WsEventView::Shutdown => WsActionView::Exit,
    }
}

/// Decides what to do about an event on a subscriber's connection.
pub fn ws_step(event: WsEvent) -> (action: WsAction)
    ensures
        action@ == ws_action_of(event@),
{
    match event {
        WsEvent::Report(report) => WsAction::SendBinary(encode_report(&report)),
        WsEvent::DeliveryClosed => WsAction::StopDelivery,
        WsEvent::Peer(PeerFrame::Ping) => WsAction::SendPong,
        WsEvent::Peer(PeerFrame::Close) => WsAction::EchoCloseAndExit,
        WsEvent::Peer(_) => WsAction::Ignore,
        WsEvent::PeerGone => WsAction::Exit,
        WsEvent::Shutdown => WsAction::Exit,
    }
}

} // verus!
