//! The messages that flow between the components.

use crate::fetch::{ProveBlockByNumberParams, ProveLatestBlockParams, ReproduceBlockByNumberParams};
use crate::inputs::{InputsView, ProvingInputs};
use crate::limits::DEFAULT_PARAM_COUNT;
use crate::report::{BlockProvingReport, ReportView};
use tokio::sync::mpsc::UnboundedSender;
use vstd::prelude::*;
use vstd::std_specs::convert::FromSpecImpl;

verus! {

/// A request to produce proving inputs.
#[derive(Clone, Copy, Debug, PartialEq, Eq, Structural)]
pub enum FetchMsg {
    /// Prove `count` blocks, the first being `start_block_number`.
    ProveFromStart { start_block_number: u64, count: u64 },
    /// Prove the next `count` blocks that appear on the chain.
    ProveLatest { count: u64 },
    /// Prove `count` blocks again from stored inputs, the first being
    /// `start_block_number`.
    ReproduceFromStart { start_block_number: u64, count: u64 },
}

/// A subscriber's registration: the queue on which it wants the reports.
#[derive(Debug)]
pub struct WatchMsg {
    pub sender: UnboundedSender<ReportMsg>,
}

/// Inputs that are ready, with the report begun for their block.
#[derive(Debug, PartialEq, Eq)]
pub struct ProvingMsg {
    pub fetch_report: BlockProvingReport,
    pub proving_inputs: ProvingInputs,
}

/// What a remote worker says when it has finished a block.
#[derive(Debug, PartialEq, Eq)]
pub struct CompleteProvingResult {
    pub block_number: u64,
    pub success: bool,
    pub cycles: u64,
    pub proving_milliseconds: u64,
    pub proof: Option<Vec<u8>>,
}

pub type ProvedMsg = CompleteProvingResult;

pub type ReportMsg = BlockProvingReport;

/// Any message of the coordination plane.
#[derive(Debug)]
pub enum BlockMsg {
    Watch(WatchMsg),
    Fetch(FetchMsg),
    Proving(ProvingMsg),
    Proved(ProvedMsg),
    Report(ReportMsg),
}

/// Mathematical value of a [`ProvingMsg`].
pub struct ProvingMsgView {
    pub fetch_report: ReportView,
    pub proving_inputs: InputsView,
}

/// Mathematical value of a [`CompleteProvingResult`].
pub struct ProvedView {
    pub block_number: u64,
    pub success: bool,
    pub cycles: u64,
    pub proving_milliseconds: u64,
    pub proof: Option<Seq<u8>>,
}

/// Mathematical value of a [`BlockMsg`].
pub enum BlockMsgView {
    Watch(UnboundedSender<ReportMsg>),
    Fetch(FetchMsg),
    Proving(ProvingMsgView),
    Proved(ProvedView),
    Report(ReportView),
}

impl View for ProvingMsg {
    type V = ProvingMsgView;

    open spec fn view(&self) -> ProvingMsgView {
        ProvingMsgView { fetch_report: self.fetch_report@, proving_inputs: self.proving_inputs@ }
    }
}

impl View for CompleteProvingResult {
    type V = ProvedView;

    open spec fn view(&self) -> ProvedView {
        ProvedView {
            block_number: self.block_number,
            success: self.success,
            cycles: self.cycles,
            proving_milliseconds: self.proving_milliseconds,
            proof: match self.proof {
                Some(p) => Some(p@),
                None => None,
            },
        }
    }
}

impl View for BlockMsg {
    type V = BlockMsgView;

    open spec fn view(&self) -> BlockMsgView {
        match self {
            BlockMsg::Watch(w) => BlockMsgView::Watch(w.sender),
            BlockMsg::Fetch(f) => BlockMsgView::Fetch(*f),
            BlockMsg::Proving(p) => BlockMsgView::Proving(p@),
            BlockMsg::Proved(p) => BlockMsgView::Proved(p@),
            BlockMsg::Report(r) => BlockMsgView::Report(r@),
        }
    }
}

impl Clone for ProvingMsg {
    fn clone(&self) -> (copy: Self)
        ensures
            copy@ == self@,
    {
        ProvingMsg {
            fetch_report: self.fetch_report.clone(),
            proving_inputs: self.proving_inputs.clone(),
        }
    }
}

impl Clone for CompleteProvingResult {
    fn clone(&self) -> (copy: Self)
        ensures
            copy@ == self@,
    {
        CompleteProvingResult {
            block_number: self.block_number,
            success: self.success,
            cycles: self.cycles,
            proving_milliseconds: self.proving_milliseconds,
            proof: match &self.proof {
                Some(p) => Some(p.clone()),
                None => None,
            },
        }
    }
}

impl WatchMsg {
    pub fn new(sender: UnboundedSender<ReportMsg>) -> (msg: Self)
        ensures
            msg.sender == sender,
    {
        WatchMsg { sender }
    }
}

impl ProvingMsg {
    pub fn new(fetch_report: BlockProvingReport, proving_inputs: ProvingInputs) -> (msg: Self)
        ensures
            msg.fetch_report == fetch_report,
            msg.proving_inputs == proving_inputs,
    {
        ProvingMsg { fetch_report, proving_inputs }
    }
}

/// The count a request asks for: the one it gives, else
/// [`DEFAULT_PARAM_COUNT`].
pub open spec fn requested_count(count: Option<u64>) -> u64 {
    match count {
        Some(n) => n,
        None => DEFAULT_PARAM_COUNT,
    }
}

fn count_or_default(count: Option<u64>) -> (n: u64)
    ensures
        n == requested_count(count),
{
    match count {
        Some(n) => n,
        None => DEFAULT_PARAM_COUNT,
    }
}

impl From<ProveBlockByNumberParams> for BlockMsg {
    fn from(params: ProveBlockByNumberParams) -> (msg: Self) {
        BlockMsg::Fetch(
            FetchMsg::ProveFromStart {
                start_block_number: params.start_block_num,
                count: count_or_default(params.count),
            },
        )
    }
}

impl FromSpecImpl<ProveBlockByNumberParams> for BlockMsg {
    open spec fn obeys_from_spec() -> bool {
        true
    }

    open spec fn from_spec(params: ProveBlockByNumberParams) -> Self {
        BlockMsg::Fetch(
            FetchMsg::ProveFromStart {
                start_block_number: params.start_block_num,
                count: requested_count(params.count),
            },
        )
    }
}

impl From<ProveLatestBlockParams> for BlockMsg {
    fn from(params: ProveLatestBlockParams) -> (msg: Self) {
        BlockMsg::Fetch(FetchMsg::ProveLatest { count: count_or_default(params.count) })
    }
}

impl FromSpecImpl<ProveLatestBlockParams> for BlockMsg {
    open spec fn obeys_from_spec() -> bool {
        true
    }

    open spec fn from_spec(params: ProveLatestBlockParams) -> Self {
        BlockMsg::Fetch(FetchMsg::ProveLatest { count: requested_count(params.count) })
    }
}

impl From<ReproduceBlockByNumberParams> for BlockMsg {
    fn from(params: ReproduceBlockByNumberParams) -> (msg: Self) {
        BlockMsg::Fetch(
            FetchMsg::ReproduceFromStart {
                start_block_number: params.start_block_num,
                count: count_or_default(params.count),
            },
        )
    }
}

impl FromSpecImpl<ReproduceBlockByNumberParams> for BlockMsg {
    open spec fn obeys_from_spec() -> bool {
        true
    }

    open spec fn from_spec(params: ReproduceBlockByNumberParams) -> Self {
        BlockMsg::Fetch(
            FetchMsg::ReproduceFromStart {
                start_block_number: params.start_block_num,
                count: requested_count(params.count),
            },
        )
    }
}

} // verus!
