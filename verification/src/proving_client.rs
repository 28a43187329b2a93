//! The proving client: one block in flight at a time, the others queued.
//!
//! The client is a state machine. Its driver waits for the next message or
//! for the watchdog, hands what happened to [`ProvingClientState::step`], and
//! performs the action that comes back.

use crate::inputs::{InputsView, ProvingInputs};
use crate::messages::{BlockMsg, BlockMsgView, ProvedView, ProvingMsg, ProvingMsgView};
use crate::report::{BlockProvingReport, ReportView};
use std::collections::VecDeque;
use vstd::prelude::*;

verus! {

/// What the driver observed while waiting.
#[derive(Debug)]
pub enum ClientEvent {
    /// A message arrived on the inbound queue.
    Message(BlockMsg),
    /// The watchdog elapsed before any message arrived.
    Timeout,
    /// The inbound queue failed: no message will arrive any more.
    Closed,
}

/// Why the client cannot go on.
#[derive(Clone, Copy, Debug, PartialEq, Eq, Structural)]
pub enum ClientFault {
    /// A result arrived while no block was in flight.
    NothingInFlight,
    /// A result arrived for another block than the one in flight.
    UnexpectedBlock { in_flight: u64, proved: u64 },
}

/// What the driver has to do after a step.
#[derive(Debug)]
pub enum ClientAction {
    /// A block went in flight: send its inputs, kept in the state, to the
    /// workers.
    Dispatch,
    /// The message was queued behind the block in flight: nothing to do.
    Queued,
    /// The block in flight is done: publish `report`. With `dispatch_next`
    /// the oldest queued block went in flight, and its inputs, now kept in
    /// the state, must be sent to the workers.
    Publish { report: BlockProvingReport, dispatch_next: bool },
    /// The block in flight is overdue: restart the workers, reconnect, and
    /// send the inputs kept in the state once more.
    Recover,
    /// Nothing is in flight and nothing arrived: wait again.
    Wait,
    /// End the task.
    Stop,
    /// The messages contradict the client's state: give up.
    Abort(ClientFault),
}

/// Mathematical value of a [`ClientEvent`].
pub enum EventView {
    Message(BlockMsgView),
    Timeout,
    Closed,
}

/// Mathematical value of a [`ClientAction`].
pub enum ActionView {
    Dispatch,
    Queued,
    Publish { report: ReportView, dispatch_next: bool },
    Recover,
    Wait,
    Stop,
    Abort(ClientFault),
}

impl View for ClientEvent {
    type V = EventView;

    open spec fn view(&self) -> EventView {
        match self {
            ClientEvent::Message(m) => EventView::Message(m@),
            ClientEvent::Timeout => EventView::Timeout,
            ClientEvent::Closed => EventView::Closed,
        }
    }
}

impl View for ClientAction {
    type V = ActionView;

    open spec fn view(&self) -> ActionView {
        match self {
            ClientAction::Dispatch => ActionView::Dispatch,
            ClientAction::Queued => ActionView::Queued,
            ClientAction::Publish { report, dispatch_next } => ActionView::Publish {
                report: report@,
                dispatch_next: *dispatch_next,
            },
            ClientAction::Recover => ActionView::Recover,
            ClientAction::Wait => ActionView::Wait,
            ClientAction::Stop => ActionView::Stop,
            ClientAction::Abort(fault) => ActionView::Abort(*fault),
        }
    }
}

impl ActionView {
    /// The action has the driver send the inputs kept in the state.
    pub open spec fn dispatches(self) -> bool {
        match self {
            ActionView::Dispatch => true,
            ActionView::Recover => true,
            ActionView::Publish { dispatch_next, .. } => dispatch_next,
            _ => false,
        }
    }

    /// The action ends the client.
    pub open spec fn halts(self) -> bool {
        self is Stop || self is Abort
    }
}

/// Mathematical value of the client's state.
pub struct ClientView {
    /// Report of the block that awaits its result.
    pub in_flight: Option<ReportView>,
    /// Inputs of that block, kept for sending them again.
    pub last_inputs: Option<InputsView>,
    /// Requests that arrived while a block was in flight, oldest first.
    pub pending: Seq<ProvingMsgView>,
}

/// Tells how a result fits the state it arrives in: it is in order exactly
/// when it is for the block in flight.
pub open spec fn fault_of(s: ClientView, p: ProvedView) -> Option<ClientFault> {
    if s.in_flight is None {
        Some(ClientFault::NothingInFlight)
    } else if s.in_flight->0.block_number != p.block_number {
        Some(
            ClientFault::UnexpectedBlock {
                in_flight: s.in_flight->0.block_number,
                proved: p.block_number,
            },
        )
    } else {
        None
    }
}

/// The report in flight with a result merged into it: success, cycles,
/// proving time and proof are the result's, whether it tells of success or
/// of failure; the block number and the fetch time stay.
pub open spec fn merged(report: ReportView, p: ProvedView) -> ReportView {
    ReportView {
        success: p.success,
        cycles: p.cycles,
        proving_milliseconds: p.proving_milliseconds,
        proof: p.proof,
        ..report
    }
}

impl ClientView {
    /// The state in which nothing is in flight and nothing is queued.
    pub open spec fn idle() -> ClientView {
        ClientView { in_flight: None, last_inputs: None, pending: Seq::empty() }
    }

    /// Inputs are kept exactly while a block is in flight, and requests are
    /// queued only behind a block in flight.
    pub open spec fn well_formed(self) -> bool {
        &&& self.in_flight is Some <==> self.last_inputs is Some
        &&& self.in_flight is None ==> self.pending.len() == 0
    }

    /// The state with the request `m` in flight.
    pub open spec fn flying(self, m: ProvingMsgView) -> ClientView {
        ClientView {
            in_flight: Some(m.fetch_report),
            last_inputs: Some(m.proving_inputs),
            pending: self.pending,
        }
    }

    /// The state once the block in flight is done: the oldest queued request
    /// takes its place, if there is one.
    pub open spec fn advanced(self) -> ClientView {
        if self.pending.len() > 0 {
            ClientView {
                in_flight: Some(self.pending[0].fetch_report),
                last_inputs: Some(self.pending[0].proving_inputs),
                pending: self.pending.skip(1),
            }
        } else {
            ClientView::idle()
        }
    }

    /// The state and the action that follow from an event.
    pub open spec fn step(self, event: EventView) -> (ClientView, ActionView) {
        match event {
            EventView::Message(BlockMsgView::Proving(m)) => {
                if self.in_flight is None {
                    (self.flying(m), ActionView::Dispatch)
                } else {
                    (ClientView { pending: self.pending.push(m), ..self }, ActionView::Queued)
                }
            },
            EventView::Message(BlockMsgView::Proved(p)) => {
                match fault_of(self, p) {
                    Some(fault) => (self, ActionView::Abort(fault)),
                    None => (
                        self.advanced(),
                        ActionView::Publish {
                            report: merged(self.in_flight->0, p),
                            dispatch_next: self.pending.len() > 0,
                        },
                    ),
                }
            },
            EventView::Message(_) => (self, ActionView::Stop),
            EventView::Timeout => {
                if self.in_flight is Some {
                    (self, ActionView::Recover)
                } else {
                    (self, ActionView::Wait)
                }
            },
            EventView::Closed => (self, ActionView::Stop),
        }
    }
}

/// The proving client's state.
#[derive(Debug)]
pub struct ProvingClientState {
    in_flight: Option<BlockProvingReport>,
    last_inputs: Option<ProvingInputs>,
    pending: VecDeque<ProvingMsg>,
}

impl View for ProvingClientState {
    type V = ClientView;

    closed spec fn view(&self) -> ClientView {
        ClientView {
            in_flight: match self.in_flight {
                Some(r) => Some(r@),
                None => None,
            },
            last_inputs: match self.last_inputs {
                Some(i) => Some(i@),
                None => None,
            },
            pending: self.pending@.map_values(|m: ProvingMsg| m@),
        }
    }
}

impl ProvingClientState {
    #[verifier::type_invariant]
    spec fn inv(self) -> bool {
        self@.well_formed()
    }

    /// The state of a client that has received nothing yet.
    pub fn new() -> (state: Self)
        ensures
            state@ == ClientView::idle(),
    {
        let state = ProvingClientState {
            in_flight: None,
            last_inputs: None,
            pending: VecDeque::new(),
        };
        assert(state@.pending =~= Seq::empty());
        state
    }

    /// Number of the block in flight.
    pub fn in_flight_block(&self) -> (block: Option<u64>)
        ensures
            block == match self@.in_flight {
                Some(r) => Some(r.block_number),
                None => None,
            },
    {
        match &self.in_flight {
            Some(r) => Some(r.block_number),
            None => None,
        }
    }

    /// The inputs of the block in flight: what `Dispatch`, `Recover` and a
    /// `Publish` with `dispatch_next` ask to send.
    pub fn last_inputs(&self) -> (inputs: Option<&ProvingInputs>)
        ensures
            match inputs {
                Some(i) => self@.last_inputs == Some(i@),
                None => self@.last_inputs is None,
            },
            self@.well_formed(),
    {
        proof {
            use_type_invariant(self);
        }
        self.last_inputs.as_ref()
    }

    /// Number of requests queued behind the block in flight.
    pub fn pending_len(&self) -> (n: usize)
        ensures
            n == self@.pending.len(),
    {
        self.pending.len()
    }

    /// Takes one event and says what to do.
    pub fn step(self, event: ClientEvent) -> (next: (ProvingClientState, ClientAction))
        ensures
            (next.0@, next.1@) == self@.step(event@),
            self@.well_formed(),
            next.0@.well_formed(),
    {
        proof {
            use_type_invariant(&self);
        }
        match event {
            ClientEvent::Message(BlockMsg::Proving(m)) => self.on_proving(m),
            ClientEvent::Message(BlockMsg::Proved(p)) => {
                let ghost before = self@;
                let ProvingClientState { in_flight, last_inputs, pending } = self;
                match in_flight {
                    None => {
                        let state = ProvingClientState { in_flight: None, last_inputs, pending };
                        (state, ClientAction::Abort(ClientFault::NothingInFlight))
                    },
                    Some(fetched) => {
                        if fetched.block_number != p.block_number {
                            let fault = ClientFault::UnexpectedBlock {
                                in_flight: fetched.block_number,
                                proved: p.block_number,
                            };
                            let state = ProvingClientState {
                                in_flight: Some(fetched),
                                last_inputs,
                                pending,
                            };
                            (state, ClientAction::Abort(fault))
                        } else {
                            let report = BlockProvingReport {
                                success: p.success,
                                block_number: fetched.block_number,
                                cycles: p.cycles,
                                proving_milliseconds: p.proving_milliseconds,
                                data_fetch_milliseconds: fetched.data_fetch_milliseconds,
                                proof: p.proof,
                            };
                            let mut pending = pending;
                            let ghost queued = pending@;
                            match pending.pop_front() {
                                Some(m) => {
                                    let state = ProvingClientState {
                                        in_flight: Some(m.fetch_report),
                                        last_inputs: Some(m.proving_inputs),
                                        pending,
                                    };
                                    assert(state@.pending =~= before.pending.skip(1));
                                    assert(before.pending[0] == queued[0]@);
                                    (state, ClientAction::Publish { report, dispatch_next: true })
                                },
                                None => {
                                    let state = ProvingClientState {
                                        in_flight: None,
                                        last_inputs: None,
                                        pending,
                                    };
                                    assert(state@.pending =~= Seq::empty());
                                    (state, ClientAction::Publish { report, dispatch_next: false })
                                },
                            }
                        }
                    },
                }
            },
            ClientEvent::Message(_) => (self, ClientAction::Stop),
            ClientEvent::Timeout => {
                if self.in_flight.is_some() {
                    (self, ClientAction::Recover)
                } else {
                    (self, ClientAction::Wait)
                }
            },
            ClientEvent::Closed => (self, ClientAction::Stop),
        }
    }

    /// Takes a request: it goes in flight if nothing is, else it is queued.
    fn on_proving(self, m: ProvingMsg) -> (next: (ProvingClientState, ClientAction))
        ensures
            (next.0@, next.1@) == self@.step(EventView::Message(BlockMsgView::Proving(m@))),
    {
        proof {
            use_type_invariant(&self);
        }
        let ghost before = self@;
        let ProvingClientState { in_flight, last_inputs, pending } = self;
        if in_flight.is_none() {
            let state = ProvingClientState {
                in_flight: Some(m.fetch_report),
                last_inputs: Some(m.proving_inputs),
                pending,
            };
            assert(state@.pending =~= before.pending);
            (state, ClientAction::Dispatch)
        } else {
            let mut pending = pending;
            pending.push_back(m);
            let state = ProvingClientState { in_flight, last_inputs, pending };
            assert(state@.pending =~= before.pending.push(m@));
            (state, ClientAction::Queued)
        }
    }
}

} // verus!
