//! What holds of every run of the proving client.

use crate::inputs::InputsView;
use crate::messages::{BlockMsgView, ProvingMsgView};
use crate::proving_client::{fault_of, ActionView, ClientView, EventView};
use vstd::prelude::*;

verus! {

/// The event is a result that fits the block in flight.
pub open spec fn accepts(s: ClientView, event: EventView) -> bool {
    event matches EventView::Message(BlockMsgView::Proved(p)) && fault_of(s, p) is None
}

/// The block number of the report that an action publishes, if it does.
pub open spec fn published_block(action: ActionView) -> Seq<u64> {
    match action {
        ActionView::Publish { report, .. } => seq![report.block_number],
        _ => seq![],
    }
}

/// The block number of the result that an event brings, if the state accepts it.
pub open spec fn accepted_block(s: ClientView, event: EventView) -> Seq<u64> {
    match event {
        EventView::Message(BlockMsgView::Proved(p)) => if fault_of(s, p) is None {
            seq![p.block_number]
        } else {
            seq![]
        },
        _ => seq![],
    }
}

/// The state the client is in after it took `events` one after the other,
/// or when it halted before their end.
pub open spec fn state_after(s: ClientView, events: Seq<EventView>) -> ClientView
    decreases events.len(),
{
    if events.len() == 0 {
        s
    } else {
        let (next, action) = s.step(events[0]);
        if action.halts() {
            next
        } else {
            state_after(next, events.skip(1))
        }
    }
}

/// The block numbers of the reports published, in order, while the client
/// takes `events` one after the other until it halts.
pub open spec fn published_blocks(s: ClientView, events: Seq<EventView>) -> Seq<u64>
    decreases events.len(),
{
    if events.len() == 0 {
        seq![]
    } else {
        let (next, action) = s.step(events[0]);
        if action.halts() {
            published_block(action)
        } else {
            published_block(action) + published_blocks(next, events.skip(1))
        }
    }
}

/// The block numbers of the results accepted, in order, while the client
/// takes `events` one after the other until it halts.
pub open spec fn accepted_blocks(s: ClientView, events: Seq<EventView>) -> Seq<u64>
    decreases events.len(),
{
    if events.len() == 0 {
        seq![]
    } else {
        let (next, action) = s.step(events[0]);
        if action.halts() {
            accepted_block(s, events[0])
        } else {
            accepted_block(s, events[0]) + accepted_blocks(next, events.skip(1))
        }
    }
}

/// The report and the inputs of a request are for the same block.
pub open spec fn coherent_request(m: ProvingMsgView) -> bool {
    m.fetch_report.block_number == m.proving_inputs.block_number
}

/// The inputs kept are those of the block in flight, and so it is for each
/// queued request.
pub open spec fn coherent(s: ClientView) -> bool {
    &&& s.in_flight is Some && s.last_inputs is Some ==> s.in_flight->0.block_number
        == s.last_inputs->0.block_number
    &&& forall|i: int| 0 <= i < s.pending.len() ==> coherent_request(#[trigger] s.pending[i])
}

/// The event, where it is a request, is for one block.
pub open spec fn coherent_event(event: EventView) -> bool {
    event matches EventView::Message(BlockMsgView::Proving(m)) ==> coherent_request(m)
}

/// The events as which a list of requests arrives.
pub open spec fn as_requests(msgs: Seq<ProvingMsgView>) -> Seq<EventView> {
    msgs.map_values(|m: ProvingMsgView| EventView::Message(BlockMsgView::Proving(m)))
}

/// A step leads from a well-formed state to a well-formed state.
pub proof fn lemma_step_keeps_well_formed(s: ClientView, event: EventView)
    requires
        s.well_formed(),
    ensures
        s.step(event).0.well_formed(),
{
}

/// A report is published in exactly the steps that accept a result, and it
/// bears the block number of that result, which is that of the block in
/// flight.
pub proof fn lemma_publish_iff_accepted(s: ClientView, event: EventView)
    ensures
        s.step(event).1 is Publish <==> accepts(s, event),
        published_block(s.step(event).1) == accepted_block(s, event),
        accepts(s, event) ==> s.in_flight is Some && published_block(s.step(event).1) == seq![
            s.in_flight->0.block_number,
        ],
{
}

/// Over any run, the reports published are, one for one and in order, the
/// results accepted, with the same block numbers.
pub proof fn lemma_one_report_per_accepted_result(s: ClientView, events: Seq<EventView>)
    ensures
        published_blocks(s, events) == accepted_blocks(s, events),
    decreases events.len(),
{
    if events.len() > 0 {
        lemma_publish_iff_accepted(s, events[0]);
        lemma_one_report_per_accepted_result(s.step(events[0]).0, events.skip(1));
    }
}

/// While a block is in flight, a request changes nothing but the queue, at
/// whose end it is put, and nothing is sent to the workers.
pub proof fn lemma_request_waits_while_in_flight(s: ClientView, m: ProvingMsgView)
    requires
        s.in_flight is Some,
    ensures
        s.step(EventView::Message(BlockMsgView::Proving(m))) == (
            ClientView { pending: s.pending.push(m), ..s },
            ActionView::Queued,
        ),
{
}

/// Inputs are sent only for the block in flight: after a step that has the
/// driver send the kept inputs, a block is in flight and the inputs are its
/// own. Such a step is a request taken while nothing was in flight, a result
/// accepted, or a timeout, which leaves the state as it was.
pub proof fn lemma_dispatch_is_for_block_in_flight(s: ClientView, event: EventView)
    requires
        s.well_formed(),
        coherent(s),
        coherent_event(event),
        s.step(event).1.dispatches(),
    ensures
        s.step(event).0.in_flight is Some,
        s.step(event).0.last_inputs is Some,
        s.step(event).0.last_inputs->0.block_number == s.step(event).0.in_flight->0.block_number,
        s.in_flight is Some ==> accepts(s, event) || (event is Timeout && s.step(event).0 == s),
{
}

/// Coherence is kept by every step that takes a coherent event.
pub proof fn lemma_step_keeps_coherent(s: ClientView, event: EventView)
    requires
        coherent(s),
        coherent_event(event),
    ensures
        coherent(s.step(event).0),
{
    let next = s.step(event).0;
    assert forall|i: int| 0 <= i < next.pending.len() implies coherent_request(
        #[trigger] next.pending[i],
    ) by {
        match event {
            EventView::Message(BlockMsgView::Proving(m)) => {
                if s.in_flight is Some && i < s.pending.len() {
                    assert(next.pending[i] == s.pending[i]);
                }
            },
            EventView::Message(BlockMsgView::Proved(p)) => {
                if fault_of(s, p) is None && s.pending.len() > 0 {
                    assert(next.pending[i] == s.pending[i + 1]);
                }
            },
            _ => {},
        }
    }
    if let EventView::Message(BlockMsgView::Proved(p)) = event {
        if fault_of(s, p) is None && s.pending.len() > 0 {
            assert(coherent_request(s.pending[0]));
        }
    }
}

/// Requests that arrive while a block is in flight are all queued, in the
/// order of their arrival, behind those queued before; the block in flight
/// and its inputs stay.
pub proof fn lemma_queue_holds_intervening_requests(s: ClientView, msgs: Seq<ProvingMsgView>)
    requires
        s.in_flight is Some,
    ensures
        state_after(s, as_requests(msgs)) == (ClientView { pending: s.pending + msgs, ..s }),
        published_blocks(s, as_requests(msgs)) == Seq::<u64>::empty(),
    decreases msgs.len(),
{
    let events = as_requests(msgs);
    if msgs.len() == 0 {
        assert(s.pending + msgs =~= s.pending);
    } else {
        let next = ClientView { pending: s.pending.push(msgs[0]), ..s };
        lemma_request_waits_while_in_flight(s, msgs[0]);
        assert(events[0] == EventView::Message(BlockMsgView::Proving(msgs[0])));
        assert(events.skip(1) =~= as_requests(msgs.skip(1)));
        lemma_queue_holds_intervening_requests(next, msgs.skip(1));
        assert(next.pending + msgs.skip(1) =~= s.pending + msgs);
    }
}

/// The inputs of a list of requests, in its order.
pub open spec fn inputs_of(requests: Seq<ProvingMsgView>) -> Seq<InputsView> {
    requests.map_values(|m: ProvingMsgView| m.proving_inputs)
}

/// The request that an event brings, if it brings one.
pub open spec fn request_in(event: EventView) -> Seq<ProvingMsgView> {
    match event {
        EventView::Message(BlockMsgView::Proving(m)) => seq![m],
        _ => seq![],
    }
}

/// The requests among `events`, in the order of their arrival.
pub open spec fn requests_in(events: Seq<EventView>) -> Seq<ProvingMsgView>
    decreases events.len(),
{
    if events.len() == 0 {
        seq![]
    } else {
        request_in(events[0]) + requests_in(events.skip(1))
    }
}

/// The inputs that a step sends to the workers for the first time: those of
/// a block that goes in flight. What a recovery sends again is not among
/// them.
pub open spec fn first_sent(s: ClientView, event: EventView) -> Seq<InputsView> {
    let (next, action) = s.step(event);
    match action {
        ActionView::Dispatch => seq![next.last_inputs->0],
        ActionView::Publish { dispatch_next: true, .. } => seq![next.last_inputs->0],
        _ => seq![],
    }
}

/// The inputs sent to the workers for the first time, in order, while the
/// client takes `events` one after the other until it halts.
pub open spec fn sent_in_run(s: ClientView, events: Seq<EventView>) -> Seq<InputsView>
    decreases events.len(),
{
    if events.len() == 0 {
        seq![]
    } else {
        let (next, action) = s.step(events[0]);
        if action.halts() {
            first_sent(s, events[0])
        } else {
            first_sent(s, events[0]) + sent_in_run(next, events.skip(1))
        }
    }
}

/// Blocks go in flight in the order in which their requests arrived, each
/// once and none out of turn: over any run, the inputs sent for the first
/// time are the first of those queued at its start followed by those that
/// arrive during it.
pub proof fn lemma_dispatch_in_arrival_order(s: ClientView, events: Seq<EventView>)
    requires
        s.well_formed(),
    ensures
        sent_in_run(s, events).is_prefix_of(inputs_of(s.pending + requests_in(events))),
    decreases events.len(),
{
    let all = inputs_of(s.pending + requests_in(events));
    if events.len() == 0 {
        assert(sent_in_run(s, events) =~= all.subrange(0, 0));
    } else {
        let event = events[0];
        let rest = events.skip(1);
        let (next, action) = s.step(event);
        let head = first_sent(s, event);
        lemma_step_keeps_well_formed(s, event);
        lemma_dispatch_in_arrival_order(next, rest);
        let tail = sent_in_run(next, rest);
        let after = inputs_of(next.pending + requests_in(rest));
        assert(tail =~= after.subrange(0, tail.len() as int));
        assert(head + after =~= all) by {
            match event {
                EventView::Message(BlockMsgView::Proving(m)) => {
                    if s.in_flight is None {
                        assert(s.pending + requests_in(events) =~= seq![m] + (next.pending
                            + requests_in(rest)));
                    } else {
                        assert(s.pending + requests_in(events) =~= next.pending + requests_in(
                            rest,
                        ));
                    }
                },
                EventView::Message(BlockMsgView::Proved(p)) => {
                    assert(requests_in(events) =~= requests_in(rest));
                    if fault_of(s, p) is None && s.pending.len() > 0 {
                        assert(s.pending + requests_in(events) =~= seq![s.pending[0]] + (
                        next.pending + requests_in(rest)));
                    }
                },
                _ => {
                    assert(requests_in(events) =~= requests_in(rest));
                },
            }
        }
        if action.halts() {
            assert(sent_in_run(s, events) =~= all.subrange(0, 0));
        } else {
            assert(sent_in_run(s, events) =~= all.subrange(0, (head.len() + tail.len()) as int));
        }
    }
}

/// The block in flight, as a list of one block number or of none.
pub open spec fn block_in_flight(s: ClientView) -> Seq<u64> {
    match s.in_flight {
        Some(r) => seq![r.block_number],
        None => seq![],
    }
}

/// The block numbers that the reports of a list of requests bear.
pub open spec fn report_blocks(requests: Seq<ProvingMsgView>) -> Seq<u64> {
    requests.map_values(|m: ProvingMsgView| m.fetch_report.block_number)
}

/// The blocks that await their report over a run, in the order in which
/// their requests arrived: the one in flight at its start, those queued
/// then, and those whose requests arrive during it.
pub open spec fn awaited_blocks(s: ClientView, events: Seq<EventView>) -> Seq<u64> {
    block_in_flight(s) + report_blocks(s.pending + requests_in(events))
}

/// The number of results among `events`.
pub open spec fn results_in(events: Seq<EventView>) -> nat
    decreases events.len(),
{
    if events.len() == 0 {
        0
    } else if events[0] matches EventView::Message(BlockMsgView::Proved(_)) {
        results_in(events.skip(1)) + 1
    } else {
        results_in(events.skip(1))
    }
}

/// The client takes all of `events` without halting: every result is for
/// the block in flight when it arrives, and nothing else than requests and
/// results comes in on the queue, which stays open.
pub open spec fn runs_through(s: ClientView, events: Seq<EventView>) -> bool
    decreases events.len(),
{
    if events.len() == 0 {
        true
    } else {
        let (next, action) = s.step(events[0]);
        !action.halts() && runs_through(next, events.skip(1))
    }
}

/// Reports come out in the order in which the requests arrived: over any
/// run, whatever the order in which requests and results come in, the
/// blocks reported are the first of the blocks that await their report.
pub proof fn lemma_reports_in_arrival_order(s: ClientView, events: Seq<EventView>)
    requires
        s.well_formed(),
    ensures
        published_blocks(s, events).is_prefix_of(awaited_blocks(s, events)),
    decreases events.len(),
{
    let all = awaited_blocks(s, events);
    if events.len() == 0 {
        assert(published_blocks(s, events) =~= all.subrange(0, 0));
    } else {
        let event = events[0];
        let rest = events.skip(1);
        let (next, action) = s.step(event);
        let head = published_block(action);
        lemma_step_keeps_well_formed(s, event);
        lemma_reports_in_arrival_order(next, rest);
        let tail = published_blocks(next, rest);
        let after = awaited_blocks(next, rest);
        assert(tail =~= after.subrange(0, tail.len() as int));
        if action.halts() {
            assert(published_blocks(s, events) =~= all.subrange(0, 0));
        } else {
            assert(head + after =~= all) by {
                match event {
                    EventView::Message(BlockMsgView::Proving(m)) => {
                        if s.in_flight is None {
                            assert(s.pending + requests_in(events) =~= seq![m] + (next.pending
                                + requests_in(rest)));
                        } else {
                            assert(s.pending + requests_in(events) =~= next.pending
                                + requests_in(rest));
                        }
                    },
                    EventView::Message(BlockMsgView::Proved(p)) => {
                        assert(requests_in(events) =~= requests_in(rest));
                        if s.pending.len() > 0 {
                            assert(s.pending + requests_in(events) =~= seq![s.pending[0]] + (
                            next.pending + requests_in(rest)));
                        }
                    },
                    _ => {
                        assert(requests_in(events) =~= requests_in(rest));
                    },
                }
            }
            assert(published_blocks(s, events) =~= all.subrange(0, (head.len() + tail.len()) as int));
        }
    }
}

/// Over a run that the client takes without halting, every result brings
/// one report.
pub proof fn lemma_one_report_per_result(s: ClientView, events: Seq<EventView>)
    requires
        runs_through(s, events),
    ensures
        published_blocks(s, events).len() == results_in(events),
    decreases events.len(),
{
    if events.len() > 0 {
        lemma_publish_iff_accepted(s, events[0]);
        lemma_one_report_per_result(s.step(events[0]).0, events.skip(1));
    }
}

/// Where every block sent to the workers is answered in its turn, the
/// blocks reported are, in the order of arrival of their requests, the
/// first of the blocks that await their report, as many as there are
/// results, whatever the order in which requests and results come in.
pub proof fn lemma_every_result_is_reported_in_turn(s: ClientView, events: Seq<EventView>)
    requires
        s.well_formed(),
        runs_through(s, events),
    ensures
        results_in(events) <= awaited_blocks(s, events).len(),
        published_blocks(s, events) == awaited_blocks(s, events).take(results_in(events) as int),
{
    lemma_reports_in_arrival_order(s, events);
    lemma_one_report_per_result(s, events);
    assert(published_blocks(s, events) =~= awaited_blocks(s, events).take(
        results_in(events) as int,
    ));
}

/// Where the client starts idle and every request is answered in its turn,
/// the blocks reported are those requested, each once and in the order of
/// the requests, whatever the order in which requests and results come in.
pub proof fn lemma_all_requests_reported_in_order(events: Seq<EventView>)
    requires
        runs_through(ClientView::idle(), events),
        results_in(events) == requests_in(events).len(),
    ensures
        published_blocks(ClientView::idle(), events) == report_blocks(requests_in(events)),
{
    let s = ClientView::idle();
    lemma_every_result_is_reported_in_turn(s, events);
    assert(s.pending + requests_in(events) =~= requests_in(events));
    assert(awaited_blocks(s, events) =~= report_blocks(requests_in(events)));
    assert(awaited_blocks(s, events).take(results_in(events) as int) =~= awaited_blocks(
        s,
        events,
    ));
}

/// The number of blocks in flight: one or none.
pub open spec fn flight_count(s: ClientView) -> nat {
    if s.in_flight is Some {
        1
    } else {
        0
    }
}

/// A block goes in flight only after the one before it was reported: at
/// the end of any run, and so at every moment of it, the blocks that went
/// in flight during it are as many as the blocks reported, but for the one
/// in flight at its start and the one in flight at its end.
pub proof fn lemma_next_block_waits_for_report(s: ClientView, events: Seq<EventView>)
    requires
        s.well_formed(),
    ensures
        sent_in_run(s, events).len() + flight_count(s) == published_blocks(s, events).len()
            + flight_count(state_after(s, events)),
        sent_in_run(s, events).len() <= published_blocks(s, events).len() + 1,
    decreases events.len(),
{
    if events.len() > 0 {
        lemma_step_keeps_well_formed(s, events[0]);
        lemma_next_block_waits_for_report(s.step(events[0]).0, events.skip(1));
    }
}

} // verus!
