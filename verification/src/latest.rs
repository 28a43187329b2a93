//! The latest-block fetcher: how many blocks are still wanted, and when the
//! subscription to new blocks is opened, kept and renewed.
//!
//! The fetcher is a state machine. Its driver waits on the request queue
//! and, while blocks are wanted, on the subscription; it hands what happened
//! to [`LatestFetcherState::step`] and does what the outcome says.

use crate::limits::NUM_BLOCKS_PER_BATCH;
use crate::messages::FetchMsg;
use vstd::prelude::*;

verus! {

/// What the driver observed.
#[derive(Clone, Copy, Debug, PartialEq, Eq, Structural)]
pub enum LatestEvent {
    /// A message was taken from the request queue.
    Message(FetchMsg),
    /// The subscription delivered the header of a new block.
    Header { block_number: u64 },
    /// The subscription ended by itself.
    SubscriptionEnded,
    /// The request queue closed.
    Closed,
}

/// What the driver does next.
#[derive(Clone, Copy, Debug, PartialEq, Eq, Structural)]
pub enum LatestAction {
    /// No block is wanted: hold no subscription and wait on the request
    /// queue alone.
    AwaitRequest,
    /// Open a new subscription in place of the one held, if any, then wait
    /// for headers and requests.
    Subscribe,
    /// Keep the subscription and wait for headers and requests.
    AwaitBlock,
    /// End the task.
    Stop,
}

/// What follows from one event.
#[derive(Clone, Copy, Debug, PartialEq, Eq, Structural)]
pub struct LatestOutcome {
    /// The block to produce inputs for before anything else, if any.
    pub fetch: Option<u64>,
    /// What to do after that.
    pub next: LatestAction,
}

/// Mathematical value of the fetcher's state.
pub struct LatestView {
    /// Latest blocks still wanted.
    pub remaining: u64,
    /// Blocks taken from the subscription now held.
    pub batch: u64,
}

impl LatestView {
    /// The state in which no block is wanted.
    pub open spec fn idle() -> LatestView {
        LatestView { remaining: 0, batch: 0 }
    }

    /// A subscription is held exactly while blocks are wanted.
    pub open spec fn subscribed(self) -> bool {
        self.remaining > 0
    }

    /// A subscription serves fewer than [`NUM_BLOCKS_PER_BATCH`] blocks
    /// before it is renewed, and none is counted while none is held.
    pub open spec fn well_formed(self) -> bool {
        &&& self.batch < NUM_BLOCKS_PER_BATCH
        &&& self.remaining == 0 ==> self.batch == 0
    }

    /// What the driver does in this state when nothing else is asked of it.
    pub open spec fn waiting(self) -> LatestAction {
        if self.remaining == 0 {
            LatestAction::AwaitRequest
        } else {
            LatestAction::AwaitBlock
        }
    }

    /// The state after a request for `count` latest blocks: requests that
    /// overlap do not add up, the larger one stands.
    pub open spec fn requested(self, count: u64) -> LatestView {
        LatestView {
            remaining: if count > self.remaining {
                count
            } else {
                self.remaining
            },
            batch: self.batch,
        }
    }

    /// The state after one block was taken from the subscription.
    pub open spec fn served(self) -> LatestView
        recommends
            self.remaining > 0,
    {
        if self.remaining == 1 || self.batch + 1 >= NUM_BLOCKS_PER_BATCH {
            LatestView { remaining: (self.remaining - 1) as u64, batch: 0 }
        } else {
            LatestView { remaining: (self.remaining - 1) as u64, batch: (self.batch + 1) as u64 }
        }
    }

    /// What the driver does after one block was taken from the subscription.
    pub open spec fn after_block(self) -> LatestAction
        recommends
            self.remaining > 0,
    {
        if self.remaining == 1 {
            LatestAction::AwaitRequest
        } else if self.batch + 1 >= NUM_BLOCKS_PER_BATCH {
            LatestAction::Subscribe
        } else {
            LatestAction::AwaitBlock
        }
    }

    /// The state and the outcome that follow from an event.
    pub open spec fn step(self, event: LatestEvent) -> (LatestView, LatestOutcome) {
        match event {
            LatestEvent::Message(FetchMsg::ProveLatest { count }) => {
                let next = self.requested(count);
                if self.remaining == 0 && next.remaining > 0 {
                    (next, LatestOutcome { fetch: None, next: LatestAction::Subscribe })
                } else {
                    (next, LatestOutcome { fetch: None, next: next.waiting() })
                }
            },
            LatestEvent::Message(_) => (self, LatestOutcome { fetch: None, next: LatestAction::Stop }),
            LatestEvent::Header { block_number } => {
                if self.remaining > 0 {
                    (
                        self.served(),
                        LatestOutcome { fetch: Some(block_number), next: self.after_block() },
                    )
                } else {
                    (self, LatestOutcome { fetch: None, next: LatestAction::AwaitRequest })
                }
            },
            LatestEvent::SubscriptionEnded => {
                if self.remaining > 0 {
                    (
                        LatestView { remaining: self.remaining, batch: 0 },
                        LatestOutcome { fetch: None, next: LatestAction::Subscribe },
                    )
                } else {
                    (self, LatestOutcome { fetch: None, next: LatestAction::AwaitRequest })
                }
            },
            LatestEvent::Closed => (self, LatestOutcome { fetch: None, next: LatestAction::Stop }),
        }
    }
}

/// The latest-block fetcher's state.
#[derive(Clone, Copy, Debug)]
pub struct LatestFetcherState {
    remaining: u64,
    batch: u64,
}

impl View for LatestFetcherState {
    type V = LatestView;

    closed spec fn view(&self) -> LatestView {
        LatestView { remaining: self.remaining, batch: self.batch }
    }
}

impl LatestFetcherState {
    #[verifier::type_invariant]
    spec fn inv(self) -> bool {
        self@.well_formed()
    }

    /// The state of a fetcher that was asked for nothing yet.
    pub fn new() -> (state: Self)
        ensures
            state@ == LatestView::idle(),
    {
        LatestFetcherState { remaining: 0, batch: 0 }
    }

    /// Latest blocks still wanted.
    pub fn remaining(&self) -> (n: u64)
        ensures
            n == self@.remaining,
            self@.well_formed(),
    {
        proof {
            use_type_invariant(self);
        }
        self.remaining
    }

    /// Blocks taken from the subscription now held.
    pub fn batch_count(&self) -> (n: u64)
        ensures
            n == self@.batch,
    {
        self.batch
    }

    /// Tells whether the driver holds a subscription in this state.
    pub fn is_subscribed(&self) -> (yes: bool)
        ensures
            yes == self@.subscribed(),
    {
        self.remaining > 0
    }

    /// Takes one event and says what to do.
    pub fn step(&mut self, event: LatestEvent) -> (outcome: LatestOutcome)
        ensures
            (final(self)@, outcome) == old(self)@.step(event),
            old(self)@.well_formed(),
            final(self)@.well_formed(),
    {
        proof {
            use_type_invariant(&*self);
        }
        match event {
            LatestEvent::Message(FetchMsg::ProveLatest { count }) => {
                let was_idle = self.remaining == 0;
                if count > self.remaining {
                    *self = LatestFetcherState { remaining: count, batch: self.batch };
                }
                let next = if self.remaining == 0 {
                    LatestAction::AwaitRequest
                } else if was_idle {
                    LatestAction::Subscribe
                } else {
                    LatestAction::AwaitBlock
                };
                LatestOutcome { fetch: None, next }
            },
            LatestEvent::Message(_) => LatestOutcome { fetch: None, next: LatestAction::Stop },
            LatestEvent::Header { block_number } => {
                if self.remaining == 0 {
                    return LatestOutcome { fetch: None, next: LatestAction::AwaitRequest };
                }
                let remaining = self.remaining - 1;
                let batch = self.batch + 1;
                let next = if remaining == 0 {
                    LatestAction::AwaitRequest
                } else if batch >= NUM_BLOCKS_PER_BATCH {
                    LatestAction::Subscribe
                } else {
                    LatestAction::AwaitBlock
                };
                if remaining == 0 || batch >= NUM_BLOCKS_PER_BATCH {
                    *self = LatestFetcherState { remaining, batch: 0 };
                } else {
                    *self = LatestFetcherState { remaining, batch };
                }
                LatestOutcome { fetch: Some(block_number), next }
            },
            LatestEvent::SubscriptionEnded => {
                if self.remaining > 0 {
                    *self = LatestFetcherState { remaining: self.remaining, batch: 0 };
                    LatestOutcome { fetch: None, next: LatestAction::Subscribe }
                } else {
                    LatestOutcome { fetch: None, next: LatestAction::AwaitRequest }
                }
            },
            LatestEvent::Closed => LatestOutcome { fetch: None, next: LatestAction::Stop },
        }
    }
}

/// The state after `n` blocks were taken from the subscription one after
/// the other.
pub open spec fn after_headers(s: LatestView, n: nat) -> LatestView
    decreases n,
{
    if n == 0 {
        s
    } else {
        after_headers(s, (n - 1) as nat).served()
    }
}

/// A step leads from a well-formed state to a well-formed state.
pub proof fn lemma_step_keeps_well_formed(s: LatestView, event: LatestEvent)
    requires
        s.well_formed(),
    ensures
        s.step(event).0.well_formed(),
{
}

/// A request for no block that arrives while no block is wanted changes
/// nothing: the fetcher stays idle and opens no subscription.
pub proof fn lemma_empty_request_while_idle()
    ensures
        LatestView::idle().step(LatestEvent::Message(FetchMsg::ProveLatest { count: 0 })) == (
            LatestView::idle(),
            LatestOutcome { fetch: None, next: LatestAction::AwaitRequest },
        ),
{
}

/// Requests coalesce by maximum: after two requests the number of blocks
/// wanted is the largest of what was wanted before and the two counts, and
/// never their sum unless it is that maximum.
pub proof fn lemma_requests_coalesce_by_max(s: LatestView, first: u64, second: u64)
    ensures
        ({
            let after = s.step(LatestEvent::Message(FetchMsg::ProveLatest { count: first })).0.step(
                LatestEvent::Message(FetchMsg::ProveLatest { count: second }),
            ).0;
            &&& after.remaining >= s.remaining
            &&& after.remaining >= first
            &&& after.remaining >= second
            &&& after.remaining == s.remaining || after.remaining == first || after.remaining
                == second
            &&& after.batch == s.batch
        }),
{
}

/// With more than [`NUM_BLOCKS_PER_BATCH`] blocks wanted, a fresh
/// subscription is kept for all but the last of its first
/// `NUM_BLOCKS_PER_BATCH` blocks, and the last of them has it renewed.
pub proof fn lemma_batch_renews_subscription(s: LatestView, k: nat)
    requires
        s.batch == 0,
        s.remaining > NUM_BLOCKS_PER_BATCH,
        k < NUM_BLOCKS_PER_BATCH,
    ensures
        after_headers(s, k) == (LatestView { remaining: (s.remaining - k) as u64, batch: k as u64 }),
        k + 1 < NUM_BLOCKS_PER_BATCH ==> after_headers(s, k).after_block()
            == LatestAction::AwaitBlock,
        k + 1 == NUM_BLOCKS_PER_BATCH ==> after_headers(s, k).after_block()
            == LatestAction::Subscribe && after_headers(s, k + 1) == (LatestView {
            remaining: (s.remaining - NUM_BLOCKS_PER_BATCH) as u64,
            batch: 0,
        }),
    decreases k,
{
    if k > 0 {
        lemma_batch_renews_subscription(s, (k - 1) as nat);
    }
    assert(after_headers(s, k + 1) == after_headers(s, k).served());
}

/// A request is served in full: once `n` more blocks were taken, with `n`
/// the number wanted, no block is wanted any more, and not before.
pub proof fn lemma_request_is_served_in_full(s: LatestView, n: nat)
    requires
        s.well_formed(),
        n <= s.remaining,
    ensures
        after_headers(s, n).remaining == s.remaining - n,
        after_headers(s, n).well_formed(),
        n == s.remaining ==> after_headers(s, n) == LatestView::idle(),
    decreases n,
{
    if n > 0 {
        lemma_request_is_served_in_full(s, (n - 1) as nat);
    }
}

} // verus!
