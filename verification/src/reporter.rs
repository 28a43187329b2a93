//! The reporter: the list of subscribers, and the fan-out of each report.

use crate::channel::send_or_return;
use crate::messages::{BlockMsg, BlockMsgView, ReportMsg};
use crate::report::BlockProvingReport;
use tokio::sync::mpsc::UnboundedSender;
use vstd::prelude::*;

verus! {

/// The flag of the item at `i` is there and not set: the item is struck.
pub open spec fn struck(keep: Seq<bool>, i: int) -> bool {
    0 <= i < keep.len() && !keep[i]
}

/// The items that are not struck, in their order.
pub open spec fn kept<T>(items: Seq<T>, keep: Seq<bool>) -> Seq<T>
    decreases items.len(),
{
    if items.len() == 0 {
        Seq::empty()
    } else if struck(keep, items.len() - 1) {
        kept(items.drop_last(), keep)
    } else {
        kept(items.drop_last(), keep).push(items.last())
    }
}

/// The number of items struck among the first `n`.
pub open spec fn failures(keep: Seq<bool>, n: nat) -> nat
    decreases n,
{
    if n == 0 {
        0
    } else if struck(keep, n - 1) {
        failures(keep, (n - 1) as nat) + 1
    } else {
        failures(keep, (n - 1) as nat)
    }
}

/// Removes from `items` those whose flag in `keep` is there and not set;
/// the others stay in their order.
pub fn prune<T>(items: &mut Vec<T>, keep: &Vec<bool>)
    ensures
        final(items)@ == kept(old(items)@, keep@),
{
    let ghost before = items@;
    let total = items.len();
    let mut at: usize = 0;
    let mut seen: usize = 0;
    while seen < total
        invariant
            before.len() == total,
            seen <= total,
            at <= seen,
            at == kept(before.take(seen as int), keep@).len(),
            items@ == kept(before.take(seen as int), keep@) + before.skip(seen as int),
        decreases total - seen,
    {
        let ghost head = kept(before.take(seen as int), keep@);
        proof {
            assert(before.take(seen + 1).drop_last() =~= before.take(seen as int));
            assert(before.take(seen + 1).last() == before[seen as int]);
        }
        if seen < keep.len() && !keep[seen] {
            items.remove(at);
            assert(items@ =~= head + before.skip(seen + 1));
        } else {
            assert(items@ =~= head.push(before[seen as int]) + before.skip(seen + 1));
            at += 1;
        }
        seen += 1;
    }
    assert(before.take(seen as int) =~= before);
    assert(items@ =~= kept(before, keep@));
}

/// What the reporter did with a message.
#[derive(Debug)]
pub enum ReporterOutcome {
    /// A subscriber was added; `watchers` are there now.
    WatcherAdded { watchers: usize },
    /// A report was sent to every subscriber; `delivered` holds, for each
    /// subscriber there was, whether it took the report. Those that did not
    /// are subscribers no more.
    Notified { delivered: Vec<bool> },
    /// The message is not for the reporter; it comes back unused.
    Ignored(BlockMsg),
}

/// The reporter: it owns the queue of every subscriber.
#[derive(Debug)]
pub struct BlockReporter {
    /// The subscribers' queues, in the order in which they registered.
    pub watchers: Vec<UnboundedSender<ReportMsg>>,
}

impl BlockReporter {
    /// A reporter without subscribers.
    pub fn new() -> (reporter: Self)
        ensures
            reporter.watchers@ == Seq::<UnboundedSender<ReportMsg>>::empty(),
    {
        BlockReporter { watchers: Vec::new() }
    }

    /// Number of subscribers.
    pub fn watcher_count(&self) -> (n: usize)
        ensures
            n == self.watchers@.len(),
    {
        self.watchers.len()
    }

    /// Adds a subscriber behind those that are there.
    pub fn on_watch(&mut self, sender: UnboundedSender<ReportMsg>)
        ensures
            final(self).watchers@ == old(self).watchers@.push(sender),
    {
        self.watchers.push(sender);
    }

    /// Sends a copy of `report` to every subscriber, in their order, and
    /// strikes those that did not take it. The result tells, for each
    /// subscriber there was, whether it took the report.
    pub fn broadcast(&mut self, report: &BlockProvingReport) -> (delivered: Vec<bool>)
        ensures
            delivered.len() == old(self).watchers.len(),
            final(self).watchers@ == kept(old(self).watchers@, delivered@),
    {
        let mut delivered: Vec<bool> = Vec::with_capacity(self.watchers.len());
        let mut i: usize = 0;
        while i < self.watchers.len()
            invariant
                i <= self.watchers.len(),
                delivered.len() == i,
                self.watchers == old(self).watchers,
            decreases self.watchers.len() - i,
        {
            let sent = send_or_return(&self.watchers[i], report.clone());
            delivered.push(sent.is_ok());
            i += 1;
        }
        prune(&mut self.watchers, &delivered);
        delivered
    }

    /// Takes one message: a registration adds a subscriber, a report is
    /// sent to all of them, anything else is handed back.
    pub fn handle(&mut self, msg: BlockMsg) -> (outcome: ReporterOutcome)
        ensures
            match msg@ {
                BlockMsgView::Watch(sender) => {
                    &&& final(self).watchers@ == old(self).watchers@.push(sender)
                    &&& outcome matches ReporterOutcome::WatcherAdded { watchers }
                    &&& watchers == old(self).watchers.len() + 1
                },
                BlockMsgView::Report(_) => {
                    &&& outcome matches ReporterOutcome::Notified { delivered }
                    &&& delivered.len() == old(self).watchers.len()
                    &&& final(self).watchers@ == kept(old(self).watchers@, delivered@)
                },
                _ => {
                    &&& final(self).watchers@ == old(self).watchers@
                    &&& outcome matches ReporterOutcome::Ignored(returned)
                    &&& returned@ == msg@
                },
            },
    {
        match msg {
            BlockMsg::Watch(watch) => {
                self.on_watch(watch.sender);
                ReporterOutcome::WatcherAdded { watchers: self.watchers.len() }
            },
            BlockMsg::Report(report) => {
                let delivered = self.broadcast(&report);
                ReporterOutcome::Notified { delivered }
            },
            other => ReporterOutcome::Ignored(other),
        }
    }
}

/// The list of subscribers shrinks by exactly the number of failed sends.
pub proof fn lemma_shrinks_by_failures<T>(items: Seq<T>, keep: Seq<bool>)
    ensures
        kept(items, keep).len() + failures(keep, items.len()) == items.len(),
    decreases items.len(),
{
    if items.len() > 0 {
        lemma_shrinks_by_failures(items.drop_last(), keep);
    }
}

/// Every subscriber that stays was one before, and the send to it did not
/// fail.
pub proof fn lemma_kept_were_there<T>(items: Seq<T>, keep: Seq<bool>, i: int)
    requires
        0 <= i < kept(items, keep).len(),
    ensures
        exists|j: int| 0 <= j < items.len() && !struck(keep, j) && items[j] == kept(items, keep)[i],
    decreases items.len(),
{
    let rest = kept(items.drop_last(), keep);
    let last = items.len() - 1;
    if !struck(keep, last) && i == rest.len() {
        assert(!struck(keep, last) && items[last] == kept(items, keep)[i]);
    } else {
        lemma_kept_were_there(items.drop_last(), keep, i);
        let j = choose|j: int|
            0 <= j < items.drop_last().len() && !struck(keep, j) && items.drop_last()[j] == rest[i];
        assert(!struck(keep, j) && items[j] == kept(items, keep)[i]);
    }
}

/// When every send succeeds the list stays as it is.
pub proof fn lemma_all_kept<T>(items: Seq<T>, keep: Seq<bool>)
    requires
        forall|j: int| 0 <= j < items.len() ==> !struck(keep, j),
    ensures
        kept(items, keep) == items,
    decreases items.len(),
{
    if items.len() > 0 {
        lemma_all_kept(items.drop_last(), keep);
        assert(items.drop_last().push(items.last()) =~= items);
    }
}

/// When a send fails to one subscriber and to no other, the list loses
/// that subscriber and nothing else.
pub proof fn lemma_one_failure_removes_one<T>(items: Seq<T>, keep: Seq<bool>, failed: int)
    requires
        0 <= failed < items.len(),
        forall|j: int| 0 <= j < items.len() ==> (struck(keep, j) <==> j == failed),
    ensures
        kept(items, keep) == items.remove(failed),
        kept(items, keep).len() == items.len() - 1,
    decreases items.len(),
{
    let last = items.len() - 1;
    if failed == last {
        lemma_all_kept(items.drop_last(), keep);
        assert(items.remove(failed) =~= items.drop_last());
    } else {
        lemma_one_failure_removes_one(items.drop_last(), keep, failed);
        assert(items.remove(failed) =~= items.drop_last().remove(failed).push(items.last()));
    }
}

/// A broadcast adds no duplicate: where no subscriber was listed twice,
/// none is afterwards.
pub proof fn lemma_no_duplicates_kept<T>(items: Seq<T>, keep: Seq<bool>)
    requires
        items.no_duplicates(),
    ensures
        kept(items, keep).no_duplicates(),
    decreases items.len(),
{
    if items.len() > 0 {
        let rest = kept(items.drop_last(), keep);
        lemma_no_duplicates_kept(items.drop_last(), keep);
        if !struck(keep, items.len() - 1) {
            assert forall|i: int| 0 <= i < rest.len() implies rest[i] != items.last() by {
                lemma_kept_were_there(items.drop_last(), keep, i);
            }
        }
    }
}

} // verus!
