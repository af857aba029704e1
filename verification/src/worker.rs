//! One worker of the parallel collector: it judges the entries that the walk
//! hands it and gathers the accepted paths in its own batch.

use crate::batch::{
    handed_over,
    is_unbounded,
    lemma_flush_keeps_every_path,
    lemma_push_keeps_every_path,
    BatchState,
    ResultBatch,
};
use crate::config::SearchConfig;
use crate::entry::{EntryMetadata, TraversalEntry};
use crate::filters::CompiledMatchers;
use crate::predicate::Verdict;
use crossbeam_channel::Sender;
use std::sync::Arc;
use vstd::prelude::*;

verus! {

/// One entry as a worker meets it: the entry, what can be read of its
/// metadata, and the time at which it is judged.
pub struct Visit<'a> {
    pub entry: TraversalEntry<'a>,
    pub metadata: Option<EntryMetadata>,
    pub now: Option<u64>,
}

/// The state of a batch after an accepted entry: its path joins the batch,
/// unless the path cannot be reported.
pub open spec fn with_entry(state: BatchState, entry: TraversalEntry) -> BatchState {
    match entry.reported_path() {
        Some(path) => state.pushed(path),
        None => state,
    }
}

/// The state of a batch after one visit: an accepted entry joins it, a
/// rejected one leaves it as it was.
pub open spec fn after_visit(
    state: BatchState,
    matchers: CompiledMatchers,
    visit: Visit,
) -> BatchState {
    if matchers.accepts(visit.entry, visit.metadata, visit.now) {
        with_entry(state, visit.entry)
    } else {
        state
    }
}

/// The state of a fresh batch after the visits of `visits`, one after the
/// other.
pub open spec fn after_visits(matchers: CompiledMatchers, visits: Seq<Visit>) -> BatchState
    decreases visits.len(),
{
    if visits.len() == 0 {
        BatchState::empty()
    } else {
        after_visit(after_visits(matchers, visits.drop_last()), matchers, visits.last())
    }
}

/// The results among `visits`: the paths of the entries that the pipeline
/// accepts and that can be reported, in the order of visiting.
pub open spec fn accepted_paths(matchers: CompiledMatchers, visits: Seq<Visit>) -> Seq<Seq<char>>
    decreases visits.len(),
{
    if visits.len() == 0 {
        Seq::empty()
    } else if matchers.accepts(visits.last().entry, visits.last().metadata, visits.last().now)
        && visits.last().entry.reported_path() is Some {
        accepted_paths(matchers, visits.drop_last()).push(
            visits.last().entry.reported_path()->0,
        )
    } else {
        accepted_paths(matchers, visits.drop_last())
    }
}

/// A worker: a handle on the shared matchers and a batch of its own.
pub struct Worker {
    matchers: Arc<CompiledMatchers>,
    batch: ResultBatch,
}

impl Worker {
    /// The matchers that the worker judges by.
    pub closed spec fn matchers(self) -> CompiledMatchers {
        *self.matchers
    }

    /// What the worker has gathered so far.
    pub closed spec fn gathered(self) -> BatchState {
        self.batch@
    }

    /// The sending end that the worker sends through.
    pub closed spec fn sender(self) -> Sender<Vec<String>> {
        self.batch.sender()
    }

    /// A worker with an empty buffer, which judges by `matchers` and sends
    /// through `sender`, which must belong to an unbounded channel.
    pub fn new(matchers: Arc<CompiledMatchers>, sender: Sender<Vec<String>>) -> (worker: Worker)
        requires
            is_unbounded(sender),
        ensures
            worker.matchers() == *matchers,
            worker.sender() == sender,
            worker.gathered() == (BatchState { sent: handed_over(sender), pending: Seq::empty() }),
    {
        Worker { matchers, batch: ResultBatch::new(sender) }
    }

    fn keep(&mut self, entry: &TraversalEntry)
        ensures
            final(self).matchers() == old(self).matchers(),
            final(self).gathered() == with_entry(old(self).gathered(), *entry),
            handed_over(final(self).sender()) == final(self).gathered().sent,
    {
        if let Some(path) = entry.result_path() {
            self.batch.push(path);
        }
        proof {
            self.batch.lemma_sent_is_what_was_handed_over();
        }
    }

    /// Runs the stages that need no metadata. An entry that is accepted
    /// outright is gathered; one that waits for its metadata is left to
    /// `resolve`.
    pub fn visit(&mut self, entry: &TraversalEntry) -> (verdict: Verdict)
        ensures
            final(self).matchers() == old(self).matchers(),
            verdict is Reject <==> !old(self).matchers().passes_early_stages(*entry),
            verdict is NeedsMetadata <==> old(self).matchers().passes_early_stages(*entry) && old(
                self,
            ).matchers().has_bounds(),
            verdict is Accept <==> old(self).matchers().passes_early_stages(*entry) && !old(
                self,
            ).matchers().has_bounds(),
            final(self).gathered() == if verdict is Accept {
                with_entry(old(self).gathered(), *entry)
            } else {
                old(self).gathered()
            },
            handed_over(final(self).sender()) == final(self).gathered().sent,
    {
        let verdict = self.matchers.prefilter(entry);
        if let Verdict::Accept = verdict {
            self.keep(entry);
        }
        proof {
            self.batch.lemma_sent_is_what_was_handed_over();
        }
        verdict
    }

    /// Decides on an entry that waits for its metadata, one for which
    /// `visit` has answered `NeedsMetadata`: it is gathered exactly if the
    /// metadata stage passes.
    pub fn resolve(
        &mut self,
        entry: &TraversalEntry,
        metadata: Option<EntryMetadata>,
        now: Option<u64>,
    ) -> (kept: bool)
        requires
            old(self).matchers().passes_early_stages(*entry),
            old(self).matchers().has_bounds(),
        ensures
            final(self).matchers() == old(self).matchers(),
            kept == old(self).matchers().accepts(*entry, metadata, now),
            final(self).gathered() == if kept {
                with_entry(old(self).gathered(), *entry)
            } else {
                old(self).gathered()
            },
            handed_over(final(self).sender()) == final(self).gathered().sent,
    {
        let kept = self.matchers.judge_metadata(metadata, now);
        if kept {
            self.keep(entry);
        }
        proof {
            self.batch.lemma_sent_is_what_was_handed_over();
        }
        kept
    }

    /// Runs the whole pipeline on an entry whose metadata is at hand.
    pub fn consider(
        &mut self,
        entry: &TraversalEntry,
        metadata: Option<EntryMetadata>,
        now: Option<u64>,
    )
        ensures
            final(self).matchers() == old(self).matchers(),
            final(self).gathered() == after_visit(
                old(self).gathered(),
                old(self).matchers(),
                Visit { entry: *entry, metadata, now },
            ),
            handed_over(final(self).sender()) == final(self).gathered().sent,
    {
        if let Verdict::NeedsMetadata = self.visit(entry) {
            self.resolve(entry, metadata, now);
        }
    }

    /// Ends the worker's part of the walk: what waits in the buffer is sent.
    pub fn finish(&mut self)
        ensures
            final(self).matchers() == old(self).matchers(),
            final(self).gathered() == old(self).gathered().flushed(),
            handed_over(final(self).sender()) == final(self).gathered().sent,
    {
        self.batch.flush();
    }
}

/// What a worker has gathered after any run of visits is exactly the
/// accepted, reportable paths among them, in order: no entry is counted
/// twice, and none is dropped but by a stage of the pipeline.
pub proof fn lemma_worker_gathers_the_accepted_paths(matchers: CompiledMatchers, visits: Seq<Visit>)
    ensures
        after_visits(matchers, visits).collected() == accepted_paths(matchers, visits),
        after_visits(matchers, visits).wf(),
    decreases visits.len(),
{
    if visits.len() == 0 {
        assert(BatchState::empty().collected() =~= Seq::<Seq<char>>::empty());
    } else {
        lemma_worker_gathers_the_accepted_paths(matchers, visits.drop_last());
        lemma_push_keeps_every_path(
            after_visits(matchers, visits.drop_last()),
            visits.last().entry.path@,
        );
    }
}

/// Once a worker has finished, the batches it sent, laid end to end, are
/// exactly the accepted, reportable paths among its visits, and nothing
/// waits in its buffer.
pub proof fn lemma_finished_worker_has_sent_the_accepted_paths(
    matchers: CompiledMatchers,
    visits: Seq<Visit>,
)
    ensures
        after_visits(matchers, visits).flushed().sent.flatten() == accepted_paths(matchers, visits),
        after_visits(matchers, visits).flushed().pending.len() == 0,
{
    lemma_worker_gathers_the_accepted_paths(matchers, visits);
    lemma_flush_keeps_every_path(after_visits(matchers, visits));
    assert(after_visits(matchers, visits).flushed().collected() =~= after_visits(
        matchers,
        visits,
    ).flushed().sent.flatten());
}

/// Where the minimum depth exceeds the maximum depth, a worker gathers
/// nothing, whatever it is handed: the search ends with the empty result.
pub proof fn lemma_inverted_depth_bounds_gather_nothing(
    config: SearchConfig,
    matchers: CompiledMatchers,
    visits: Seq<Visit>,
)
    requires
        matchers.compiled_from(config),
        config.depth_range_is_empty(),
    ensures
        accepted_paths(matchers, visits).len() == 0,
        after_visits(matchers, visits).flushed() == BatchState::empty(),
    decreases visits.len(),
{
    if visits.len() > 0 {
        lemma_inverted_depth_bounds_gather_nothing(config, matchers, visits.drop_last());
    }
}

} // verus!
