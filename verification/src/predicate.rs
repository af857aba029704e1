//! The per-entry predicate pipeline: one accept-or-reject decision for each
//! entry of the walk.

use crate::config::SearchConfig;
use crate::entry::{EntryKind, EntryMetadata, TraversalEntry};
use crate::filters::CompiledMatchers;
use crate::metadata::{any_bound, matches_metadata_filters, metadata_filters_match};
use vstd::prelude::*;
use vstd::utf8::encode_utf8;

verus! {

/// Where an entry stands once the stages that need no metadata have run.
#[derive(Clone, Copy, Debug, PartialEq, Eq, Structural)]
pub enum Verdict {
    /// A stage has failed: the entry is no result.
    Reject,
    /// Every stage so far has passed and a size or time bound is set: the
    /// entry's metadata decides.
    NeedsMetadata,
    /// Every stage has passed and no bound is set: the entry is a result.
    Accept,
}

impl CompiledMatchers {
    /// Whether the name matchers pass. Both are tried on the same text, the
    /// whole path or the file name, as bytes.
    pub open spec fn name_matches(self, entry: TraversalEntry) -> bool {
        &&& (self.pattern matches Some(m) ==> m@.contains(
            encode_utf8(entry.match_target(self.full_path)),
        ))
        &&& (self.extension matches Some(m) ==> m@.contains(
            encode_utf8(entry.match_target(self.full_path)),
        ))
    }

    /// Whether `depth` lies within the depth bounds, both included. A bound
    /// that is not set bounds nothing.
    pub open spec fn admits_depth(self, depth: nat) -> bool {
        &&& (self.min_depth matches Some(min) ==> min <= depth)
        &&& (self.max_depth matches Some(max) ==> depth <= max)
    }

    /// The stages that read nothing but the entry itself: the search root is
    /// never a candidate, the depth lies within the bounds, then the name
    /// pattern, the extension and the type.
    pub open spec fn passes_early_stages(self, entry: TraversalEntry) -> bool {
        &&& !entry.is_search_root()
        &&& self.admits_depth(entry.depth as nat)
        &&& self.name_matches(entry)
        &&& self.file_type.admits(entry.kind)
    }

    /// Whether a size or time bound is set.
    pub open spec fn has_bounds(self) -> bool {
        any_bound(self.min_size, self.max_size, self.changed_within, self.changed_before)
    }

    /// Whether the metadata stage passes.
    pub open spec fn metadata_passes(
        self,
        metadata: Option<EntryMetadata>,
        now: Option<u64>,
    ) -> bool {
        metadata_filters_match(
            metadata,
            self.min_size,
            self.max_size,
            self.changed_within,
            self.changed_before,
            now,
        )
    }

    /// The whole pipeline: an entry is a result exactly if every stage passes.
    pub open spec fn accepts(
        self,
        entry: TraversalEntry,
        metadata: Option<EntryMetadata>,
        now: Option<u64>,
    ) -> bool {
        self.passes_early_stages(entry) && self.metadata_passes(metadata, now)
    }

    /// Whether the metadata of an entry has to be read to decide on it.
    pub fn needs_metadata(&self) -> (needed: bool)
        ensures
            needed == self.has_bounds(),
    {
        self.min_size.is_some() || self.max_size.is_some() || self.changed_within.is_some()
            || self.changed_before.is_some()
    }

    /// Runs the stages that need no metadata and stops at the first that
    /// fails.
    pub fn prefilter(&self, entry: &TraversalEntry) -> (verdict: Verdict)
        ensures
            verdict is Reject <==> !self.passes_early_stages(*entry),
            verdict is NeedsMetadata <==> self.passes_early_stages(*entry) && self.has_bounds(),
            verdict is Accept <==> self.passes_early_stages(*entry) && !self.has_bounds(),
    {
        if entry.root_directory() {
            return Verdict::Reject;
        }
        if let Some(min) = self.min_depth {
            if entry.depth < min {
                return Verdict::Reject;
            }
        }
        if let Some(max) = self.max_depth {
            if entry.depth > max {
                return Verdict::Reject;
            }
        }
        let target = entry.target(self.full_path).as_bytes();
        if let Some(matcher) = &self.pattern {
            if !matcher.is_match(target) {
                return Verdict::Reject;
            }
        }
        if let Some(matcher) = &self.extension {
            if !matcher.is_match(target) {
                return Verdict::Reject;
            }
        }
        if !self.file_type.matches(entry.kind) {
            return Verdict::Reject;
        }
        if self.needs_metadata() {
            Verdict::NeedsMetadata
        } else {
            Verdict::Accept
        }
    }

    /// Decides the metadata stage: `metadata` is what could be read of the
    /// entry, `now` the evaluation time in seconds since the epoch.
    pub fn judge_metadata(&self, metadata: Option<EntryMetadata>, now: Option<u64>) -> (keep: bool)
        ensures
            keep == self.metadata_passes(metadata, now),
    {
        matches_metadata_filters(
            metadata,
            self.min_size,
            self.max_size,
            self.changed_within,
            self.changed_before,
            now,
        )
    }

    /// Runs the whole pipeline on an entry whose metadata is at hand.
    pub fn accepts_entry(
        &self,
        entry: &TraversalEntry,
        metadata: Option<EntryMetadata>,
        now: Option<u64>,
    ) -> (keep: bool)
        ensures
            keep == self.accepts(*entry, metadata, now),
    {
        match self.prefilter(entry) {
            Verdict::Reject => false,
            Verdict::Accept => true,
            Verdict::NeedsMetadata => self.judge_metadata(metadata, now),
        }
    }
}

/// A root of the walk that is a directory is never a result, whatever the
/// matchers, the metadata and the time.
pub proof fn lemma_search_root_is_never_accepted(
    matchers: CompiledMatchers,
    entry: TraversalEntry,
    metadata: Option<EntryMetadata>,
    now: Option<u64>,
)
    requires
        entry.depth == 0,
        entry.kind == EntryKind::Directory,
    ensures
        !matchers.accepts(entry, metadata, now),
{
}

/// An entry is a result only if its depth lies within the depth bounds of
/// the configuration that the matchers were compiled from.
pub proof fn lemma_accepted_entries_lie_within_the_depth_bounds(
    config: SearchConfig,
    matchers: CompiledMatchers,
    entry: TraversalEntry,
    metadata: Option<EntryMetadata>,
    now: Option<u64>,
)
    requires
        matchers.compiled_from(config),
        matchers.accepts(entry, metadata, now),
    ensures
        config.depth_in_range(entry.depth as nat),
{
}

/// Where the minimum depth exceeds the maximum depth, no entry is a result:
/// the search finds nothing, whatever the walk hands over.
pub proof fn lemma_inverted_depth_bounds_accept_nothing(
    config: SearchConfig,
    matchers: CompiledMatchers,
    entry: TraversalEntry,
    metadata: Option<EntryMetadata>,
    now: Option<u64>,
)
    requires
        matchers.compiled_from(config),
        config.depth_range_is_empty(),
    ensures
        !matchers.accepts(entry, metadata, now),
{
}

} // verus!
