//! A file-tree search engine in the style of `fd`.
//!
//! A [`SearchConfig`] names what to look for. [`plan_search`] compiles it,
//! before anything of the filesystem is touched, into the matchers that each
//! entry is held against and the policy that the walk runs under. During the
//! walk every worker owns a [`Worker`], which judges the entries it is handed
//! and gathers the accepted paths in batches that it sends across an
//! unbounded channel.
//! [`assemble`] lays the batches that arrived end to end.
//!
//! The walk itself, the reading of metadata and of the clock are the
//! caller's: the library takes what was read as plain values.

pub mod assemble;
pub mod batch;
pub mod config;
pub mod entry;
pub mod error;
pub mod filters;
pub mod glob;
pub mod matcher;
pub mod metadata;
pub mod params;
pub mod plan;
pub mod policy;
pub mod predicate;
pub mod worker;

pub use assemble::assemble;
pub use batch::{result_channel, share_sender, ResultBatch, BATCH_SIZE};
pub use config::SearchConfig;
pub use entry::{EntryKind, EntryMetadata, TraversalEntry};
pub use error::SearchError;
pub use filters::{
    build_extension_regex,
    build_pattern_regex,
    compile_matchers,
    CompiledMatchers,
    TypeFilter,
};
pub use glob::{count_opening_braces, glob_to_regex, MAX_GLOB_GROUPS};
pub use matcher::Matcher;
pub use metadata::matches_metadata_filters;
pub use params::{
    build_search_config,
    check_depths,
    ArgumentError,
    NumericParam,
    SearchParams,
};
pub use plan::{plan_search, SearchPlan};
pub use policy::{compile_excludes, configure_walker, search_roots, TraversalPolicy};
pub use predicate::Verdict;
pub use worker::Worker;
