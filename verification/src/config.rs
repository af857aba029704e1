//! The search configuration: what to look for, where, and under which filters.

use std::path::PathBuf;
use vstd::prelude::*;

verus! {

/// `std::path::PathBuf`, carried through as an opaque value.
#[verifier::external_type_specification]
#[verifier::external_body]
pub struct ExPathBuf(PathBuf);

/// The path that `PathBuf::from` makes of a text.
pub uninterp spec fn path_of(text: Seq<char>) -> PathBuf;

/// Calls `PathBuf::from` on a text. Trusted: the path is the one that
/// `path_of` names for the text.
#[verifier::external_body]
pub(crate) fn path_from(text: &str) -> (path: PathBuf)
    ensures
        path == path_of(text@),
{
    PathBuf::from(text)
}

/// `PathBuf::clone` gives a path equal to the one it was called on.
pub assume_specification[ <PathBuf as Clone>::clone ](path: &PathBuf) -> (copy: PathBuf)
    ensures
        copy == *path,
;

/// One search request. Built once by the caller and only read afterwards.
#[derive(Debug)]
pub struct SearchConfig {
    pub pattern: Option<String>,
    pub paths: Vec<PathBuf>,
    pub hidden: bool,
    pub no_ignore: bool,
    pub case_sensitive: bool,
    pub glob: bool,
    pub full_path: bool,
    pub max_depth: Option<usize>,
    pub min_depth: Option<usize>,
    pub file_type: Option<String>,
    pub extension: Option<String>,
    pub exclude: Vec<String>,
    pub follow: bool,
    pub min_size: Option<u64>,
    pub max_size: Option<u64>,
    pub changed_within: Option<i64>,
    pub changed_before: Option<i64>,
}

impl SearchConfig {
    /// The configuration in which nothing is set: no pattern, no roots, every
    /// flag off, no depth, type, extension, size or time restriction, nothing
    /// excluded.
    pub open spec fn is_unset(self) -> bool {
        &&& self.pattern is None
        &&& self.paths@.len() == 0
        &&& !self.hidden
        &&& !self.no_ignore
        &&& !self.case_sensitive
        &&& !self.glob
        &&& !self.full_path
        &&& self.max_depth is None
        &&& self.min_depth is None
        &&& self.file_type is None
        &&& self.extension is None
        &&& self.exclude@.len() == 0
        &&& !self.follow
        &&& self.min_size is None
        &&& self.max_size is None
        &&& self.changed_within is None
        &&& self.changed_before is None
    }

    /// Whether `depth` lies within the depth bounds, both included. A bound
    /// that is not set bounds nothing.
    pub open spec fn depth_in_range(self, depth: nat) -> bool {
        &&& (self.min_depth matches Some(min) ==> min <= depth)
        &&& (self.max_depth matches Some(max) ==> depth <= max)
    }

    /// Whether both depth bounds are set and the minimum exceeds the
    /// maximum.
    pub open spec fn depth_range_is_empty(self) -> bool {
        self.min_depth matches Some(min) && self.max_depth matches Some(max) && min > max
    }

    /// Whether the depth bounds leave no depth to search: a caller can then
    /// answer with the empty result without starting a walk.
    pub fn has_empty_depth_range(&self) -> (empty: bool)
        ensures
            empty == self.depth_range_is_empty(),
    {
        match (self.min_depth, self.max_depth) {
            (Some(min), Some(max)) => min > max,
            _ => false,
        }
    }
}

/// No depth at all lies within the depth bounds exactly where both are set
/// and the minimum exceeds the maximum: only then is the empty result owed
/// without a walk.
pub proof fn lemma_depth_range_is_empty_iff_no_depth_fits(config: SearchConfig)
    ensures
        config.depth_range_is_empty() <==> forall|depth: nat| !config.depth_in_range(depth),
{
    if !config.depth_range_is_empty() {
        let fits: nat = match config.min_depth {
            Some(min) => min as nat,
            None => 0,
        };
        assert(config.depth_in_range(fits));
    }
}

impl Default for SearchConfig {
    fn default() -> (config: SearchConfig)
        ensures
            config.is_unset(),
    {
        SearchConfig {
            pattern: None,
            paths: Vec::new(),
            hidden: false,
            no_ignore: false,
            case_sensitive: false,
            glob: false,
            full_path: false,
            max_depth: None,
            min_depth: None,
            file_type: None,
            extension: None,
            exclude: Vec::new(),
            follow: false,
            min_size: None,
            max_size: None,
            changed_within: None,
            changed_before: None,
        }
    }
}

} // verus!
