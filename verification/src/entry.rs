//! What the predicate pipeline reads of one visited filesystem node.

use vstd::prelude::*;

verus! {

/// The type of a visited node, as far as the walk could tell.
#[derive(Clone, Copy, Debug, PartialEq, Eq, Structural)]
pub enum EntryKind {
    File,
    Directory,
    Symlink,
    Unknown,
}

/// Size and modification time of a node.
#[derive(Clone, Copy, Debug, PartialEq, Eq, Structural)]
pub struct EntryMetadata {
    /// Length in bytes.
    pub len: u64,
    /// Whole seconds from the epoch to the last modification; `None` where
    /// the time cannot be read or lies before the epoch.
    pub modified: Option<u64>,
}

/// One node visited during the walk. It borrows its texts, so that nothing
/// is copied for an entry that is not a result.
#[derive(Clone, Copy, Debug)]
pub struct TraversalEntry<'a> {
    /// The path as text. Where the platform path is not valid Unicode, the
    /// offending parts are replaced and `path_is_unicode` is false.
    pub path: &'a str,
    /// The final component of the path as text, empty where there is none.
    pub file_name: &'a str,
    /// Whether `path` renders the platform path exactly.
    pub path_is_unicode: bool,
    /// Number of path segments between the nearest root and this node.
    pub depth: usize,
    pub kind: EntryKind,
}

impl<'a> TraversalEntry<'a> {
    /// A root of the walk that is a directory: the synthetic entry that is
    /// never a result.
    pub open spec fn is_search_root(self) -> bool {
        self.depth == 0 && self.kind == EntryKind::Directory
    }

    /// The text that the name matchers are tried on: the whole path or the
    /// final component only.
    pub open spec fn match_target(self, full_path: bool) -> Seq<char> {
        if full_path {
            self.path@
        } else {
            self.file_name@
        }
    }

    /// The string under which the entry is reported, if it can be reported:
    /// a path that is not valid Unicode has none.
    pub open spec fn reported_path(self) -> Option<Seq<char>> {
        if self.path_is_unicode {
            Some(self.path@)
        } else {
            None
        }
    }

    /// Whether the entry is a root of the walk and a directory.
    pub fn root_directory(&self) -> (b: bool)
        ensures
            b == self.is_search_root(),
    {
        self.depth == 0 && self.kind == EntryKind::Directory
    }

    /// The text that the name matchers are tried on.
    pub fn target(&self, full_path: bool) -> (text: &'a str)
        ensures
            text@ == self.match_target(full_path),
    {
        if full_path {
            self.path
        } else {
            self.file_name
        }
    }

    /// The string under which the entry is reported, if it can be reported.
    pub fn result_path(&self) -> (path: Option<String>)
        ensures
            match path {
                Some(text) => self.reported_path() == Some(text@),
                None => self.reported_path() is None,
            },
    {
        if self.path_is_unicode {
            Some(self.path.to_owned())
        } else {
            None
        }
    }
}

} // verus!
