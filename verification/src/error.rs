//! The failures that end a search before any entry is visited.

use vstd::prelude::*;

verus! {

/// A configuration that cannot be compiled. Each variant carries the cause
/// as the compiler of that part reported it.
#[derive(Debug)]
pub enum SearchError {
    /// The glob could not be translated into a regular expression.
    Glob(String),
    /// The name pattern is not a regular expression that can be compiled.
    Pattern(String),
    /// The extension filter could not be compiled.
    Extension(String),
    /// An exclude pattern is not a valid override rule.
    Exclude(String),
}

impl SearchError {
    /// The cause, in words.
    pub open spec fn cause(self) -> Seq<char> {
        match self {
            SearchError::Glob(text) => text@,
            SearchError::Pattern(text) => text@,
            SearchError::Extension(text) => text@,
            SearchError::Exclude(text) => text@,
        }
    }

    /// The cause, in words.
    pub fn message(&self) -> (text: &String)
        ensures
            text@ == self.cause(),
    {
        match self {
            SearchError::Glob(text) => text,
            SearchError::Pattern(text) => text,
            SearchError::Extension(text) => text,
            SearchError::Exclude(text) => text,
        }
    }
}

} // verus!
