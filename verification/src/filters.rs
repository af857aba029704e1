//! The filter compiler: turns a configuration into the matchers and bounds
//! that every entry of the walk is held against.

use crate::config::SearchConfig;
use crate::entry::EntryKind;
use crate::error::SearchError;
use crate::glob::{glob_to_regex, glob_translation};
use crate::matcher::{compiled_language, Matcher};
use vstd::prelude::*;

verus! {

/// The characters that have a meaning in a regular expression.
pub open spec fn is_meta_character(c: char) -> bool {
    c == '\\' || c == '.' || c == '+' || c == '*' || c == '?' || c == '(' || c == ')' || c == '|'
        || c == '[' || c == ']' || c == '{' || c == '}' || c == '^' || c == '$' || c == '#' || c
        == '&' || c == '-' || c == '~'
}

/// `text` with a backslash in front of each meta character.
pub open spec fn escaped(text: Seq<char>) -> Seq<char>
    decreases text.len(),
{
    if text.len() == 0 {
        Seq::empty()
    } else if is_meta_character(text.last()) {
        escaped(text.drop_last()).push('\\').push(text.last())
    } else {
        escaped(text.drop_last()).push(text.last())
    }
}

/// Calls `regex::escape`. Trusted: it puts a backslash in front of each meta
/// character and changes nothing else.
#[verifier::external_body]
fn escape(text: &str) -> (quoted: String)
    ensures
        quoted@ == escaped(text@),
{
    regex::escape(text)
}

/// The regular expression that stands for an extension filter: a literal dot,
/// the extension taken literally, and the end of the text.
pub open spec fn extension_regex(extension: Seq<char>) -> Seq<char> {
    "\\."@ + escaped(extension) + "$"@
}

/// The regular expression that stands for the name pattern: the pattern as
/// it is, or its translation where it is a glob. `None` where the glob is
/// malformed.
pub open spec fn pattern_regex(pattern: Seq<char>, glob: bool) -> Option<Seq<char>> {
    if glob {
        glob_translation(pattern)
    } else {
        Some(pattern)
    }
}

/// What `build_pattern_regex` owes for a configuration.
pub open spec fn pattern_outcome(
    config: SearchConfig,
    r: Result<Option<Matcher>, SearchError>,
) -> bool {
    match config.pattern {
        None => r matches Ok(None),
        Some(pattern) => match pattern_regex(pattern@, config.glob) {
            None => r matches Err(e) && e is Glob,
            Some(text) => match compiled_language(text, !config.case_sensitive) {
                None => r matches Err(e) && e is Pattern,
                Some(language) => r matches Ok(Some(m)) && m@ == language,
            },
        },
    }
}

/// What `build_extension_regex` owes for a configuration.
pub open spec fn extension_outcome(
    config: SearchConfig,
    r: Result<Option<Matcher>, SearchError>,
) -> bool {
    match config.extension {
        None => r matches Ok(None),
        Some(extension) => match compiled_language(extension_regex(extension@), true) {
            None => r matches Err(e) && e is Extension,
            Some(language) => r matches Ok(Some(m)) && m@ == language,
        },
    }
}

/// Compiles the name pattern. No pattern is no constraint. A glob is
/// translated first; case is regarded only where the configuration asks for
/// it.
pub fn build_pattern_regex(config: &SearchConfig) -> (r: Result<Option<Matcher>, SearchError>)
    ensures
        pattern_outcome(*config, r),
{
    match &config.pattern {
        None => Ok(None),
        Some(pattern) => {
            let compiled = if config.glob {
                match glob_to_regex(pattern.as_str()) {
                    Ok(text) => Matcher::compile(text.as_str(), !config.case_sensitive),
                    Err(error) => {
                        return Err(error);
                    },
                }
            } else {
                Matcher::compile(pattern.as_str(), !config.case_sensitive)
            };
            match compiled {
                Ok(matcher) => Ok(Some(matcher)),
                Err(cause) => Err(SearchError::Pattern(cause)),
            }
        },
    }
}

/// Compiles the extension filter. No extension is no constraint. Case is
/// never regarded, whatever the configuration says of the pattern.
pub fn build_extension_regex(config: &SearchConfig) -> (r: Result<Option<Matcher>, SearchError>)
    ensures
        extension_outcome(*config, r),
{
    match &config.extension {
        None => Ok(None),
        Some(extension) => {
            let mut text = String::from_str("\\.");
            text.append(escape(extension.as_str()).as_str());
            text.append("$");
            match Matcher::compile(text.as_str(), true) {
                Ok(matcher) => Ok(Some(matcher)),
                Err(cause) => Err(SearchError::Extension(cause)),
            }
        },
    }
}

fn spells(word: &String, text: &str) -> (same: bool)
    ensures
        same == (word@ == text@),
{
    *word == String::from_str(text)
}

/// The restriction that a file-type token stands for.
#[derive(Clone, Copy, Debug, PartialEq, Eq, Structural)]
pub enum TypeFilter {
    /// No restriction.
    Any,
    File,
    Directory,
    Symlink,
}

impl TypeFilter {
    /// `f` and `file` ask for regular files, `d` and `directory` for
    /// directories, `l` and `symlink` for symbolic links. Any other token,
    /// like no token, restricts nothing.
    pub open spec fn of(token: Option<String>) -> TypeFilter {
        match token {
            None => TypeFilter::Any,
            Some(word) => if word@ == "f"@ || word@ == "file"@ {
                TypeFilter::File
            } else if word@ == "d"@ || word@ == "directory"@ {
                TypeFilter::Directory
            } else if word@ == "l"@ || word@ == "symlink"@ {
                TypeFilter::Symlink
            } else {
                TypeFilter::Any
            },
        }
    }

    /// Whether an entry of the given kind passes the restriction.
    pub open spec fn admits(self, kind: EntryKind) -> bool {
        match self {
            TypeFilter::Any => true,
            TypeFilter::File => kind == EntryKind::File,
            TypeFilter::Directory => kind == EntryKind::Directory,
            TypeFilter::Symlink => kind == EntryKind::Symlink,
        }
    }

    /// Reads the restriction off a token.
    pub fn parse(token: &Option<String>) -> (filter: TypeFilter)
        ensures
            filter == TypeFilter::of(*token),
    {
        match token {
            None => TypeFilter::Any,
            Some(word) => {
                if spells(word, "f") || spells(word, "file") {
                    TypeFilter::File
                } else if spells(word, "d") || spells(word, "directory") {
                    TypeFilter::Directory
                } else if spells(word, "l") || spells(word, "symlink") {
                    TypeFilter::Symlink
                } else {
                    TypeFilter::Any
                }
            },
        }
    }

    /// Whether an entry of the given kind passes the restriction.
    pub fn matches(&self, kind: EntryKind) -> (pass: bool)
        ensures
            pass == self.admits(kind),
    {
        match self {
            TypeFilter::Any => true,
            TypeFilter::File => kind == EntryKind::File,
            TypeFilter::Directory => kind == EntryKind::Directory,
            TypeFilter::Symlink => kind == EntryKind::Symlink,
        }
    }
}

/// Everything a worker needs to judge an entry: the depth bounds, the
/// compiled name matchers, the file-type restriction and the size and time
/// bounds. Compiled once for a search and only read afterwards.
pub struct CompiledMatchers {
    /// The name pattern; `None` is no constraint.
    pub pattern: Option<Matcher>,
    /// The extension filter; `None` is no constraint.
    pub extension: Option<Matcher>,
    /// Whether the matchers are tried on the whole path or on the file name.
    pub full_path: bool,
    pub file_type: TypeFilter,
    pub min_depth: Option<usize>,
    pub max_depth: Option<usize>,
    pub min_size: Option<u64>,
    pub max_size: Option<u64>,
    pub changed_within: Option<i64>,
    pub changed_before: Option<i64>,
}

impl CompiledMatchers {
    /// The matchers that a configuration compiles to.
    pub open spec fn compiled_from(self, config: SearchConfig) -> bool {
        &&& pattern_outcome(config, Ok(self.pattern))
        &&& extension_outcome(config, Ok(self.extension))
        &&& self.full_path == config.full_path
        &&& self.file_type == TypeFilter::of(config.file_type)
        &&& self.min_depth == config.min_depth
        &&& self.max_depth == config.max_depth
        &&& self.min_size == config.min_size
        &&& self.max_size == config.max_size
        &&& self.changed_within == config.changed_within
        &&& self.changed_before == config.changed_before
    }
}

/// Whether the name pattern of `config` compiles; no pattern does.
pub open spec fn pattern_compiles(config: SearchConfig) -> bool {
    match config.pattern {
        None => true,
        Some(pattern) => match pattern_regex(pattern@, config.glob) {
            None => false,
            Some(text) => compiled_language(text, !config.case_sensitive) is Some,
        },
    }
}

/// Whether the extension filter of `config` compiles; no extension does.
pub open spec fn extension_compiles(config: SearchConfig) -> bool {
    match config.extension {
        None => true,
        Some(extension) => compiled_language(extension_regex(extension@), true) is Some,
    }
}

/// The failure that compiling the matchers of `config` ends in: that of the
/// name pattern, or else that of the extension filter.
pub open spec fn compile_failure(config: SearchConfig, e: SearchError) -> bool {
    if !pattern_compiles(config) {
        pattern_outcome(config, Err(e))
    } else {
        !extension_compiles(config) && e is Extension
    }
}

/// Compiles the matchers of a search. Succeeds exactly where both the name
/// pattern and the extension filter compile; otherwise the error is that of
/// the first of the two that fails.
pub fn compile_matchers(config: &SearchConfig) -> (r: Result<CompiledMatchers, SearchError>)
    ensures
        match r {
            Ok(matchers) => {
                &&& pattern_compiles(*config)
                &&& extension_compiles(*config)
                &&& matchers.compiled_from(*config)
            },
            Err(e) => compile_failure(*config, e),
        },
{
    let pattern = match build_pattern_regex(config) {
        Ok(pattern) => pattern,
        Err(error) => {
            return Err(error);
        },
    };
    let extension = match build_extension_regex(config) {
        Ok(extension) => extension,
        Err(error) => {
            return Err(error);
        },
    };
    Ok(
        CompiledMatchers {
            pattern,
            extension,
            full_path: config.full_path,
            file_type: TypeFilter::parse(&config.file_type),
            min_depth: config.min_depth,
            max_depth: config.max_depth,
            min_size: config.min_size,
            max_size: config.max_size,
            changed_within: config.changed_within,
            changed_before: config.changed_before,
        },
    )
}

/// The extension filter never regards case: two configurations with the
/// same extension compile to the same matcher, or fail alike, whatever they
/// say of case sensitivity or anything else.
pub proof fn lemma_extension_matching_never_regards_case(
    a: SearchConfig,
    b: SearchConfig,
    compiled_a: Result<Option<Matcher>, SearchError>,
    compiled_b: Result<Option<Matcher>, SearchError>,
)
    requires
        a.extension == b.extension,
        extension_outcome(a, compiled_a),
        extension_outcome(b, compiled_b),
    ensures
        match (compiled_a, compiled_b) {
            (Ok(Some(m)), Ok(Some(n))) => m@ == n@ && compiled_language(
                extension_regex(a.extension->0@),
                true,
            ) == Some(m@),
            (Ok(None), Ok(None)) => a.extension is None,
            (Err(e), Err(f)) => e is Extension && f is Extension,
            _ => false,
        },
{
}

/// The name pattern regards case exactly where the configuration asks for
/// it: its matcher is the one that the pattern's regular expression compiles
/// to without regard to case if `case_sensitive` is off, with regard to case
/// if it is on.
pub proof fn lemma_pattern_matching_follows_the_case_flag(
    config: SearchConfig,
    text: Seq<char>,
    matcher: Matcher,
)
    requires
        config.pattern is Some,
        pattern_regex(config.pattern->0@, config.glob) == Some(text),
        pattern_outcome(config, Ok(Some(matcher))),
    ensures
        config.case_sensitive ==> compiled_language(text, false) == Some(matcher@),
        !config.case_sensitive ==> compiled_language(text, true) == Some(matcher@),
{
}

} // verus!
