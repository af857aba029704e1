//! Translation of glob syntax into regular-expression text.

use crate::error::SearchError;
use globset::GlobBuilder;
use vstd::prelude::*;
use vstd::utf8::encode_utf8;

verus! {

/// `globset::Error`, carried through as an opaque value.
#[verifier::external_type_specification]
#[verifier::external_body]
pub struct ExGlobError(globset::Error);

/// The regular expression that `globset` gives for `glob`: what
/// `Glob::regex` reports of the glob that `GlobBuilder::build` makes, `None`
/// where the builder refuses the glob.
pub uninterp spec fn glob_regex(glob: Seq<char>, literal_separator: bool) -> Option<Seq<char>>;

/// The most opening braces that a glob may hold. Each alternate group opens
/// with one, and the glob compiler descends once for each group that lies
/// within another: the bound keeps that descent shallow.
pub const MAX_GLOB_GROUPS: usize = 1024;

/// The number of opening braces among the bytes of a text.
pub open spec fn opening_braces(bytes: Seq<u8>) -> nat
    decreases bytes.len(),
{
    if bytes.len() == 0 {
        0
    } else if bytes.last() == 0x7b {
        opening_braces(bytes.drop_last()) + 1
    } else {
        opening_braces(bytes.drop_last())
    }
}

/// Whether a text holds no more opening braces than a glob may hold.
pub open spec fn within_group_bound(text: Seq<char>) -> bool {
    opening_braces(encode_utf8(text)) <= MAX_GLOB_GROUPS
}

/// Counts the opening braces of a text.
pub fn count_opening_braces(text: &str) -> (count: usize)
    ensures
        count == opening_braces(encode_utf8(text@)),
{
    let bytes = text.as_bytes();
    let mut count: usize = 0;
    let mut i: usize = 0;
    while i < bytes.len()
        invariant
            i <= bytes@.len(),
            count <= i,
            count == opening_braces(bytes@.take(i as int)),
        decreases bytes@.len() - i,
    {
        proof {
            assert(bytes@.take(i + 1).drop_last() =~= bytes@.take(i as int));
            assert(bytes@.take(i + 1).last() == bytes@[i as int]);
        }
        if bytes[i] == 0x7b {
            count += 1;
        }
        i += 1;
    }
    assert(bytes@.take(i as int) =~= bytes@);
    count
}

/// Calls `globset::GlobBuilder::new(glob).literal_separator(..).build()` and
/// takes `Glob::regex` of what is built. Trusted: the outcome is the one
/// that `glob_regex` names for these arguments. A glob with more opening
/// braces than the bound is left out: the builder descends once for each
/// nested group.
#[verifier::external_body]
fn translate_glob(glob: &str, literal_separator: bool) -> (r: Result<String, globset::Error>)
    requires
        within_group_bound(glob@),
    ensures
        match r {
            Ok(text) => glob_regex(glob@, literal_separator) == Some(text@),
            Err(_) => glob_regex(glob@, literal_separator) is None,
        },
{
    let built = GlobBuilder::new(glob).literal_separator(literal_separator).build()?;
    Ok(built.regex().to_string())
}

/// Formats a `globset::Error` through its `Display` impl. Nothing is claimed
/// of the text.
#[verifier::external_body]
fn glob_error_text(error: &globset::Error) -> String {
    format!("{error}")
}

/// The regular expression for `glob` under literal path separators, where a
/// wildcard never matches `/`; `None` where the glob holds more opening
/// braces than the bound or is malformed.
pub open spec fn glob_translation(glob: Seq<char>) -> Option<Seq<char>> {
    if within_group_bound(glob) {
        glob_regex(glob, true)
    } else {
        None
    }
}

/// Translates a glob into the text of an equivalent regular expression, in
/// which `*` and `?` do not cross a directory boundary. Fails exactly on the
/// globs that hold more opening braces than the bound or are malformed.
pub fn glob_to_regex(glob: &str) -> (r: Result<String, SearchError>)
    ensures
        match r {
            Ok(text) => glob_translation(glob@) == Some(text@),
            Err(e) => glob_translation(glob@) is None && e is Glob,
        },
{
    if count_opening_braces(glob) > MAX_GLOB_GROUPS {
        return Err(SearchError::Glob(String::from_str("too many alternate groups")));
    }
    match translate_glob(glob, true) {
        Ok(text) => Ok(text),
        Err(error) => Err(SearchError::Glob(glob_error_text(&error))),
    }
}

} // verus!
