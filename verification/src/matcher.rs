//! Compiled byte matchers: a regular expression together with the set of
//! haystacks it accepts.

use regex::bytes::{Regex, RegexBuilder};
use vstd::prelude::*;

verus! {

/// `regex::bytes::Regex`, carried through as an opaque value.
#[verifier::external_type_specification]
#[verifier::external_body]
pub struct ExRegex(Regex);

/// `regex::Error`, carried through as an opaque value.
#[verifier::external_type_specification]
#[verifier::external_body]
pub struct ExRegexError(regex::Error);

/// The haystacks in which `Regex::is_match` finds a match of `re`.
pub uninterp spec fn regex_language(re: Regex) -> Set<Seq<u8>>;

/// What `RegexBuilder::build` makes of `pattern`: `None` where it refuses the
/// pattern, otherwise the haystacks that the compiled expression matches.
pub uninterp spec fn compiled_language(pattern: Seq<char>, case_insensitive: bool) -> Option<
    Set<Seq<u8>>,
>;

/// Calls `regex::bytes::RegexBuilder::new(pattern).case_insensitive(..).build()`.
/// Trusted: the outcome is the one that `compiled_language` names for these
/// arguments, and the expression that comes back matches exactly that language.
#[verifier::external_body]
fn compile_regex(pattern: &str, case_insensitive: bool) -> (r: Result<Regex, regex::Error>)
    ensures
        match r {
            Ok(re) => compiled_language(pattern@, case_insensitive) == Some(regex_language(re)),
            Err(_) => compiled_language(pattern@, case_insensitive) is None,
        },
{
    RegexBuilder::new(pattern).case_insensitive(case_insensitive).build()
}

/// Calls `regex::bytes::Regex::is_match`. Trusted: it answers whether the
/// haystack belongs to the expression's language.
#[verifier::external_body]
fn regex_is_match(re: &Regex, haystack: &[u8]) -> (found: bool)
    ensures
        found == regex_language(*re).contains(haystack@),
{
    re.is_match(haystack)
}

/// Formats a `regex::Error` through its `Display` impl. Nothing is claimed of
/// the text.
#[verifier::external_body]
fn regex_error_text(error: &regex::Error) -> String {
    format!("{error}")
}

/// A compiled matcher. Its view is the set of byte strings it accepts.
pub struct Matcher {
    regex: Regex,
}

impl View for Matcher {
    type V = Set<Seq<u8>>;

    closed spec fn view(&self) -> Set<Seq<u8>> {
        regex_language(self.regex)
    }
}

impl Matcher {
    /// Compiles `pattern`, with or without regard to case. Fails exactly on
    /// the patterns that the regular-expression compiler refuses, with the
    /// compiler's complaint as the error.
    pub fn compile(pattern: &str, case_insensitive: bool) -> (r: Result<Matcher, String>)
        ensures
            match r {
                Ok(m) => compiled_language(pattern@, case_insensitive) == Some(m@),
                Err(_) => compiled_language(pattern@, case_insensitive) is None,
            },
    {
        match compile_regex(pattern, case_insensitive) {
            Ok(regex) => Ok(Matcher { regex }),
            Err(error) => Err(regex_error_text(&error)),
        }
    }

    /// Whether the matcher finds a match anywhere in `haystack`.
    pub fn is_match(&self, haystack: &[u8]) -> (found: bool)
        ensures
            found == self@.contains(haystack@),
    {
        regex_is_match(&self.regex, haystack)
    }
}

} // verus!
