//! The traversal configurator: turns a configuration into the policy that
//! the walk runs under.

use crate::config::{path_from, path_of, SearchConfig};
use crate::error::SearchError;
use crate::glob::{count_opening_braces, within_group_bound, MAX_GLOB_GROUPS};
use ignore::overrides::{Override, OverrideBuilder};
use std::path::PathBuf;
use vstd::prelude::*;

verus! {

/// `ignore::overrides::OverrideBuilder`, carried through as an opaque value.
#[verifier::external_type_specification]
#[verifier::external_body]
pub struct ExOverrideBuilder(OverrideBuilder);

/// `ignore::overrides::Override`, carried through as an opaque value.
#[verifier::external_type_specification]
#[verifier::external_body]
pub struct ExOverride(Override);

/// `ignore::Error`, carried through as an opaque value.
#[verifier::external_type_specification]
#[verifier::external_body]
pub struct ExIgnoreError(ignore::Error);

/// The directory that an override builder matches relative to, as it holds
/// it.
pub uninterp spec fn builder_root(builder: OverrideBuilder) -> Seq<char>;

/// What `OverrideBuilder::new` keeps of the directory that it is given: the
/// builder drops a leading reference to the current directory, in the way
/// of the platform.
pub uninterp spec fn root_kept(root: Seq<char>) -> Seq<char>;

/// The rules that an override builder holds, in the order in which it took
/// them, each as it keeps it.
pub uninterp spec fn builder_lines(builder: OverrideBuilder) -> Seq<Seq<char>>;

/// What `OverrideBuilder::add` keeps of a line that it takes: `None` for a
/// line that holds no rule (a comment, or nothing but white space), else the
/// text of the rule as the builder stores it, which is the line without the
/// white space at its end unless that is escaped.
pub uninterp spec fn rule_kept(line: Seq<char>) -> Option<Seq<char>>;

/// Whether an override builder still has the options that it was made with:
/// case is regarded, and an unclosed character class is an error.
pub uninterp spec fn builder_is_plain(builder: OverrideBuilder) -> bool;

/// The directory that an override matcher matches relative to.
pub uninterp spec fn override_root(overrides: Override) -> Seq<char>;

/// The rules that an override matcher was built from, in order, each as the
/// builder kept it.
pub uninterp spec fn override_lines(overrides: Override) -> Seq<Seq<char>>;

/// Whether `OverrideBuilder::add`, on a builder with its first options,
/// takes `line` as an override rule.
pub uninterp spec fn is_override_rule(line: Seq<char>) -> bool;

/// Whether `OverrideBuilder::build`, on a builder with its first options,
/// can build a matcher from `lines`.
pub uninterp spec fn overrides_build(lines: Seq<Seq<char>>) -> bool;

/// Calls `ignore::overrides::OverrideBuilder::new`. Trusted: the builder
/// holds what it keeps of `root` as its directory, holds no rule, and has
/// its first options.
#[verifier::external_body]
fn new_override_builder(root: &str) -> (builder: OverrideBuilder)
    ensures
        builder_root(builder) == root_kept(root@),
        builder_lines(builder) == Seq::<Seq<char>>::empty(),
        builder_is_plain(builder),
{
    OverrideBuilder::new(root)
}

/// Calls `ignore::overrides::OverrideBuilder::add`. Trusted: the line is
/// taken exactly if it is an override rule; what the builder keeps of a line
/// that it takes joins its rules at the end, and a line that holds no rule
/// or is refused changes nothing. A line that begins with `!` always holds a
/// rule: it is no comment, and it is not blank. A line with more opening
/// braces than the bound is left out: the glob compiler behind the builder
/// descends once for each nested group.
#[verifier::external_body]
fn add_override(builder: &mut OverrideBuilder, line: &str) -> (r: Result<(), ignore::Error>)
    requires
        builder_is_plain(*old(builder)),
        within_group_bound(line@),
    ensures
        r is Ok <==> is_override_rule(line@),
        r is Ok ==> builder_lines(*final(builder)) == (match rule_kept(line@) {
            Some(kept) => builder_lines(*old(builder)).push(kept),
            None => builder_lines(*old(builder)),
        }),
        r is Ok && line@.len() > 0 && line@[0] == '!' ==> rule_kept(line@) is Some,
        r is Err ==> builder_lines(*final(builder)) == builder_lines(*old(builder)),
        builder_root(*final(builder)) == builder_root(*old(builder)),
        builder_is_plain(*final(builder)),
{
    builder.add(line).map(|_| ())
}

/// Calls `ignore::overrides::OverrideBuilder::build`. Trusted: a matcher is
/// built exactly if the builder's lines build, and it is the matcher of
/// those lines relative to the builder's directory.
#[verifier::external_body]
fn build_override(builder: &OverrideBuilder) -> (r: Result<Override, ignore::Error>)
    requires
        builder_is_plain(*builder),
    ensures
        match r {
            Ok(overrides) => {
                &&& overrides_build(builder_lines(*builder))
                &&& override_root(overrides) == builder_root(*builder)
                &&& override_lines(overrides) == builder_lines(*builder)
            },
            Err(_) => !overrides_build(builder_lines(*builder)),
        },
{
    builder.build()
}

/// Formats an `ignore::Error` through its `Display` impl. Nothing is claimed
/// of the text.
#[verifier::external_body]
fn ignore_error_text(error: &ignore::Error) -> String {
    format!("{error}")
}

/// The override rule that excludes what `pattern` matches.
pub open spec fn exclude_rule(pattern: Seq<char>) -> Seq<char> {
    "!"@ + pattern
}

/// The override rules of the exclude patterns, in order.
pub open spec fn exclude_rules(patterns: Seq<String>) -> Seq<Seq<char>> {
    patterns.map_values(|pattern: String| exclude_rule(pattern@))
}

/// What an override builder keeps of `lines`, taken one after the other:
/// the rules they hold, in order.
pub open spec fn kept_rules(lines: Seq<Seq<char>>) -> Seq<Seq<char>>
    decreases lines.len(),
{
    if lines.len() == 0 {
        Seq::empty()
    } else {
        match rule_kept(lines.last()) {
            Some(kept) => kept_rules(lines.drop_last()).push(kept),
            None => kept_rules(lines.drop_last()),
        }
    }
}

/// Whether a line can stand as an exclude rule: it holds no more opening
/// braces than a glob may hold, and the override builder takes it.
pub open spec fn is_exclude_rule(line: Seq<char>) -> bool {
    within_group_bound(line) && is_override_rule(line)
}

/// Whether the exclude patterns compile: each gives an exclude rule, and
/// what is kept of the rules builds a matcher.
pub open spec fn excludes_compile(patterns: Seq<String>) -> bool {
    &&& forall|i: int|
        0 <= i < patterns.len() ==> is_exclude_rule(#[trigger] exclude_rules(patterns)[i])
    &&& overrides_build(kept_rules(exclude_rules(patterns)))
}

/// The roots that a search starts from: the configured paths, or the current
/// directory where none is configured.
pub open spec fn effective_roots(paths: Seq<PathBuf>) -> Seq<PathBuf> {
    if paths.len() == 0 {
        seq![path_of("."@)]
    } else {
        paths
    }
}

/// What the walk is told: where to start and what to pass over.
pub struct TraversalPolicy {
    /// The roots, never empty. The first starts the walk, the others join it.
    pub roots: Vec<PathBuf>,
    /// Whether dot-prefixed entries are passed over.
    pub skip_hidden: bool,
    /// Whether the rules of generic ignore files are honored.
    pub ignore_files: bool,
    /// Whether the rules of version-control ignore files are honored.
    pub git_ignore: bool,
    pub follow_links: bool,
    pub max_depth: Option<usize>,
    pub min_depth: Option<usize>,
    /// The compiled exclude rules; `None` where nothing is excluded.
    pub overrides: Option<Override>,
}

impl TraversalPolicy {
    /// The policy that a configuration asks for.
    pub open spec fn configured_by(self, config: SearchConfig) -> bool {
        &&& self.roots@ == effective_roots(config.paths@)
        &&& self.skip_hidden == !config.hidden
        &&& self.ignore_files == !config.no_ignore
        &&& self.git_ignore == !config.no_ignore
        &&& self.follow_links == config.follow
        &&& self.max_depth == config.max_depth
        &&& self.min_depth == config.min_depth
        &&& match self.overrides {
            None => config.exclude@.len() == 0,
            Some(overrides) => {
                &&& config.exclude@.len() > 0
                &&& override_root(overrides) == root_kept("."@)
                &&& override_lines(overrides) == kept_rules(exclude_rules(config.exclude@))
                &&& override_lines(overrides).len() == config.exclude@.len()
            },
        }
    }
}

/// The roots of a search.
pub fn search_roots(config: &SearchConfig) -> (roots: Vec<PathBuf>)
    ensures
        roots@ == effective_roots(config.paths@),
        roots@.len() > 0,
{
    let mut roots: Vec<PathBuf> = Vec::new();
    if config.paths.is_empty() {
        roots.push(path_from("."));
        return roots;
    }
    let mut i: usize = 0;
    while i < config.paths.len()
        invariant
            i <= config.paths@.len(),
            roots@ == config.paths@.take(i as int),
        decreases config.paths@.len() - i,
    {
        roots.push(config.paths[i].clone());
        assert(config.paths@.take(i + 1) =~= config.paths@.take(i as int).push(
            config.paths@[i as int],
        ));
        i += 1;
    }
    assert(config.paths@.take(i as int) =~= config.paths@);
    roots
}

/// Compiles the exclude patterns into one override matcher, relative to the
/// current directory: each pattern with `!` in front is handed to the
/// builder as a line, and each pattern gives one rule of the matcher. Fails
/// exactly where a line is no exclude rule or what is kept of the lines does
/// not build.
pub fn compile_excludes(patterns: &Vec<String>) -> (r: Result<Override, SearchError>)
    ensures
        match r {
            Ok(overrides) => {
                &&& excludes_compile(patterns@)
                &&& override_root(overrides) == root_kept("."@)
                &&& override_lines(overrides) == kept_rules(exclude_rules(patterns@))
                &&& override_lines(overrides).len() == patterns@.len()
            },
            Err(e) => !excludes_compile(patterns@) && e is Exclude,
        },
{
    let mut builder = new_override_builder(".");
    let mut i: usize = 0;
    while i < patterns.len()
        invariant
            i <= patterns@.len(),
            builder_is_plain(builder),
            builder_root(builder) == root_kept("."@),
            builder_lines(builder) == kept_rules(exclude_rules(patterns@).take(i as int)),
            builder_lines(builder).len() == i,
            forall|j: int| 0 <= j < i ==> is_exclude_rule(#[trigger] exclude_rules(patterns@)[j]),
        decreases patterns@.len() - i,
    {
        let mut rule = String::from_str("!");
        rule.append(patterns[i].as_str());
        assert(rule@ == exclude_rules(patterns@)[i as int]);
        proof {
            reveal_strlit("!");
            assert(rule@.len() > 0 && rule@[0] == '!');
        }
        if count_opening_braces(rule.as_str()) > MAX_GLOB_GROUPS {
            return Err(SearchError::Exclude(String::from_str("too many alternate groups")));
        }
        match add_override(&mut builder, rule.as_str()) {
            Ok(()) => {},
            Err(error) => {
                return Err(SearchError::Exclude(ignore_error_text(&error)));
            },
        }
        proof {
            let done = exclude_rules(patterns@).take(i + 1);
            assert(done.last() == exclude_rules(patterns@)[i as int]);
            assert(done.drop_last() =~= exclude_rules(patterns@).take(i as int));
        }
        i += 1;
    }
    assert(exclude_rules(patterns@).take(i as int) =~= exclude_rules(patterns@));
    match build_override(&builder) {
        Ok(overrides) => Ok(overrides),
        Err(error) => Err(SearchError::Exclude(ignore_error_text(&error))),
    }
}

/// Turns a configuration into the policy of the walk. Fails exactly
/// where the exclude patterns do not compile.
pub fn configure_walker(config: &SearchConfig) -> (r: Result<TraversalPolicy, SearchError>)
    ensures
        match r {
            Ok(policy) => policy.configured_by(*config) && (config.exclude@.len() > 0
                ==> excludes_compile(config.exclude@)),
            Err(e) => config.exclude@.len() > 0 && !excludes_compile(config.exclude@) && e
                is Exclude,
        },
{
    let overrides = if config.exclude.is_empty() {
        None
    } else {
        match compile_excludes(&config.exclude) {
            Ok(overrides) => Some(overrides),
            Err(error) => {
                return Err(error);
            },
        }
    };
    Ok(
        TraversalPolicy {
            roots: search_roots(config),
            skip_hidden: !config.hidden,
            ignore_files: !config.no_ignore,
            git_ignore: !config.no_ignore,
            follow_links: config.follow,
            max_depth: config.max_depth,
            min_depth: config.min_depth,
            overrides,
        },
    )
}

} // verus!
