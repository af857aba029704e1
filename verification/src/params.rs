//! The interface boundary towards a binding layer: the named parameters of a
//! search as a caller supplies them, and their validation into a
//! configuration.

use crate::config::{path_from, path_of, SearchConfig};
use std::path::PathBuf;
use vstd::prelude::*;

verus! {

/// The parameters of a search as a caller names them. Whatever is left out
/// takes its default.
pub struct SearchParams {
    pub pattern: Option<String>,
    pub paths: Option<Vec<String>>,
    pub hidden: Option<bool>,
    pub no_ignore: Option<bool>,
    pub case_sensitive: Option<bool>,
    pub glob: Option<bool>,
    pub full_path: Option<bool>,
    pub follow: Option<bool>,
    pub max_depth: Option<i64>,
    pub min_depth: Option<i64>,
    pub file_type: Option<String>,
    pub extension: Option<String>,
    pub exclude: Option<Vec<String>>,
    pub min_size: Option<i64>,
    pub max_size: Option<i64>,
    pub changed_within: Option<i64>,
    pub changed_before: Option<i64>,
}

/// The parameters that take a number.
#[derive(Clone, Copy, Debug, PartialEq, Eq, Structural)]
pub enum NumericParam {
    MaxDepth,
    MinDepth,
    MinSize,
    MaxSize,
    ChangedWithin,
    ChangedBefore,
}

/// A number that its parameter cannot take.
#[derive(Clone, Copy, Debug, PartialEq, Eq, Structural)]
pub struct ArgumentError {
    pub param: NumericParam,
    pub value: i64,
}

impl NumericParam {
    /// The name under which a caller supplies the parameter.
    pub open spec fn spec_name(self) -> Seq<char> {
        match self {
            NumericParam::MaxDepth => "max_depth"@,
            NumericParam::MinDepth => "min_depth"@,
            NumericParam::MinSize => "min_size"@,
            NumericParam::MaxSize => "max_size"@,
            NumericParam::ChangedWithin => "changed_within"@,
            NumericParam::ChangedBefore => "changed_before"@,
        }
    }

    /// The name under which a caller supplies the parameter.
    pub fn name(&self) -> (name: &'static str)
        ensures
            name@ == self.spec_name(),
    {
        match self {
            NumericParam::MaxDepth => "max_depth",
            NumericParam::MinDepth => "min_depth",
            NumericParam::MinSize => "min_size",
            NumericParam::MaxSize => "max_size",
            NumericParam::ChangedWithin => "changed_within",
            NumericParam::ChangedBefore => "changed_before",
        }
    }
}

/// Whether a depth can be taken: it is not negative and fits a `usize`.
pub open spec fn is_depth(value: i64) -> bool {
    0 <= value <= usize::MAX
}

/// The complaint about one parameter, if its number cannot be taken. Depths
/// must fit a `usize`; sizes and time windows must not be negative.
pub open spec fn complaint(param: NumericParam, value: Option<i64>, depth: bool) -> Option<
    ArgumentError,
> {
    match value {
        Some(v) if (depth && !is_depth(v)) || (!depth && v < 0) => Some(
            ArgumentError { param, value: v },
        ),
        _ => None,
    }
}

/// The complaint about the depths: that about the maximum depth, or else
/// that about the minimum depth; `None` where both can be taken.
pub open spec fn depth_complaint(max_depth: Option<i64>, min_depth: Option<i64>) -> Option<
    ArgumentError,
> {
    if complaint(NumericParam::MaxDepth, max_depth, true) is Some {
        complaint(NumericParam::MaxDepth, max_depth, true)
    } else {
        complaint(NumericParam::MinDepth, min_depth, true)
    }
}

/// The first number that cannot be taken, in the order maximum depth,
/// minimum depth, minimum size, maximum size, changed within, changed
/// before; `None` where every number can be taken.
pub open spec fn first_complaint(params: SearchParams) -> Option<ArgumentError> {
    if depth_complaint(params.max_depth, params.min_depth) is Some {
        depth_complaint(params.max_depth, params.min_depth)
    } else if complaint(NumericParam::MinSize, params.min_size, false) is Some {
        complaint(NumericParam::MinSize, params.min_size, false)
    } else if complaint(NumericParam::MaxSize, params.max_size, false) is Some {
        complaint(NumericParam::MaxSize, params.max_size, false)
    } else if complaint(NumericParam::ChangedWithin, params.changed_within, false) is Some {
        complaint(NumericParam::ChangedWithin, params.changed_within, false)
    } else {
        complaint(NumericParam::ChangedBefore, params.changed_before, false)
    }
}

/// A flag that is left out is off.
pub open spec fn flag(value: Option<bool>) -> bool {
    match value {
        Some(set) => set,
        None => false,
    }
}

/// The number of an optional parameter, as the integer it stands for.
pub open spec fn number(value: Option<i64>) -> Option<int> {
    match value {
        Some(v) => Some(v as int),
        None => None,
    }
}

/// The root paths that the given texts stand for.
pub open spec fn root_paths(paths: Option<Vec<String>>) -> Seq<PathBuf> {
    match paths {
        Some(texts) => texts@.map_values(|text: String| path_of(text@)),
        None => Seq::empty(),
    }
}

/// The exclude patterns of the parameters; none where they are left out.
pub open spec fn excluded(exclude: Option<Vec<String>>) -> Seq<String> {
    match exclude {
        Some(patterns) => patterns@,
        None => Seq::empty(),
    }
}

impl SearchConfig {
    /// The configuration that carries the parameters one for one, with the
    /// default wherever a parameter is left out.
    pub open spec fn carries(self, params: SearchParams) -> bool {
        &&& self.pattern == params.pattern
        &&& self.paths@ == root_paths(params.paths)
        &&& self.hidden == flag(params.hidden)
        &&& self.no_ignore == flag(params.no_ignore)
        &&& self.case_sensitive == flag(params.case_sensitive)
        &&& self.glob == flag(params.glob)
        &&& self.full_path == flag(params.full_path)
        &&& self.follow == flag(params.follow)
        &&& number_of_usize(self.max_depth) == number(params.max_depth)
        &&& number_of_usize(self.min_depth) == number(params.min_depth)
        &&& self.file_type == params.file_type
        &&& self.extension == params.extension
        &&& self.exclude@ == excluded(params.exclude)
        &&& number_of_u64(self.min_size) == number(params.min_size)
        &&& number_of_u64(self.max_size) == number(params.max_size)
        &&& self.changed_within == params.changed_within
        &&& self.changed_before == params.changed_before
    }
}

/// An optional depth as the integer it stands for.
pub open spec fn number_of_usize(value: Option<usize>) -> Option<int> {
    match value {
        Some(v) => Some(v as int),
        None => None,
    }
}

/// An optional size as the integer it stands for.
pub open spec fn number_of_u64(value: Option<u64>) -> Option<int> {
    match value {
        Some(v) => Some(v as int),
        None => None,
    }
}

fn depth_of(param: NumericParam, value: Option<i64>) -> (r: Result<Option<usize>, ArgumentError>)
    ensures
        match r {
            Ok(depth) => complaint(param, value, true) is None && number_of_usize(depth) == number(
                value,
            ),
            Err(e) => complaint(param, value, true) == Some(e),
        },
{
    match value {
        None => Ok(None),
        Some(v) => if v < 0 || v as u64 > usize::MAX as u64 {
            Err(ArgumentError { param, value: v })
        } else {
            Ok(Some(v as usize))
        },
    }
}

fn size_of(param: NumericParam, value: Option<i64>) -> (r: Result<Option<u64>, ArgumentError>)
    ensures
        match r {
            Ok(size) => complaint(param, value, false) is None && number_of_u64(size) == number(
                value,
            ),
            Err(e) => complaint(param, value, false) == Some(e),
        },
{
    match value {
        None => Ok(None),
        Some(v) => if v < 0 {
            Err(ArgumentError { param, value: v })
        } else {
            Ok(Some(v as u64))
        },
    }
}

fn window_of(param: NumericParam, value: Option<i64>) -> (r: Result<Option<i64>, ArgumentError>)
    ensures
        match r {
            Ok(window) => complaint(param, value, false) is None && window == value,
            Err(e) => complaint(param, value, false) == Some(e),
        },
{
    match value {
        Some(v) if v < 0 => Err(ArgumentError { param, value: v }),
        _ => Ok(value),
    }
}

fn paths_of(texts: &Vec<String>) -> (paths: Vec<PathBuf>)
    ensures
        paths@ == texts@.map_values(|text: String| path_of(text@)),
{
    let mut paths: Vec<PathBuf> = Vec::new();
    let mut i: usize = 0;
    while i < texts.len()
        invariant
            i <= texts@.len(),
            paths@ == texts@.take(i as int).map_values(|text: String| path_of(text@)),
        decreases texts@.len() - i,
    {
        paths.push(path_from(texts[i].as_str()));
        assert(texts@.take(i + 1) =~= texts@.take(i as int).push(texts@[i as int]));
        assert(paths@ =~= texts@.take(i + 1).map_values(|text: String| path_of(text@)));
        i += 1;
    }
    assert(texts@.take(i as int) =~= texts@);
    paths
}

fn flag_of(value: Option<bool>) -> (set: bool)
    ensures
        set == flag(value),
{
    match value {
        Some(set) => set,
        None => false,
    }
}

/// Validates the two depths alone, the maximum first. A caller that still
/// has parameters to read can so raise a complaint about a depth before it
/// reads them.
pub fn check_depths(max_depth: Option<i64>, min_depth: Option<i64>) -> (r: Result<
    (),
    ArgumentError,
>)
    ensures
        match r {
            Ok(_) => depth_complaint(max_depth, min_depth) is None,
            Err(e) => depth_complaint(max_depth, min_depth) == Some(e),
        },
{
    match depth_of(NumericParam::MaxDepth, max_depth) {
        Ok(_) => {},
        Err(error) => {
            return Err(error);
        },
    }
    match depth_of(NumericParam::MinDepth, min_depth) {
        Ok(_) => Ok(()),
        Err(error) => Err(error),
    }
}

/// Validates the parameters of a caller into a configuration. Fails exactly
/// where a number cannot be taken, with the first such number in the order
/// of `first_complaint`.
pub fn build_search_config(params: SearchParams) -> (r: Result<SearchConfig, ArgumentError>)
    ensures
        match r {
            Ok(config) => first_complaint(params) is None && config.carries(params),
            Err(e) => first_complaint(params) == Some(e),
        },
{
    let paths = match &params.paths {
        Some(texts) => paths_of(texts),
        None => Vec::new(),
    };
    let max_depth = match depth_of(NumericParam::MaxDepth, params.max_depth) {
        Ok(depth) => depth,
        Err(error) => {
            return Err(error);
        },
    };
    let min_depth = match depth_of(NumericParam::MinDepth, params.min_depth) {
        Ok(depth) => depth,
        Err(error) => {
            return Err(error);
        },
    };
    let min_size = match size_of(NumericParam::MinSize, params.min_size) {
        Ok(size) => size,
        Err(error) => {
            return Err(error);
        },
    };
    let max_size = match size_of(NumericParam::MaxSize, params.max_size) {
        Ok(size) => size,
        Err(error) => {
            return Err(error);
        },
    };
    let changed_within = match window_of(NumericParam::ChangedWithin, params.changed_within) {
        Ok(window) => window,
        Err(error) => {
            return Err(error);
        },
    };
    let changed_before = match window_of(NumericParam::ChangedBefore, params.changed_before) {
        Ok(window) => window,
        Err(error) => {
            return Err(error);
        },
    };
    let exclude = match params.exclude {
        Some(patterns) => patterns,
        None => Vec::new(),
    };
    Ok(
        SearchConfig {
            pattern: params.pattern,
            paths,
            hidden: flag_of(params.hidden),
            no_ignore: flag_of(params.no_ignore),
            case_sensitive: flag_of(params.case_sensitive),
            glob: flag_of(params.glob),
            full_path: flag_of(params.full_path),
            max_depth,
            min_depth,
            file_type: params.file_type,
            extension: params.extension,
            exclude,
            follow: flag_of(params.follow),
            min_size,
            max_size,
            changed_within,
            changed_before,
        },
    )
}

} // verus!
