//! Everything that is settled before the walk starts.

use crate::config::SearchConfig;
use crate::error::SearchError;
use crate::filters::{
    compile_failure,
    compile_matchers,
    extension_compiles,
    pattern_compiles,
    CompiledMatchers,
};
use crate::policy::{configure_walker, excludes_compile, TraversalPolicy};
use vstd::prelude::*;

verus! {

/// The compiled form of a configuration: what each entry is held against,
/// and what the walk is told.
pub struct SearchPlan {
    pub matchers: CompiledMatchers,
    pub policy: TraversalPolicy,
}

/// Whether every part of `config` compiles, so that a walk can start.
pub open spec fn compiles(config: SearchConfig) -> bool {
    &&& pattern_compiles(config)
    &&& extension_compiles(config)
    &&& (config.exclude@.len() > 0 ==> excludes_compile(config.exclude@))
}

/// The failure that planning ends in: that of the first part that does not
/// compile, in the order name pattern, extension filter, exclude patterns.
pub open spec fn plan_failure(config: SearchConfig, e: SearchError) -> bool {
    if pattern_compiles(config) && extension_compiles(config) {
        !compiles(config) && e is Exclude
    } else {
        compile_failure(config, e)
    }
}

/// Compiles a configuration. Succeeds exactly where every part compiles;
/// nothing of the filesystem is touched either way.
pub fn plan_search(config: &SearchConfig) -> (r: Result<SearchPlan, SearchError>)
    ensures
        match r {
            Ok(plan) => {
                &&& compiles(*config)
                &&& plan.matchers.compiled_from(*config)
                &&& plan.policy.configured_by(*config)
            },
            Err(e) => plan_failure(*config, e),
        },
{
    let matchers = match compile_matchers(config) {
        Ok(matchers) => matchers,
        Err(error) => {
            return Err(error);
        },
    };
    let policy = match configure_walker(config) {
        Ok(policy) => policy,
        Err(error) => {
            return Err(error);
        },
    };
    Ok(SearchPlan { matchers, policy })
}

} // verus!
