//! Tests for the traversal configurator and the plan of a search.

use fdr_core::{
    compile_excludes, configure_walker, plan_search, search_roots, SearchConfig, SearchError,
};
use std::path::{Path, PathBuf};

#[test]
fn empty_paths_mean_the_current_directory() {
    let config = SearchConfig::default();
    assert_eq!(search_roots(&config), vec![PathBuf::from(".")]);
    let policy = configure_walker(&config).expect("valid configuration");
    assert_eq!(policy.roots, vec![PathBuf::from(".")]);
}

#[test]
fn configured_paths_are_the_roots_in_order() {
    let config = SearchConfig {
        paths: vec![
            PathBuf::from("./src"),
            PathBuf::from("./Cargo.toml"),
            PathBuf::from("/nonexistent/path/12345"),
        ],
        ..Default::default()
    };
    assert_eq!(search_roots(&config), config.paths);
    let policy = configure_walker(&config).expect("valid configuration");
    assert_eq!(policy.roots, config.paths);
}

#[test]
fn default_policy_honors_ignore_files_and_skips_hidden_entries() {
    let policy = configure_walker(&SearchConfig::default()).expect("valid configuration");
    assert!(policy.skip_hidden);
    assert!(policy.ignore_files);
    assert!(policy.git_ignore);
    assert!(!policy.follow_links);
    assert_eq!(policy.max_depth, None);
    assert_eq!(policy.min_depth, None);
    assert!(policy.overrides.is_none());
}

#[test]
fn flags_and_depths_carry_over() {
    let config = SearchConfig {
        hidden: true,
        no_ignore: true,
        follow: true,
        max_depth: Some(3),
        min_depth: Some(5),
        ..Default::default()
    };
    let policy = configure_walker(&config).expect("valid configuration");
    assert!(!policy.skip_hidden);
    assert!(!policy.ignore_files);
    assert!(!policy.git_ignore);
    assert!(policy.follow_links);
    assert_eq!(policy.max_depth, Some(3));
    assert_eq!(policy.min_depth, Some(5));
}

#[test]
fn no_ignore_relaxes_both_sources_together() {
    for no_ignore in [false, true] {
        let config = SearchConfig {
            no_ignore,
            ..Default::default()
        };
        let policy = configure_walker(&config).expect("valid configuration");
        assert_eq!(policy.ignore_files, !no_ignore);
        assert_eq!(policy.git_ignore, !no_ignore);
    }
}

#[test]
fn excludes_become_ignoring_override_rules() {
    let patterns = vec!["target".to_string(), "*.log".to_string()];
    let overrides = compile_excludes(&patterns).expect("valid patterns");
    assert_eq!(overrides.num_ignores(), 2);
    assert_eq!(overrides.num_whitelists(), 0);
    assert_eq!(overrides.path(), Path::new("."));
    assert!(overrides.matched("target", true).is_ignore());
    assert!(overrides.matched("sub/target", true).is_ignore());
    assert!(overrides.matched("build.log", false).is_ignore());
    assert!(overrides.matched("sub/deep/build.LOG", false).is_none());
    assert!(overrides.matched("src", true).is_none());
    assert!(overrides.matched("main.rs", false).is_none());
}

#[test]
fn exclude_rules_are_the_patterns_with_a_bang_in_front() {
    let patterns = vec!["a/b".to_string(), "c d.txt".to_string()];
    let overrides = compile_excludes(&patterns).expect("valid patterns");
    let mut reference = ignore::overrides::OverrideBuilder::new(".");
    reference.add("!a/b").expect("valid rule");
    reference.add("!c d.txt").expect("valid rule");
    let reference = reference.build().expect("valid rules");
    for (path, is_dir) in [
        ("a/b", false),
        ("x/a/b", false),
        ("a", true),
        ("c d.txt", false),
        ("sub/c d.txt", false),
        ("c", false),
    ] {
        assert_eq!(
            overrides.matched(path, is_dir).is_ignore(),
            reference.matched(path, is_dir).is_ignore(),
            "disagreement on {path:?}"
        );
    }
}

#[test]
fn policy_holds_overrides_only_where_something_is_excluded() {
    let config = SearchConfig {
        exclude: vec!["node_modules".to_string()],
        ..Default::default()
    };
    let policy = configure_walker(&config).expect("valid configuration");
    let overrides = policy.overrides.expect("an override matcher");
    assert!(overrides.matched("node_modules", true).is_ignore());
    assert!(overrides.matched("a/node_modules/b.js", false).is_none());
}

#[test]
fn invalid_exclude_pattern_is_a_hard_error() {
    let config = SearchConfig {
        exclude: vec!["[invalid".to_string()],
        max_depth: Some(1),
        ..Default::default()
    };
    assert!(matches!(
        configure_walker(&config),
        Err(SearchError::Exclude(_))
    ));
    assert!(matches!(plan_search(&config), Err(SearchError::Exclude(_))));
    match compile_excludes(&config.exclude) {
        Err(error) => assert!(!error.message().is_empty()),
        Ok(_) => panic!("an unclosed class should be refused"),
    }
}

#[test]
fn one_invalid_exclude_among_valid_ones_fails_the_whole() {
    let patterns = vec![
        "target".to_string(),
        "{unclosed".to_string(),
        "*.log".to_string(),
    ];
    assert!(matches!(
        compile_excludes(&patterns),
        Err(SearchError::Exclude(_))
    ));
}

#[test]
fn plan_compiles_matchers_and_policy() {
    let config = SearchConfig {
        pattern: Some("*.rs".to_string()),
        glob: true,
        extension: Some("rs".to_string()),
        exclude: vec!["target".to_string()],
        paths: vec![PathBuf::from("./src")],
        hidden: true,
        ..Default::default()
    };
    let plan = plan_search(&config).expect("valid configuration");
    assert!(plan.matchers.pattern.is_some());
    assert!(plan.matchers.extension.is_some());
    assert_eq!(plan.policy.roots, vec![PathBuf::from("./src")]);
    assert!(!plan.policy.skip_hidden);
    assert!(plan.policy.overrides.is_some());
}

#[test]
fn plan_reports_the_first_part_that_fails() {
    let config = SearchConfig {
        pattern: Some("[invalid(regex".to_string()),
        exclude: vec!["[invalid".to_string()],
        ..Default::default()
    };
    assert!(matches!(plan_search(&config), Err(SearchError::Pattern(_))));

    let config = SearchConfig {
        pattern: Some("[invalid".to_string()),
        glob: true,
        exclude: vec!["[invalid".to_string()],
        ..Default::default()
    };
    assert!(matches!(plan_search(&config), Err(SearchError::Glob(_))));
}

#[test]
fn inverted_depth_bounds_are_no_error() {
    let config = SearchConfig {
        min_depth: Some(5),
        max_depth: Some(2),
        ..Default::default()
    };
    assert!(config.has_empty_depth_range());
    let plan = plan_search(&config).expect("inverted bounds compile");
    assert_eq!(plan.policy.min_depth, Some(5));
    assert_eq!(plan.policy.max_depth, Some(2));
}

#[test]
fn exclude_pattern_is_kept_without_the_blanks_at_its_end() {
    let patterns = vec!["target  ".to_string(), "*.log\t".to_string()];
    let overrides = compile_excludes(&patterns).expect("valid patterns");
    assert_eq!(overrides.num_ignores(), 2);
    assert!(overrides.matched("target", true).is_ignore());
    assert!(overrides.matched("target  ", true).is_none());
    assert!(overrides.matched("build.log", false).is_ignore());
}

#[test]
fn exclude_pattern_of_blanks_excludes_by_the_bare_rule() {
    let patterns = vec!["   ".to_string(), "#notes".to_string()];
    let overrides = compile_excludes(&patterns).expect("valid patterns");
    let mut reference = ignore::overrides::OverrideBuilder::new(".");
    reference.add("!   ").expect("valid rule");
    reference.add("!#notes").expect("valid rule");
    let reference = reference.build().expect("valid rules");
    assert_eq!(overrides.num_ignores(), reference.num_ignores());
    for (path, is_dir) in [("#notes", false), ("a/#notes", false), ("notes", false), ("a", true)] {
        assert_eq!(
            overrides.matched(path, is_dir).is_ignore(),
            reference.matched(path, is_dir).is_ignore(),
            "disagreement on {path:?}"
        );
    }
}

#[test]
fn exclude_pattern_with_more_groups_than_the_bound_is_refused() {
    let nested = "{".repeat(50_000) + "a" + &"}".repeat(50_000);
    assert!(matches!(
        compile_excludes(&vec!["target".to_string(), nested.clone()]),
        Err(SearchError::Exclude(_))
    ));
    let config = SearchConfig {
        exclude: vec![nested],
        ..Default::default()
    };
    assert!(matches!(plan_search(&config), Err(SearchError::Exclude(_))));
    let nested = "{".repeat(20) + "a" + &"}".repeat(20);
    let overrides = compile_excludes(&vec![nested]).expect("within the bound");
    assert!(overrides.matched("a", false).is_ignore());
}

#[test]
fn exclude_pattern_nested_to_the_bound_is_handled() {
    let nested = "{".repeat(1024) + "a" + &"}".repeat(1024);
    let outcome = compile_excludes(&vec![nested]);
    assert!(matches!(outcome, Ok(_) | Err(SearchError::Exclude(_))));
}
