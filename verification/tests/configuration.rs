//! Tests for the search configuration and its defaults.

use fdr_core::SearchConfig;
use std::path::PathBuf;

#[test]
fn search_config_default_values() {
    let config = SearchConfig::default();

    assert!(config.pattern.is_none());
    assert!(config.paths.is_empty());
    assert!(!config.hidden, "hidden should default to false");
    assert!(!config.no_ignore, "no_ignore should default to false");
    assert!(
        !config.case_sensitive,
        "case_sensitive should default to false"
    );
    assert!(!config.glob, "glob should default to false");
    assert!(!config.full_path, "full_path should default to false");
    assert!(config.max_depth.is_none());
    assert!(config.min_depth.is_none());
    assert!(config.file_type.is_none());
    assert!(config.extension.is_none());
    assert!(config.exclude.is_empty());
    assert!(!config.follow, "follow should default to false");
}

#[test]
fn search_debug_impl_works() {
    let config = SearchConfig {
        pattern: Some("test".to_string()),
        paths: vec![PathBuf::from(".")],
        hidden: true,
        ..Default::default()
    };

    let debug_output = format!("{config:?}");
    assert!(
        debug_output.contains("test"),
        "debug output should contain pattern"
    );
    assert!(
        debug_output.contains("hidden"),
        "debug output should contain field names"
    );
}

#[test]
fn default_config_leaves_bounds_unset() {
    let config = SearchConfig::default();
    assert!(config.min_size.is_none());
    assert!(config.max_size.is_none());
    assert!(config.changed_within.is_none());
    assert!(config.changed_before.is_none());
}

#[test]
fn depth_range_is_empty_only_when_min_exceeds_max() {
    let mut config = SearchConfig::default();
    assert!(!config.has_empty_depth_range());
    config.min_depth = Some(5);
    assert!(!config.has_empty_depth_range());
    config.max_depth = Some(5);
    assert!(!config.has_empty_depth_range());
    config.max_depth = Some(4);
    assert!(config.has_empty_depth_range());
    config.min_depth = None;
    assert!(!config.has_empty_depth_range());
}
