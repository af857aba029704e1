//! Tests for the validation of a caller's parameters.

use fdr_core::{build_search_config, check_depths, ArgumentError, NumericParam, SearchParams};
use std::path::PathBuf;

fn nothing() -> SearchParams {
    SearchParams {
        pattern: None,
        paths: None,
        hidden: None,
        no_ignore: None,
        case_sensitive: None,
        glob: None,
        full_path: None,
        follow: None,
        max_depth: None,
        min_depth: None,
        file_type: None,
        extension: None,
        exclude: None,
        min_size: None,
        max_size: None,
        changed_within: None,
        changed_before: None,
    }
}

#[test]
fn omitted_parameters_take_their_defaults() {
    let config = build_search_config(nothing()).expect("nothing to refuse");
    assert!(config.pattern.is_none());
    assert!(config.paths.is_empty());
    assert!(!config.hidden);
    assert!(!config.no_ignore);
    assert!(!config.case_sensitive);
    assert!(!config.glob);
    assert!(!config.full_path);
    assert!(!config.follow);
    assert!(config.max_depth.is_none());
    assert!(config.min_depth.is_none());
    assert!(config.file_type.is_none());
    assert!(config.extension.is_none());
    assert!(config.exclude.is_empty());
    assert!(config.min_size.is_none());
    assert!(config.max_size.is_none());
    assert!(config.changed_within.is_none());
    assert!(config.changed_before.is_none());
}

#[test]
fn supplied_parameters_carry_over() {
    let params = SearchParams {
        pattern: Some("x".to_string()),
        paths: Some(vec!["./a".to_string(), "/b".to_string()]),
        hidden: Some(true),
        no_ignore: Some(true),
        case_sensitive: Some(true),
        glob: Some(true),
        full_path: Some(true),
        follow: Some(true),
        max_depth: Some(7),
        min_depth: Some(0),
        file_type: Some("f".to_string()),
        extension: Some("rs".to_string()),
        exclude: Some(vec!["target".to_string()]),
        min_size: Some(0),
        max_size: Some(i64::MAX),
        changed_within: Some(60),
        changed_before: Some(0),
    };
    let config = build_search_config(params).expect("nothing to refuse");
    assert_eq!(config.pattern.as_deref(), Some("x"));
    assert_eq!(config.paths, vec![PathBuf::from("./a"), PathBuf::from("/b")]);
    assert!(config.hidden && config.no_ignore && config.case_sensitive);
    assert!(config.glob && config.full_path && config.follow);
    assert_eq!(config.max_depth, Some(7));
    assert_eq!(config.min_depth, Some(0));
    assert_eq!(config.file_type.as_deref(), Some("f"));
    assert_eq!(config.extension.as_deref(), Some("rs"));
    assert_eq!(config.exclude, vec!["target".to_string()]);
    assert_eq!(config.min_size, Some(0));
    assert_eq!(config.max_size, Some(i64::MAX as u64));
    assert_eq!(config.changed_within, Some(60));
    assert_eq!(config.changed_before, Some(0));
}

#[test]
fn flags_set_to_false_stay_false() {
    let params = SearchParams {
        hidden: Some(false),
        glob: Some(false),
        ..nothing()
    };
    let config = build_search_config(params).expect("nothing to refuse");
    assert!(!config.hidden);
    assert!(!config.glob);
}

#[test]
fn negative_numbers_are_refused() {
    let refused =
        |params: SearchParams| build_search_config(params).expect_err("a negative number");
    assert_eq!(
        refused(SearchParams {
            max_depth: Some(-1),
            ..nothing()
        }),
        ArgumentError {
            param: NumericParam::MaxDepth,
            value: -1
        }
    );
    assert_eq!(
        refused(SearchParams {
            min_depth: Some(-2),
            ..nothing()
        }),
        ArgumentError {
            param: NumericParam::MinDepth,
            value: -2
        }
    );
    assert_eq!(
        refused(SearchParams {
            min_size: Some(-3),
            ..nothing()
        }),
        ArgumentError {
            param: NumericParam::MinSize,
            value: -3
        }
    );
    assert_eq!(
        refused(SearchParams {
            max_size: Some(i64::MIN),
            ..nothing()
        }),
        ArgumentError {
            param: NumericParam::MaxSize,
            value: i64::MIN
        }
    );
    assert_eq!(
        refused(SearchParams {
            changed_within: Some(-5),
            ..nothing()
        }),
        ArgumentError {
            param: NumericParam::ChangedWithin,
            value: -5
        }
    );
    assert_eq!(
        refused(SearchParams {
            changed_before: Some(-6),
            ..nothing()
        }),
        ArgumentError {
            param: NumericParam::ChangedBefore,
            value: -6
        }
    );
}

#[test]
fn the_first_refused_number_is_reported() {
    let params = SearchParams {
        max_depth: Some(3),
        min_depth: Some(-2),
        min_size: Some(-3),
        changed_before: Some(-6),
        ..nothing()
    };
    assert_eq!(
        build_search_config(params).expect_err("negative numbers"),
        ArgumentError {
            param: NumericParam::MinDepth,
            value: -2
        }
    );
    let params = SearchParams {
        max_size: Some(-4),
        changed_within: Some(-5),
        ..nothing()
    };
    assert_eq!(
        build_search_config(params).expect_err("negative numbers"),
        ArgumentError {
            param: NumericParam::MaxSize,
            value: -4
        }
    );
}

#[test]
fn parameter_names_are_those_of_the_interface() {
    assert_eq!(NumericParam::MaxDepth.name(), "max_depth");
    assert_eq!(NumericParam::MinDepth.name(), "min_depth");
    assert_eq!(NumericParam::MinSize.name(), "min_size");
    assert_eq!(NumericParam::MaxSize.name(), "max_size");
    assert_eq!(NumericParam::ChangedWithin.name(), "changed_within");
    assert_eq!(NumericParam::ChangedBefore.name(), "changed_before");
}

#[test]
fn inverted_depths_pass_validation_and_are_caught_before_the_walk() {
    let params = SearchParams {
        min_depth: Some(5),
        max_depth: Some(2),
        ..nothing()
    };
    let config = build_search_config(params).expect("nothing to refuse");
    assert!(config.has_empty_depth_range());
}

#[test]
fn depths_are_checked_alone_and_the_maximum_first() {
    assert_eq!(check_depths(None, None), Ok(()));
    assert_eq!(check_depths(Some(0), Some(i64::from(u16::MAX))), Ok(()));
    assert_eq!(check_depths(Some(2), Some(5)), Ok(()));
    assert_eq!(
        check_depths(Some(-1), Some(-2)),
        Err(ArgumentError {
            param: NumericParam::MaxDepth,
            value: -1
        })
    );
    assert_eq!(
        check_depths(Some(1), Some(-2)),
        Err(ArgumentError {
            param: NumericParam::MinDepth,
            value: -2
        })
    );
    assert_eq!(
        check_depths(None, Some(i64::MIN)),
        Err(ArgumentError {
            param: NumericParam::MinDepth,
            value: i64::MIN
        })
    );
}
