//! Tests for the size and modification-time bounds.

use fdr_core::{matches_metadata_filters, EntryMetadata};

fn sized(len: u64) -> Option<EntryMetadata> {
    Some(EntryMetadata {
        len,
        modified: Some(0),
    })
}

fn modified(seconds: u64) -> Option<EntryMetadata> {
    Some(EntryMetadata {
        len: 0,
        modified: Some(seconds),
    })
}

#[test]
fn without_bounds_everything_passes() {
    assert!(matches_metadata_filters(None, None, None, None, None, None));
    assert!(matches_metadata_filters(
        sized(7),
        None,
        None,
        None,
        None,
        Some(1)
    ));
}

#[test]
fn unreadable_metadata_fails_once_a_bound_is_set() {
    assert!(!matches_metadata_filters(
        None,
        Some(0),
        None,
        None,
        None,
        Some(1)
    ));
    assert!(!matches_metadata_filters(
        None,
        None,
        Some(u64::MAX),
        None,
        None,
        Some(1)
    ));
    assert!(!matches_metadata_filters(
        None,
        None,
        None,
        Some(0),
        None,
        Some(1)
    ));
    assert!(!matches_metadata_filters(
        None,
        None,
        None,
        None,
        Some(0),
        Some(1)
    ));
}

#[test]
fn size_bounds_are_inclusive() {
    let keep =
        |len: u64| matches_metadata_filters(sized(len), Some(10), Some(20), None, None, None);
    assert!(!keep(9));
    assert!(keep(10));
    assert!(keep(15));
    assert!(keep(20));
    assert!(!keep(21));
}

#[test]
fn zero_byte_file_is_excluded_once_min_size_is_one() {
    assert!(matches_metadata_filters(
        sized(0),
        None,
        None,
        None,
        None,
        None
    ));
    assert!(matches_metadata_filters(
        sized(0),
        Some(0),
        None,
        None,
        None,
        None
    ));
    assert!(!matches_metadata_filters(
        sized(0),
        Some(1),
        None,
        None,
        None,
        None
    ));
    assert!(matches_metadata_filters(
        sized(7),
        Some(1),
        None,
        None,
        None,
        None
    ));
    assert!(matches_metadata_filters(
        sized(0),
        None,
        Some(0),
        None,
        None,
        None
    ));
}

#[test]
fn min_size_above_max_size_keeps_nothing() {
    for len in [0, 5, 10, 11, 20] {
        assert!(!matches_metadata_filters(
            sized(len),
            Some(11),
            Some(10),
            None,
            None,
            None
        ));
    }
}

#[test]
fn changed_within_rejects_what_is_older_than_the_cutoff() {
    let keep =
        |at: u64| matches_metadata_filters(modified(at), None, None, Some(100), None, Some(1000));
    assert!(!keep(0));
    assert!(!keep(899));
    assert!(keep(900));
    assert!(keep(1000));
    assert!(keep(5000));
}

#[test]
fn changed_before_rejects_what_is_newer_than_the_cutoff() {
    let keep =
        |at: u64| matches_metadata_filters(modified(at), None, None, None, Some(100), Some(1000));
    assert!(keep(0));
    assert!(keep(900));
    assert!(!keep(901));
    assert!(!keep(1000));
}

#[test]
fn both_time_bounds_form_a_window() {
    let keep = |at: u64| {
        matches_metadata_filters(modified(at), None, None, Some(300), Some(100), Some(1000))
    };
    assert!(!keep(699));
    assert!(keep(700));
    assert!(keep(900));
    assert!(!keep(901));
}

#[test]
fn unreadable_modification_time_skips_the_time_bounds_only() {
    let unknown = |len: u64| {
        Some(EntryMetadata {
            len,
            modified: None,
        })
    };
    assert!(matches_metadata_filters(
        unknown(5),
        None,
        None,
        Some(1),
        Some(1),
        Some(1000)
    ));
    assert!(matches_metadata_filters(
        unknown(5),
        Some(5),
        None,
        Some(1),
        None,
        Some(1000)
    ));
    assert!(!matches_metadata_filters(
        unknown(5),
        Some(6),
        None,
        Some(1),
        None,
        Some(1000)
    ));
}

#[test]
fn clock_before_the_epoch_counts_as_the_epoch() {
    // now = 0, window 100: cutoff is -100, so every time passes `changed_within`
    assert!(matches_metadata_filters(
        modified(0),
        None,
        None,
        Some(100),
        None,
        None
    ));
    // and only nothing is at or before -100
    assert!(!matches_metadata_filters(
        modified(0),
        None,
        None,
        None,
        Some(100),
        None
    ));
    assert!(matches_metadata_filters(
        modified(0),
        None,
        None,
        None,
        Some(0),
        None
    ));
}

#[test]
fn times_beyond_the_signed_range_are_held_at_its_end() {
    let far = i64::MAX as u64;
    // a modification time past i64::MAX counts as i64::MAX
    assert!(matches_metadata_filters(
        modified(u64::MAX),
        None,
        None,
        Some(0),
        None,
        Some(far)
    ));
    assert!(matches_metadata_filters(
        modified(u64::MAX),
        None,
        None,
        None,
        Some(0),
        Some(u64::MAX)
    ));
    assert!(!matches_metadata_filters(
        modified(far - 1),
        None,
        None,
        Some(0),
        None,
        Some(u64::MAX)
    ));
}

#[test]
fn cutoff_saturates_for_negative_windows() {
    // now - (-1) would pass i64::MAX: the cutoff is held at i64::MAX
    let far = i64::MAX as u64;
    assert!(matches_metadata_filters(
        modified(far),
        None,
        None,
        Some(-1),
        None,
        Some(far)
    ));
    assert!(!matches_metadata_filters(
        modified(far - 1),
        None,
        None,
        Some(-1),
        None,
        Some(far)
    ));
    // a negative window moves the cutoff into the future
    assert!(!matches_metadata_filters(
        modified(1000),
        None,
        None,
        Some(-50),
        None,
        Some(1000)
    ));
    assert!(matches_metadata_filters(
        modified(1050),
        None,
        None,
        Some(-50),
        None,
        Some(1000)
    ));
    // the largest window against the epoch: cutoff is i64::MIN + 1 at the least
    assert!(matches_metadata_filters(
        modified(0),
        None,
        None,
        Some(i64::MAX),
        None,
        Some(0)
    ));
    assert!(matches_metadata_filters(
        modified(0),
        None,
        None,
        None,
        Some(i64::MIN),
        Some(0)
    ));
}
