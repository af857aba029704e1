//! The size and modification-time bounds of a search.

use crate::entry::EntryMetadata;
use vstd::prelude::*;

verus! {

/// A count of seconds as a signed number, held at `i64::MAX` where it does
/// not fit.
pub open spec fn signed_seconds(seconds: u64) -> i64 {
    if seconds > i64::MAX as u64 {
        i64::MAX
    } else {
        seconds as i64
    }
}

/// The evaluation time in signed seconds; a clock that reads before the epoch
/// counts as the epoch.
pub open spec fn evaluation_time(now: Option<u64>) -> i64 {
    match now {
        Some(seconds) => signed_seconds(seconds),
        None => 0,
    }
}

/// `now - window`, held within the range of `i64`.
pub open spec fn cutoff(now: i64, window: i64) -> int {
    let difference = now - window;
    if difference > i64::MAX {
        i64::MAX as int
    } else if difference < i64::MIN {
        i64::MIN as int
    } else {
        difference
    }
}

/// Both size bounds are inclusive.
pub open spec fn size_within(len: u64, min_size: Option<u64>, max_size: Option<u64>) -> bool {
    &&& (min_size matches Some(min) ==> len >= min)
    &&& (max_size matches Some(max) ==> len <= max)
}

/// "Changed within `w`" keeps what was modified at or after `now - w`;
/// "changed before `b`" keeps what was modified at or before `now - b`.
pub open spec fn time_within(
    modified: u64,
    changed_within: Option<i64>,
    changed_before: Option<i64>,
    now: Option<u64>,
) -> bool {
    &&& (changed_within matches Some(window) ==> signed_seconds(modified) >= cutoff(
        evaluation_time(now),
        window,
    ))
    &&& (changed_before matches Some(window) ==> signed_seconds(modified) <= cutoff(
        evaluation_time(now),
        window,
    ))
}

/// Whether any size or time bound is set, so that metadata has to be read.
pub open spec fn any_bound(
    min_size: Option<u64>,
    max_size: Option<u64>,
    changed_within: Option<i64>,
    changed_before: Option<i64>,
) -> bool {
    min_size is Some || max_size is Some || changed_within is Some || changed_before is Some
}

/// The metadata stage. Without bounds everything passes. With bounds, an
/// entry whose metadata cannot be read fails, the size bounds apply, and the
/// time bounds apply only where the modification time can be read.
pub open spec fn metadata_filters_match(
    metadata: Option<EntryMetadata>,
    min_size: Option<u64>,
    max_size: Option<u64>,
    changed_within: Option<i64>,
    changed_before: Option<i64>,
    now: Option<u64>,
) -> bool {
    any_bound(min_size, max_size, changed_within, changed_before) ==> {
        &&& metadata matches Some(found)
        &&& size_within(found.len, min_size, max_size)
        &&& (found.modified matches Some(modified) ==> time_within(
            modified,
            changed_within,
            changed_before,
            now,
        ))
    }
}

/// Where only size bounds are set, an entry passes exactly if its length
/// lies between them, both ends included.
pub proof fn lemma_size_bounds_are_inclusive(
    found: EntryMetadata,
    min_size: u64,
    max_size: u64,
    now: Option<u64>,
)
    ensures
        metadata_filters_match(Some(found), Some(min_size), Some(max_size), None, None, now) <==> (
        min_size <= found.len <= max_size),
        metadata_filters_match(Some(found), Some(min_size), None, None, None, now) <==> (min_size
            <= found.len),
        metadata_filters_match(Some(found), None, Some(max_size), None, None, now) <==> (found.len
            <= max_size),
{
}

/// A file of no bytes passes where no bound is set, and fails every minimum
/// size of one byte or more, whatever the other bounds.
pub proof fn lemma_empty_file_fails_a_positive_minimum(
    found: EntryMetadata,
    min_size: u64,
    max_size: Option<u64>,
    changed_within: Option<i64>,
    changed_before: Option<i64>,
    now: Option<u64>,
)
    requires
        found.len == 0,
    ensures
        metadata_filters_match(Some(found), None, None, None, None, now),
        min_size >= 1 ==> !metadata_filters_match(
            Some(found),
            Some(min_size),
            max_size,
            changed_within,
            changed_before,
            now,
        ),
{
}

fn to_signed_seconds(seconds: u64) -> (signed: i64)
    ensures
        signed == signed_seconds(seconds),
{
    if seconds > i64::MAX as u64 {
        i64::MAX
    } else {
        seconds as i64
    }
}

fn time_cutoff(now: i64, window: i64) -> (at: i64)
    ensures
        at == cutoff(now, window),
{
    if window >= 0 {
        if now < i64::MIN + window {
            i64::MIN
        } else {
            now - window
        }
    } else if now > i64::MAX + window {
        i64::MAX
    } else {
        now - window
    }
}

/// Decides the metadata stage for one entry. `metadata` is what could be read
/// of the entry, `now` the evaluation time in seconds since the epoch, `None`
/// where the clock reads before the epoch.
pub fn matches_metadata_filters(
    metadata: Option<EntryMetadata>,
    min_size: Option<u64>,
    max_size: Option<u64>,
    changed_within: Option<i64>,
    changed_before: Option<i64>,
    now: Option<u64>,
) -> (keep: bool)
    ensures
        keep == metadata_filters_match(
            metadata,
            min_size,
            max_size,
            changed_within,
            changed_before,
            now,
        ),
{
    if min_size.is_none() && max_size.is_none() && changed_within.is_none()
        && changed_before.is_none() {
        return true;
    }
    let found = match metadata {
        Some(found) => found,
        None => {
            return false;
        },
    };
    if let Some(min) = min_size {
        if found.len < min {
            return false;
        }
    }
    if let Some(max) = max_size {
        if found.len > max {
            return false;
        }
    }
    if let Some(modified) = found.modified {
        let file_time = to_signed_seconds(modified);
        let current = match now {
            Some(seconds) => to_signed_seconds(seconds),
            None => 0,
        };
        if let Some(window) = changed_within {
            if file_time < time_cutoff(current, window) {
                return false;
            }
        }
        if let Some(window) = changed_before {
            if file_time > time_cutoff(current, window) {
                return false;
            }
        }
    }
    true
}

} // verus!
