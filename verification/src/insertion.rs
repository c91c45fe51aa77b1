//! Outcome classification and bounded history for text-insertion attempts.

use vstd::prelude::*;

verus! {

/// How an insertion attempt ended: directly, through the clipboard
/// fallback, or not at all.
#[derive(Debug, Clone, Copy, PartialEq, Eq, Structural)]
pub enum InsertionStatus {
    Success,
    Fallback,
    Failure,
}

/// One remembered insertion attempt.
#[derive(Debug, Clone, PartialEq, Eq)]
pub struct InsertionRecord {
    pub text: String,
    pub status: InsertionStatus,
}

/// Classify an insertion attempt: a direct success wins, an enabled and
/// successful fallback comes second, everything else is a failure.
pub fn resolve_status(
    direct_result: Result<(), String>,
    fallback_enabled: bool,
    fallback_result: Result<(), String>,
) -> (r: InsertionStatus)
    ensures
        direct_result is Ok ==> r == InsertionStatus::Success,
        direct_result is Err && fallback_enabled && fallback_result is Ok ==> r
            == InsertionStatus::Fallback,
        direct_result is Err && !(fallback_enabled && fallback_result is Ok) ==> r
            == InsertionStatus::Failure,
{
    if direct_result.is_ok() {
        return InsertionStatus::Success;
    }
    if fallback_enabled && fallback_result.is_ok() {
        return InsertionStatus::Fallback;
    }
    InsertionStatus::Failure
}

/// Prepend the newest record and keep at most `max` entries.
pub fn append_recent(records: &mut Vec<InsertionRecord>, record: InsertionRecord, max: usize)
    ensures
        final(records)@ == (seq![record] + old(records)@).take(
            vstd::math::min(max as int, old(records)@.len() + 1int),
        ),
{
    records.insert(0, record);
    records.truncate(max);
    proof {
        if max as int >= old(records)@.len() + 1 {
            assert(records@ =~= (seq![record] + old(records)@).take(old(records)@.len() + 1int));
        } else {
            assert(records@ =~= (seq![record] + old(records)@).take(max as int));
        }
    }
}

} // verus!
