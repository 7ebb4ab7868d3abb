//! When the automatic update check is due, over the stored next-check
//! time. The time is stamped BEFORE the fetch so a hanging server does not
//! re-check every launch.

use vstd::prelude::*;

verus! {

/// The daily interval between automatic checks, in milliseconds.
pub const CHECK_INTERVAL_MS: i64 = 86_400_000;

/// The settings the update schedule reads and writes: the time (Unix
/// milliseconds) from which the next automatic check is due. A document
/// that was never stamped holds 0, so a fresh install is overdue.
#[derive(Clone, Debug, PartialEq, Eq, Structural)]
pub struct SettingsDocument {
    pub update_next_check_ms: i64,
}

impl Default for SettingsDocument {
    fn default() -> (document: Self)
        ensures
            document.update_next_check_ms == 0,
    {
        SettingsDocument { update_next_check_ms: 0 }
    }
}

/// Whether the daily check is due at `now_ms`.
pub open spec fn due_at(next_check_ms: int, now_ms: int) -> bool {
    now_ms >= next_check_ms
}

/// Whether the daily check is due.
pub fn is_due(document: &SettingsDocument, now_ms: i64) -> (due: bool)
    ensures
        due == due_at(document.update_next_check_ms as int, now_ms as int),
{
    now_ms >= document.update_next_check_ms
}

/// Stamped before the fetch, whatever it answers: the next check is due
/// one interval from `now_ms`. Nothing else in the document changes.
pub fn stamp_next_check(document: &mut SettingsDocument, now_ms: i64)
    requires
        now_ms + CHECK_INTERVAL_MS <= i64::MAX,
    ensures
        final(document).update_next_check_ms == now_ms + CHECK_INTERVAL_MS,
{
    document.update_next_check_ms = now_ms + CHECK_INTERVAL_MS;
}

/// After a stamp at `stamped_ms`, the check is due again exactly from one
/// interval later: not a millisecond before, and at every time after.
pub proof fn lemma_due_again_one_interval_after_the_stamp(stamped_ms: int, now_ms: int)
    ensures
        due_at(stamped_ms + CHECK_INTERVAL_MS, now_ms) <==> now_ms >= stamped_ms
            + CHECK_INTERVAL_MS,
        !due_at(stamped_ms + CHECK_INTERVAL_MS, stamped_ms + CHECK_INTERVAL_MS - 1),
        due_at(stamped_ms + CHECK_INTERVAL_MS, stamped_ms + CHECK_INTERVAL_MS),
        !due_at(stamped_ms + CHECK_INTERVAL_MS, stamped_ms),
{
}

} // verus!
