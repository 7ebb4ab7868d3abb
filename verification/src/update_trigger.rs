//! When the automatic daily update check runs from the input method. The
//! input method is the one process that lives for the whole session, so an
//! activation past the due time spawns the settings binary for a
//! background check. The next due time is cached per process so an
//! activation — every focus change — costs one compare rather than a read
//! of the settings file.

use crate::update_schedule::CHECK_INTERVAL_MS;
use vstd::prelude::*;

verus! {

/// The cache before the first activation has read the settings file.
pub const UNREAD: i64 = i64::MIN;

/// One activation against the cached next-check time `next`, at `now_ms`:
/// whether it fires, and the cache afterwards. Firing moves the cache a
/// full interval on BEFORE the spawn, so a binary that cannot start is not
/// respawned on every focus.
pub open spec fn fire_step(next: int, now_ms: int) -> (bool, int) {
    if now_ms < next {
        (false, next)
    } else {
        (true, now_ms + CHECK_INTERVAL_MS)
    }
}

/// Answers whether this activation fires. The stored next-check time is
/// read (by calling `stored_next_ms`) only while the cache is still
/// [`UNREAD`]; afterwards the cached value alone decides.
pub fn fire_if_due(
    next_check_ms: &mut i64,
    stored_next_ms: impl FnOnce() -> i64,
    now_ms: i64,
) -> (fired: bool)
    requires
        *old(next_check_ms) == UNREAD ==> stored_next_ms.requires(()),
        now_ms + CHECK_INTERVAL_MS <= i64::MAX,
    ensures
        *old(next_check_ms) != UNREAD ==> (fired, *final(next_check_ms) as int) == fire_step(
            *old(next_check_ms) as int,
            now_ms as int,
        ),
        *old(next_check_ms) != UNREAD && now_ms < *old(next_check_ms) ==> !fired && *final(next_check_ms) == *old(next_check_ms),
        *old(next_check_ms) != UNREAD && now_ms >= *old(next_check_ms) ==> fired && *final(next_check_ms) == now_ms + CHECK_INTERVAL_MS,
        fired ==> *final(next_check_ms) == now_ms + CHECK_INTERVAL_MS,
        !fired ==> now_ms < *final(next_check_ms) && (*old(next_check_ms) != UNREAD ==> *final(next_check_ms) == *old(next_check_ms)),
        *old(next_check_ms) == UNREAD ==> exists|stored: i64|
            #![trigger stored_next_ms.ensures((), stored)]
            stored_next_ms.ensures((), stored) && (fired, *final(next_check_ms) as int)
                == fire_step(stored as int, now_ms as int),
{
    let mut next = *next_check_ms;
    if next == UNREAD {
        next = stored_next_ms();
        *next_check_ms = next;
    }
    if now_ms < next {
        return false;
    }
    *next_check_ms = now_ms + CHECK_INTERVAL_MS;
    true
}

/// An input context activated at `now_ms`: whether the background check
/// is to be started now — the caller starts it exactly when this answers
/// `true`, so at most once per due window per process. With updates off
/// (a build that must not reach the network) nothing is read and nothing
/// fires.
pub fn on_activate(
    next_check_ms: &mut i64,
    stored_next_ms: impl FnOnce() -> i64,
    now_ms: i64,
    updates_enabled: bool,
) -> (fired: bool)
    requires
        updates_enabled && *old(next_check_ms) == UNREAD ==> stored_next_ms.requires(()),
        now_ms + CHECK_INTERVAL_MS <= i64::MAX,
    ensures
        !updates_enabled ==> !fired && *final(next_check_ms) == *old(next_check_ms),
        fired ==> *final(next_check_ms) == now_ms + CHECK_INTERVAL_MS,
        !fired && *old(next_check_ms) != UNREAD ==> *final(next_check_ms) == *old(next_check_ms),
        updates_enabled && *old(next_check_ms) != UNREAD ==> (fired, *final(next_check_ms) as int)
            == fire_step(*old(next_check_ms) as int, now_ms as int),
        updates_enabled && *old(next_check_ms) == UNREAD ==> exists|stored: i64|
            #![trigger stored_next_ms.ensures((), stored)]
            stored_next_ms.ensures((), stored) && (fired, *final(next_check_ms) as int)
                == fire_step(stored as int, now_ms as int),
{
    if !updates_enabled {
        return false;
    }
    fire_if_due(next_check_ms, stored_next_ms, now_ms)
}

/// An activation before the due time fires nothing and leaves the cached
/// time as it was; one at or after it fires and moves the cache one full
/// interval past that activation. So after a fire at `fired_at`, no run of
/// activations before `fired_at + CHECK_INTERVAL_MS` fires, however many
/// there are.
pub proof fn lemma_early_activations_change_nothing(next: int, now_ms: int)
    ensures
        now_ms < next ==> fire_step(next, now_ms) == (false, next),
        now_ms >= next ==> fire_step(next, now_ms) == (true, now_ms + CHECK_INTERVAL_MS),
{
}

/// A run of activations all before `next`: none fires, the cache stays.
pub proof fn lemma_no_fire_before_due(next: int, times: Seq<int>)
    requires
        forall|i: int| 0 <= i < times.len() ==> #[trigger] times[i] < next,
    ensures
        forall|i: int| 0 <= i < times.len() ==> !fire_step(next, #[trigger] times[i]).0 && fire_step(
            next,
            times[i],
        ).1 == next,
{
}

/// Once fired, the trigger does not fire again within the interval: a
/// second activation before `fired_at + CHECK_INTERVAL_MS` finds the check
/// not due, and one at that time fires again.
pub proof fn lemma_fires_once_per_window(next: int, fired_at: int, later: int)
    requires
        fire_step(next, fired_at).0,
    ensures
        fire_step(fire_step(next, fired_at).1, later).0 <==> later >= fired_at
            + CHECK_INTERVAL_MS,
        !fire_step(fire_step(next, fired_at).1, fired_at).0,
{
}

/// A cache holding a time in the past (a fresh install stores 0, a missed
/// day an old time) fires on the first activation.
pub proof fn lemma_overdue_fires(next: int, now_ms: int)
    requires
        next <= now_ms,
    ensures
        fire_step(next, now_ms) == (true, now_ms + CHECK_INTERVAL_MS),
{
}

} // verus!
