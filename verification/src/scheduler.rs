//! Timing decisions of the delayed-lookup scheduler.
//!
//! The scheduler is one long-lived task that wakes on a slot-aligned cadence:
//! its first wake falls on the configured lookup delay within a slot, and
//! every later wake follows one slot duration after the previous one. The
//! decisions here are pure: the caller reads the slot clock, hands in plain
//! durations, and performs the actual sleeping.

use vstd::prelude::*;

verus! {

/// A read-only snapshot of the slot clock, all durations in milliseconds.
#[derive(Clone, Copy, Debug, PartialEq, Eq, Structural)]
pub struct SlotClockReading {
    /// Length of one slot.
    pub slot_duration: u64,
    /// The configured intra-slot delay before issuing lookups.
    pub single_lookup_delay: u64,
    /// Time until the next slot starts, when the clock can tell.
    pub duration_to_next_slot: Option<u64>,
    /// Time since the current slot started, when the clock can tell.
    pub seconds_from_current_slot_start: Option<u64>,
}

/// The first-wake offset the scheduler should sleep from now, or nothing when
/// the slot clock could not be read — the caller then logs the degradation
/// and wakes immediately.
pub open spec fn spec_first_wake_offset(
    duration_to_next_slot: Option<u64>,
    seconds_from_current_slot_start: Option<u64>,
    single_lookup_delay: u64,
) -> Option<int> {
    match (duration_to_next_slot, seconds_from_current_slot_start) {
        (Some(next), Some(elapsed)) => {
            if elapsed > single_lookup_delay {
                Some(next + single_lookup_delay)
            } else {
                Some(single_lookup_delay - elapsed)
            }
        },
        _ => None,
    }
}

/// How long the scheduler sleeps before its first tick: until the lookup
/// delay within the current slot if it has not passed yet, else until the
/// lookup delay within the next slot. When either clock reading is missing
/// the result is nothing and the caller wakes immediately, observably
/// degraded.
pub fn delayed_lookup_first_wake(
    duration_to_next_slot: Option<u64>,
    seconds_from_current_slot_start: Option<u64>,
    single_lookup_delay: u64,
) -> (r: Option<u64>)
    requires
        duration_to_next_slot matches Some(next) ==> next + single_lookup_delay <= u64::MAX,
    ensures
        ({
            let s = spec_first_wake_offset(
                duration_to_next_slot,
                seconds_from_current_slot_start,
                single_lookup_delay,
            );
            match r {
                Some(offset) => s == Some(offset as int),
                None => s is None,
            }
        }),
{
    match (duration_to_next_slot, seconds_from_current_slot_start) {
        (Some(next), Some(elapsed)) => {
            if elapsed > single_lookup_delay {
                Some(next + single_lookup_delay)
            } else {
                Some(single_lookup_delay - elapsed)
            }
        },
        _ => None,
    }
}

/// The instant of the scheduler's tick number `n`, counting from the first
/// wake at `start` and pacing one slot duration per tick.
pub open spec fn spec_tick_instant(start: int, n: nat, slot_duration: int) -> int {
    start + n * slot_duration
}

/// Scheduler cadence: consecutive ticks are exactly one slot duration apart,
/// and the first tick is the first wake itself.
pub proof fn lemma_scheduler_cadence(start: int, n: nat, slot_duration: int)
    ensures
        spec_tick_instant(start, n + 1, slot_duration) - spec_tick_instant(
            start,
            n,
            slot_duration,
        ) == slot_duration,
        spec_tick_instant(start, 0, slot_duration) == start,
{
    assert((n + 1) * slot_duration == n * slot_duration + slot_duration) by (nonlinear_arith);
}

} // verus!
