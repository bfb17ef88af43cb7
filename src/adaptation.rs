//! The rule that moves the target height from one episode to the next.
use vstd::prelude::*;

verus! {

/// Mean of the sampled heights, rounded down; `min_height` when nothing was sampled.
pub open spec fn average_height(total: int, count: int, min_height: int) -> int {
    if count == 0 {
        min_height
    } else {
        total / count
    }
}

/// The target height for the next episode, given the current target and the
/// average height of the episode that ended: capped at `max_height`, floored at
/// `min_height`, and otherwise moved 5% of the gap down or 25% of the gap up.
pub open spec fn adapted_target(target: int, avg: int, min_height: int, max_height: int) -> int {
    if avg > max_height {
        max_height
    } else if avg < min_height {
        min_height
    } else if avg < target {
        target - (target - avg) * 5 / 100
    } else {
        target + (avg - target) / 4
    }
}

/// Computes the next target height (see `adapted_target`).
pub fn adapt_target(target: u32, avg: u128, min_height: u32, max_height: u32) -> (r: u32)
    ensures
        r == adapted_target(target as int, avg as int, min_height as int, max_height as int),
{
    if avg > max_height as u128 {
        max_height
    } else if avg < min_height as u128 {
        min_height
    } else if avg < target as u128 {
        let delta: u32 = target - avg as u32;
        target - (delta as u64 * 5 / 100) as u32
    } else {
        let delta: u32 = avg as u32 - target;
        target + delta / 4
    }
}

/// Moving down, the target never passes the average and covers at most 5% of
/// the gap to it.
pub proof fn lemma_downward_step_bounded(target: int, avg: int, min_height: int, max_height: int)
    requires
        min_height <= avg <= max_height,
        avg < target,
    ensures
        avg <= adapted_target(target, avg, min_height, max_height) <= target,
        target - adapted_target(target, avg, min_height, max_height) <= (target - avg) * 5 / 100,
{
}

/// Moving up, the target covers a quarter of the gap to the average (rounded
/// down), and never passes it.
pub proof fn lemma_upward_step_quarter(target: int, avg: int, min_height: int, max_height: int)
    requires
        min_height <= avg <= max_height,
        target <= avg,
    ensures
        adapted_target(target, avg, min_height, max_height) - target == (avg - target) / 4,
        target <= adapted_target(target, avg, min_height, max_height) <= avg,
{
}

/// Whatever the average, a target within `[min_height, max_height]` stays there.
pub proof fn lemma_target_stays_in_bounds(target: int, avg: int, min_height: int, max_height: int)
    requires
        min_height <= target <= max_height,
    ensures
        min_height <= adapted_target(target, avg, min_height, max_height) <= max_height,
{
}

} // verus!
