//! Pacing of a loop to a target frame rate.

use vstd::prelude::*;

verus! {

/// Frames per second that both the preview and the recording aim for.
pub const TARGET_FPS: u64 = 30;

/// Microseconds in one second.
pub const MICROS_PER_SECOND: u64 = 1_000_000;

/// The time one iteration may take at `fps` frames per second, in microseconds.
pub open spec fn frame_budget_spec(fps: u64) -> int
    recommends
        fps > 0,
{
    MICROS_PER_SECOND as int / fps as int
}

/// What is left of `budget` after `elapsed` has been spent: never negative.
pub open spec fn pacing_sleep_spec(budget: u64, elapsed: u64) -> int {
    if elapsed < budget {
        budget - elapsed
    } else {
        0
    }
}

/// The frame budget at `fps` frames per second, in microseconds.
pub fn frame_budget_micros(fps: u64) -> (budget: u64)
    requires
        fps > 0,
    ensures
        budget as int == frame_budget_spec(fps),
        budget <= MICROS_PER_SECOND,
{
    MICROS_PER_SECOND / fps
}

/// The frame interval at `fps` frames per second, in whole milliseconds.
pub fn frame_interval_millis(fps: u64) -> (interval: u64)
    requires
        fps > 0,
    ensures
        interval as int == 1000int / fps as int,
{
    1000 / fps
}

/// How long an iteration that took `elapsed` microseconds sleeps so that the
/// loop keeps to `budget` microseconds per iteration.
pub fn pacing_sleep(budget: u64, elapsed: u64) -> (sleep: u64)
    ensures
        sleep as int == pacing_sleep_spec(budget, elapsed),
        elapsed < budget ==> sleep as int + elapsed as int == budget as int,
        elapsed >= budget ==> sleep == 0,
{
    if elapsed < budget {
        budget - elapsed
    } else {
        0
    }
}

/// An iteration that keeps within its budget fills it exactly together with
/// its sleep; one that overruns sleeps for nothing. Either way the iteration
/// and its sleep together last as long as the longer of budget and elapsed time.
pub proof fn pacing_fills_budget(budget: u64, elapsed: u64)
    ensures
        pacing_sleep_spec(budget, elapsed) >= 0,
        elapsed as int + pacing_sleep_spec(budget, elapsed) == if elapsed < budget {
            budget as int
        } else {
            elapsed as int
        },
{
}

} // verus!
