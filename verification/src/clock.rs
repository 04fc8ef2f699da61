//! Simulated time: timestamps in seconds since the epoch, read as a time of
//! day in minutes, and the half-hour steps of a simulated day.

use vstd::prelude::*;

verus! {

pub const SECONDS_PER_DAY: i64 = 86_400;

pub const MINUTES_PER_DAY: u32 = 1_440;

/// The length of one simulation step, in minutes and in seconds.
pub const STEP_MINUTES: u32 = 30;

pub const STEP_SECONDS: i64 = 1_800;

/// The number of steps in a simulated day.
pub const STEPS_PER_DAY: usize = 48;

/// The minute of the day, from 0 to 1439, at which a timestamp falls.
pub open spec fn minute_of_day(timestamp: int) -> int {
    (timestamp % 86_400) / 60
}

/// The minute of the day at which a step of the simulated day starts.
pub open spec fn step_minute(step: int) -> int {
    step * 30
}

/// The minute of the day, from 0 to 1439, at which `timestamp` falls.
pub fn minute_of_day_at(timestamp: i64) -> (minute: u32)
    ensures
        minute == minute_of_day(timestamp as int),
        minute < MINUTES_PER_DAY,
{
    let within: i64 = timestamp % SECONDS_PER_DAY;
    let second: i64 = if within < 0 {
        within + SECONDS_PER_DAY
    } else {
        within
    };
    (second / 60) as u32
}

/// The minute of the day at which step `step` of the simulated day starts.
pub fn minute_of_step(step: usize) -> (minute: u32)
    requires
        step < STEPS_PER_DAY,
    ensures
        minute == step_minute(step as int),
        minute < MINUTES_PER_DAY,
{
    step as u32 * STEP_MINUTES
}

} // verus!
