//! Game time: ticks are minutes, days start at 00:00, and day numbers start at 1.
use vstd::prelude::*;

verus! {

pub const TICKS_PER_HOUR: u64 = 60;

pub const TICKS_PER_DAY: u64 = 1440;

/// How fast the simulation runs.
#[derive(Clone, Copy, Debug, PartialEq, Eq, Structural)]
pub enum TimeSpeed {
    Paused,
    Normal,
    Fast,
    SuperFast,
}

#[derive(Clone, Copy, Debug, PartialEq, Eq, Structural)]
pub struct TimeState {
    pub speed: TimeSpeed,
    pub day_length_ticks: u64,
}

impl TimeState {
    pub fn default() -> (t: TimeState)
        ensures
            t.speed == TimeSpeed::Normal,
            t.day_length_ticks == 1440,
    {
        TimeState { speed: TimeSpeed::Normal, day_length_ticks: 1440 }
    }
}

pub open spec fn spec_day(tick: u64) -> u32 {
    (tick / 1440 + 1) as u32
}

pub open spec fn spec_hour(tick: u64) -> u32 {
    ((tick % 1440) / 60) as u32
}

pub open spec fn spec_minute(tick: u64) -> u32 {
    (tick % 60) as u32
}

pub struct TimeSystem;

impl TimeSystem {
    /// The (day, hour, minute) of a tick.
    pub fn get_time_of_day(tick: u64) -> (r: (u32, u32, u32))
        ensures
            r == (spec_day(tick), spec_hour(tick), spec_minute(tick)),
    {
        let day = (tick / TICKS_PER_DAY + 1) as u32;
        let hour = ((tick % TICKS_PER_DAY) / TICKS_PER_HOUR) as u32;
        let minute = (tick % TICKS_PER_HOUR) as u32;
        (day, hour, minute)
    }
}

} // verus!
