//! The colony's daily routine: which activity each hour of the day calls for.
use crate::colonist::ActivityType;
use vstd::prelude::*;

verus! {

/// Meals at 06:00 and 20:00-21:59, work 07:00-17:59, sleep 22:00-05:59,
/// free time otherwise.
pub open spec fn spec_activity_for_hour(hour: u32) -> ActivityType {
    if hour == 6 || hour == 20 || hour == 21 {
        ActivityType::Eat
    } else if 7 <= hour <= 17 {
        ActivityType::Work
    } else if (22 <= hour && hour <= 23) || hour <= 5 {
        ActivityType::Sleep
    } else {
        ActivityType::Relax
    }
}

/// The activity the routine calls for at the given hour of the day.
pub fn activity_for_hour(hour: u32) -> (r: ActivityType)
    ensures
        r == spec_activity_for_hour(hour),
{
    match hour {
        6 | 20 | 21 => ActivityType::Eat,
        7..=17 => ActivityType::Work,
        22..=23 | 0..=5 => ActivityType::Sleep,
        _ => ActivityType::Relax,
    }
}

} // verus!
