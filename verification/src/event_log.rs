//! The colony log and the daily social reports.
use vstd::prelude::*;

verus! {

#[derive(Clone, Copy, Debug, PartialEq, Eq, Structural)]
pub enum LogCategory {
    Time,
    Social,
    Work,
    Mood,
    Resource,
    Mission,
    Technology,
    Colony,
    System,
}

/// One entry of the colony log, stamped with the game time it happened.
#[derive(Clone, Debug)]
pub struct ColonyLogEntry {
    pub day: u32,
    pub hour: u32,
    pub minute: u32,
    pub category: LogCategory,
    pub title: String,
    pub detail: String,
}

impl ColonyLogEntry {
    pub fn new(day: u32, hour: u32, minute: u32, category: LogCategory, title: String, detail: String) -> (e: ColonyLogEntry)
        ensures
            e.day == day,
            e.hour == hour,
            e.minute == minute,
            e.category == category,
            e.title@ == title@,
            e.detail@ == detail@,
    {
        ColonyLogEntry { day, hour, minute, category, title, detail }
    }
}

/// A daily social report. Average mood and relationship are kept in whole
/// points, as the archive shows them.
#[derive(Clone, Debug)]
pub struct SocialHistoryEntry {
    pub day: u32,
    pub title: String,
    pub detail: String,
    pub recommendation: String,
    pub average_mood: i32,
    pub average_relationship: i32,
    pub close_pairs: u32,
    pub strained_pairs: u32,
}

impl SocialHistoryEntry {
    pub fn new(
        day: u32,
        title: &str,
        detail: &str,
        recommendation: &str,
        average_mood: i32,
        average_relationship: i32,
        close_pairs: u32,
        strained_pairs: u32,
    ) -> (e: SocialHistoryEntry)
        ensures
            e.day == day,
            e.title@ == title@,
            e.detail@ == detail@,
            e.recommendation@ == recommendation@,
            e.average_mood == average_mood,
            e.average_relationship == average_relationship,
            e.close_pairs == close_pairs,
            e.strained_pairs == strained_pairs,
    {
        SocialHistoryEntry {
            day,
            title: crate::text::text(title),
            detail: crate::text::text(detail),
            recommendation: crate::text::text(recommendation),
            average_mood,
            average_relationship,
            close_pairs,
            strained_pairs,
        }
    }
}

} // verus!
