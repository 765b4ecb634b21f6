//! The colony stockpile and its overall condition.
use vstd::prelude::*;

verus! {

/// Supply capacity without any Storage building.
pub const BASE_STORAGE_CAPACITY: i32 = 30;

/// Supply capacity each Storage building adds.
pub const STORAGE_CAPACITY_BONUS: i32 = 20;

/// The overall state of the colony.
#[derive(Clone, Copy, Debug, PartialEq, Eq, Structural)]
pub enum ColonyCondition {
    Stable,
    Strained,
    Critical,
    Collapsed,
}

/// The name the interface shows for a condition.
pub open spec fn spec_condition_label(c: ColonyCondition) -> Seq<char> {
    match c {
        ColonyCondition::Stable => "Stable"@,
        ColonyCondition::Strained => "Strained"@,
        ColonyCondition::Critical => "Critical"@,
        ColonyCondition::Collapsed => "Collapsed"@,
    }
}

impl ColonyCondition {
    pub fn label(self) -> (r: &'static str)
        ensures
            r@ == spec_condition_label(self),
    {
        proof {
            reveal_strlit("Stable");
            reveal_strlit("Strained");
            reveal_strlit("Critical");
            reveal_strlit("Collapsed");
        }
        match self {
            ColonyCondition::Stable => "Stable",
            ColonyCondition::Strained => "Strained",
            ColonyCondition::Critical => "Critical",
            ColonyCondition::Collapsed => "Collapsed",
        }
    }
}

/// Supplies, salvage, prepared meals, and the colony condition.
#[derive(Clone, Copy, Debug, PartialEq, Eq, Structural)]
pub struct ResourceState {
    pub supplies: i32,
    pub salvage: i32,
    pub prepared_meals: i32,
    pub condition: ColonyCondition,
    pub stable_days: u32,
}

impl ResourceState {
    /// The state a new colony starts with.
    pub open spec fn spec_default() -> ResourceState {
        ResourceState { supplies: 18, salvage: 34, prepared_meals: 0, condition: ColonyCondition::Stable, stable_days: 0 }
    }

    pub fn default() -> (r: ResourceState)
        ensures
            r == ResourceState::spec_default(),
            r.supplies == 18,
            r.salvage == 34,
            r.prepared_meals == 0,
            r.condition == ColonyCondition::Stable,
            r.stable_days == 0,
    {
        ResourceState { supplies: 18, salvage: 34, prepared_meals: 0, condition: ColonyCondition::Stable, stable_days: 0 }
    }

    pub fn add_salvage(&mut self, amount: i32)
        requires
            old(self).salvage + amount <= i32::MAX,
            old(self).salvage + amount >= i32::MIN,
        ensures
            *final(self) == (ResourceState { salvage: (old(self).salvage + amount) as i32, ..*old(self) }),
    {
        self.salvage = self.salvage + amount;
    }

    pub fn spend_salvage(&mut self, amount: i32)
        requires
            old(self).salvage - amount <= i32::MAX,
            old(self).salvage - amount >= i32::MIN,
        ensures
            *final(self) == (ResourceState { salvage: (old(self).salvage - amount) as i32, ..*old(self) }),
    {
        self.salvage = self.salvage - amount;
    }

    pub fn refund_salvage(&mut self, amount: i32)
        requires
            old(self).salvage + amount <= i32::MAX,
            old(self).salvage + amount >= i32::MIN,
        ensures
            *final(self) == (ResourceState { salvage: (old(self).salvage + amount) as i32, ..*old(self) }),
    {
        self.salvage = self.salvage + amount;
    }

    /// Consumes up to `need` supplies and returns how many were missing.
    pub fn consume_supplies(&mut self, need: i32) -> (shortage: i32)
        requires
            need >= 0,
            old(self).supplies >= 0,
        ensures
            shortage == (if need > old(self).supplies { need - old(self).supplies } else { 0 }),
            *final(self) == (ResourceState {
                supplies: if need > old(self).supplies { 0 } else { (old(self).supplies - need) as i32 },
                ..*old(self)
            }),
    {
        if need > self.supplies {
            let shortage = need - self.supplies;
            self.supplies = 0;
            shortage
        } else {
            self.supplies = self.supplies - need;
            0
        }
    }

    /// Stores supplies up to `capacity` and returns how many were wasted.
    pub fn add_supplies(&mut self, amount: i32, capacity: i32) -> (wasted: i32)
        requires
            amount >= 0,
            old(self).supplies >= 0,
            capacity >= 0,
            old(self).supplies + amount <= i32::MAX,
        ensures
            wasted == (if old(self).supplies + amount > capacity { old(self).supplies + amount - capacity } else { 0 }),
            *final(self) == (ResourceState {
                supplies: if old(self).supplies + amount > capacity { capacity } else { (old(self).supplies + amount) as i32 },
                ..*old(self)
            }),
    {
        let total = self.supplies + amount;
        if total > capacity {
            self.supplies = capacity;
            total - capacity
        } else {
            self.supplies = total;
            0
        }
    }
}

} // verus!
