//! Daily supply needs, storage and shelter capacity, and the colony condition.
use crate::building::BuildingType;
use crate::building_system::BuildingSystem;
use crate::event_log::LogCategory;
use crate::game_state::GameState;
use crate::resources::{ColonyCondition, ResourceState, BASE_STORAGE_CAPACITY, STORAGE_CAPACITY_BONUS};
use crate::text::{push_signed, signed_decimal, text};
use vstd::prelude::*;
use vstd::string::StringExecFns;

verus! {

/// How many placed buildings have the given type.
pub open spec fn count_type(bs: Seq<crate::building::Building>, t: BuildingType) -> nat
    decreases bs.len(),
{
    if bs.len() == 0 {
        0
    } else {
        count_type(bs.drop_last(), t) + if bs.last().building_type == t { 1nat } else { 0nat }
    }
}

proof fn lemma_count_type_bounded(bs: Seq<crate::building::Building>, t: BuildingType)
    ensures
        count_type(bs, t) <= bs.len(),
    decreases bs.len(),
{
    if bs.len() > 0 {
        lemma_count_type_bounded(bs.drop_last(), t);
    }
}

/// Colonists need one supply each per day; without a Mess Hall a colony of
/// four or more needs two more each; prepared meals and the food technologies reduce
/// the need, which never goes below zero.
pub open spec fn spec_daily_need(s: GameState) -> int {
    let raw = raw_daily_need(s);
    if raw > 0 { raw } else { 0 }
}

/// The daily need before it is floored at zero.
pub open spec fn raw_daily_need(s: GameState) -> int {
    let n = s.colonists@.len() as int;
    let penalty = if n >= 4 && count_type(s.building_system.placed(), BuildingType::MessHall) == 0 {
        n * 2
    } else {
        0
    };
    let reduction = (if s.technology.unlocked@.contains(crate::technology::TechId::HydroponicPlanning) { 1int } else { 0int })
        + (if s.technology.unlocked@.contains(crate::technology::TechId::NutrientCulture) { 1int } else { 0int });
    n + penalty - s.resources.prepared_meals - reduction
}

pub open spec fn spec_storage_capacity(s: GameState) -> int {
    let bonus = if s.technology.unlocked@.contains(crate::technology::TechId::StorageLattice) { 20int } else { 0int };
    30 + count_type(s.building_system.placed(), BuildingType::Storage) * 20 + bonus
}

pub open spec fn spec_habitat_capacity(s: GameState) -> int {
    let per = if s.technology.unlocked@.contains(crate::technology::TechId::ModularHabitats) { 3int } else { 2int };
    count_type(s.building_system.placed(), BuildingType::Habitat) * per
}

/// The colony's sizes stay far from integer limits.
pub open spec fn sizes_ok(s: GameState) -> bool {
    &&& s.colonists@.len() <= 0x100_0000
    &&& s.building_system.placed().len() <= 0x100_0000
    &&& -0x1000_0000 <= s.resources.prepared_meals <= 0x1000_0000
    &&& -0x1000_0000 <= s.resources.supplies <= 0x1000_0000
    &&& -0x1000_0000 <= s.resources.salvage <= 0x1000_0000
}

/// Within the colony's limits the capacities fit their integer types.
pub proof fn lemma_capacities_fit(s: GameState)
    requires
        sizes_ok(s),
    ensures
        spec_storage_capacity(s) <= i32::MAX,
        spec_habitat_capacity(s) <= u32::MAX,
        0 <= spec_habitat_capacity(s),
        30 <= spec_storage_capacity(s),
{
    lemma_count_type_bounded(s.building_system.placed(), BuildingType::Storage);
    lemma_count_type_bounded(s.building_system.placed(), BuildingType::Habitat);
}

/// Mood after shelter pressure: six points per colonist without a
/// sleeper slot, never below zero.
pub open spec fn effective_mood(average_mood: int, shelter_deficit: int) -> int {
    let m = average_mood - shelter_deficit * 6;
    if m > 0 { m } else { 0 }
}

/// The daily need, counted as at least one.
pub open spec fn need_floor(daily_need: int) -> int {
    if daily_need > 1 { daily_need } else { 1 }
}

/// The need counted as at least one: never below one, never below the
/// need, and the need itself from one up.
pub proof fn law_need_floor(need: int)
    ensures
        need_floor(need) >= 1,
        need_floor(need) >= need,
        need >= 1 ==> need_floor(need) == need,
        need < 1 ==> need_floor(need) == 1,
{
}

/// The condition that supplies, effective mood, and shelter put the colony in.
pub open spec fn spec_next_condition(supplies: int, mood: int, daily_need: int, shelter_deficit: int) -> ColonyCondition {
    if supplies <= 0 && mood < 15 {
        ColonyCondition::Collapsed
    } else if supplies <= 0 || mood < 25 {
        ColonyCondition::Critical
    } else if supplies < need_floor(daily_need) * 2 || mood < 45 || shelter_deficit > 0 {
        ColonyCondition::Strained
    } else {
        ColonyCondition::Stable
    }
}

/// Colonists without a sleeper slot.
pub open spec fn spec_shelter_deficit(s: GameState) -> int {
    if s.colonists@.len() > spec_habitat_capacity(s) {
        s.colonists@.len() - spec_habitat_capacity(s)
    } else {
        0
    }
}

pub open spec fn consumed_detail(need: int, meals: int, remaining: int) -> Seq<char> {
    signed_decimal(need) + " supplies used after "@ + signed_decimal(meals) + " prepared meals. "@
        + signed_decimal(remaining) + " remain."@
}

pub open spec fn shortage_detail(shortage: int) -> Seq<char> {
    "The colony was short "@ + signed_decimal(shortage) + " supplies. Mood dropped across the settlement."@
}

pub open spec fn status_title(c: ColonyCondition) -> Seq<char> {
    "Colony status: "@ + crate::resources::spec_condition_label(c)
}

pub open spec fn status_detail(supplies: int, salvage: int, mood: int, deficit: int) -> Seq<char> {
    "Supplies "@ + signed_decimal(supplies) + ", salvage "@ + signed_decimal(salvage) + ", average mood "@
        + signed_decimal(mood) + ", shelter deficit "@ + signed_decimal(deficit) + "."@
}

pub open spec fn low_supplies_detail(supplies: int, need: int) -> Seq<char> {
    signed_decimal(supplies) + " supplies remain against a daily need of "@ + signed_decimal(need) + "."@
}

/// Everything but the log and the stockpile is unchanged.
pub open spec fn same_but_log_and_resources(a: GameState, b: GameState) -> bool {
    &&& b.tick == a.tick
    &&& b.time == a.time
    &&& b.grid == a.grid
    &&& b.colonists == a.colonists
    &&& b.social_history == a.social_history
    &&& b.missions == a.missions
    &&& b.priority == a.priority
    &&& b.technology == a.technology
    &&& b.scenario == a.scenario
    &&& b.building_system == a.building_system
}

/// The last log entry has this category, title, and detail, and the log is
/// the old one with that entry appended under the cap.
pub open spec fn logged(a: GameState, b: GameState, category: LogCategory, title: Seq<char>, detail: Seq<char>) -> bool {
    &&& b.event_log@ == crate::game_state::capped_log(a.event_log@, b.event_log@.last())
    &&& b.event_log@.last().category == category
    &&& b.event_log@.last().title@ == title
    &&& b.event_log@.last().detail@ == detail
    &&& b.event_log@.last().day == crate::time::spec_day(a.tick)
    &&& b.event_log@.last().hour == crate::time::spec_hour(a.tick)
    &&& b.event_log@.last().minute == crate::time::spec_minute(a.tick)
}

fn consumed_text(need: i32, meals: i32, remaining: i32) -> (r: String)
    ensures
        r@ == consumed_detail(need as int, meals as int, remaining as int),
{
    let mut s = String::new();
    push_signed(&mut s, need as i64);
    s.append(" supplies used after ");
    push_signed(&mut s, meals as i64);
    s.append(" prepared meals. ");
    push_signed(&mut s, remaining as i64);
    s.append(" remain.");
    s
}

fn shortage_text(shortage: i32) -> (r: String)
    ensures
        r@ == shortage_detail(shortage as int),
{
    let mut s = String::new();
    s.append("The colony was short ");
    push_signed(&mut s, shortage as i64);
    s.append(" supplies. Mood dropped across the settlement.");
    s
}

fn status_texts(c: ColonyCondition, supplies: i32, salvage: i32, mood: i32, deficit: u32) -> (r: (String, String))
    ensures
        r.0@ == status_title(c),
        r.1@ == status_detail(supplies as int, salvage as int, mood as int, deficit as int),
{
    let mut t = String::new();
    t.append("Colony status: ");
    t.append(c.label());
    let mut s = String::new();
    s.append("Supplies ");
    push_signed(&mut s, supplies as i64);
    s.append(", salvage ");
    push_signed(&mut s, salvage as i64);
    s.append(", average mood ");
    push_signed(&mut s, mood as i64);
    s.append(", shelter deficit ");
    push_signed(&mut s, deficit as i64);
    s.append(".");
    (t, s)
}

fn low_supplies_text(supplies: i32, need: i32) -> (r: String)
    ensures
        r@ == low_supplies_detail(supplies as int, need as int),
{
    let mut s = String::new();
    push_signed(&mut s, supplies as i64);
    s.append(" supplies remain against a daily need of ");
    push_signed(&mut s, need as i64);
    s.append(".");
    s
}

/// The condition, stable-day count, and stockpile after the condition is
/// re-judged with the given average mood.
pub open spec fn condition_updated(old_state: GameState, average_mood: int, r: ResourceState) -> bool {
    let deficit = spec_shelter_deficit(old_state);
    let next = spec_next_condition(old_state.resources.supplies as int, effective_mood(average_mood, deficit),
        spec_daily_need(old_state), deficit);
    &&& r.condition == next
    &&& r.stable_days == (if next == ColonyCondition::Stable { old_state.resources.stable_days + 1 } else { 0 })
}

/// The condition judgement case by case. With `eff` the average mood less
/// six points per colonist without a sleeper slot (never below zero) and
/// `floor` the daily need counted as at least one: the colony collapses
/// exactly when it is out of supplies and `eff` is under 15; it is critical
/// when otherwise out of supplies or `eff` is under 25; it is stable exactly
/// when it holds two days' supplies, `eff` is at least 45 and everyone has
/// a slot; stable days count up while stable and reset otherwise.
pub open spec fn condition_by_case(s: GameState, average_mood: int, r: ResourceState) -> bool {
    let deficit = spec_shelter_deficit(s);
    let raw = average_mood - 6 * deficit;
    let eff = if raw > 0 { raw } else { 0 };
    let need = spec_daily_need(s);
    let floor = if need > 1 { need } else { 1 };
    let supplies = s.resources.supplies as int;
    &&& (r.condition == ColonyCondition::Collapsed <==> supplies <= 0 && eff < 15)
    &&& (r.condition == ColonyCondition::Critical <==> !(supplies <= 0 && eff < 15) && (supplies <= 0 || eff < 25))
    &&& (r.condition == ColonyCondition::Stable <==> supplies >= 2 * floor && eff >= 45 && deficit == 0)
    &&& r.stable_days == (if r.condition == ColonyCondition::Stable { s.resources.stable_days + 1 } else { 0 })
}

/// A colony with someone lacking a sleeper slot, short of two days'
/// supplies, or with effective mood under 45 is never judged stable, and
/// its stable-day count resets; a judgement always follows the cases of
/// `condition_by_case`.
pub proof fn law_condition_judgement(s: GameState, average_mood: int, r: ResourceState)
    requires
        condition_updated(s, average_mood, r),
    ensures
        condition_by_case(s, average_mood, r),
        spec_shelter_deficit(s) > 0 ==> r.condition != ColonyCondition::Stable && r.stable_days == 0,
        s.resources.supplies < 2 * (if spec_daily_need(s) > 1 { spec_daily_need(s) } else { 1 })
            ==> r.condition != ColonyCondition::Stable && r.stable_days == 0,
        average_mood < 45 ==> r.condition != ColonyCondition::Stable && r.stable_days == 0,
{
}

/// The daily need case by case: one supply per colonist, three per
/// colonist in a colony of four or more without a Mess Hall; less one per
/// prepared meal and one for each of Hydroponic Planning and Nutrient
/// Culture; never below zero.
pub open spec fn need_by_case(s: GameState, r: int) -> bool {
    let n = s.colonists@.len() as int;
    let crowded = n >= 4 && count_type(s.building_system.placed(), BuildingType::MessHall) == 0;
    let base = if crowded { 3 * n } else { n };
    let techs = (if s.technology.unlocked@.contains(crate::technology::TechId::HydroponicPlanning) { 1int } else { 0int })
        + (if s.technology.unlocked@.contains(crate::technology::TechId::NutrientCulture) { 1int } else { 0int });
    let net = base - s.resources.prepared_meals - techs;
    r == (if net > 0 { net } else { 0 })
}

/// Capacities case by case: storage holds 30 supplies plus 20 per Storage
/// and 20 more with Storage Lattice; each Habitat sleeps two, three with
/// Modular Habitats.
pub open spec fn capacities_by_case(s: GameState, storage: int, habitat: int) -> bool {
    let storages = count_type(s.building_system.placed(), BuildingType::Storage) as int;
    let habitats = count_type(s.building_system.placed(), BuildingType::Habitat) as int;
    &&& storage == 30 + 20 * storages
        + (if s.technology.unlocked@.contains(crate::technology::TechId::StorageLattice) { 20int } else { 0int })
    &&& habitat == habitats * (if s.technology.unlocked@.contains(crate::technology::TechId::ModularHabitats) { 3int } else { 2int })
}

/// The supply rules: the daily need follows `need_by_case` and is never
/// negative and never more than three per colonist; a Mess Hall or a small
/// crew keeps it at most one per colonist; storage always holds at least
/// 30; the shelter deficit is the colonists beyond the sleeper slots.
pub proof fn law_supply_rules(s: GameState)
    ensures
        need_by_case(s, spec_daily_need(s)),
        capacities_by_case(s, spec_storage_capacity(s), spec_habitat_capacity(s)),
        0 <= spec_daily_need(s),
        s.resources.prepared_meals >= 0 ==> spec_daily_need(s) <= 3 * s.colonists@.len(),
        (s.colonists@.len() < 4 || count_type(s.building_system.placed(), BuildingType::MessHall) > 0)
            && s.resources.prepared_meals >= 0 ==> spec_daily_need(s) <= s.colonists@.len(),
        spec_storage_capacity(s) >= 30,
        spec_habitat_capacity(s) >= 0,
        spec_shelter_deficit(s) + spec_habitat_capacity(s) >= s.colonists@.len(),
        spec_shelter_deficit(s) > 0 ==> spec_shelter_deficit(s) + spec_habitat_capacity(s) == s.colonists@.len(),
{
}

pub struct ResourceSystem;

impl ResourceSystem {
    /// Whether the colony's counts and stocks are within the limits the
    /// supply and condition rules compute in.
    pub fn sizes_within_limits(state: &GameState) -> (r: bool)
        ensures
            r == sizes_ok(*state),
    {
        state.colonists.len() <= 0x100_0000 && state.building_system.building_count() <= 0x100_0000
            && -0x1000_0000 <= state.resources.prepared_meals && state.resources.prepared_meals <= 0x1000_0000
            && -0x1000_0000 <= state.resources.supplies && state.resources.supplies <= 0x1000_0000
            && -0x1000_0000 <= state.resources.salvage && state.resources.salvage <= 0x1000_0000
    }

    /// How many placed buildings have the given type.
    pub fn building_count(buildings: &BuildingSystem, building_type: BuildingType) -> (r: usize)
        ensures
            r == count_type(buildings.placed(), building_type),
    {
        let bs = buildings.buildings();
        let mut count: usize = 0;
        let mut i: usize = 0;
        while i < bs.len()
            invariant
                bs@ == buildings.placed(),
                i <= bs@.len(),
                count == count_type(bs@.take(i as int), building_type),
                count <= i,
            decreases bs@.len() - i,
        {
            assert(bs@.take(i + 1).drop_last() == bs@.take(i as int));
            if bs[i].building_type == building_type {
                count = count + 1;
            }
            i = i + 1;
        }
        assert(bs@.take(bs@.len() as int) == bs@);
        count
    }

    pub fn daily_supply_need(state: &GameState) -> (r: i32)
        requires
            raw_daily_need(*state) <= i32::MAX,
        ensures
            r == spec_daily_need(*state),
            need_by_case(*state, r as int),
    {
        let n = state.colonists.len() as i64;
        let penalty: i64 = if state.colonists.len() >= 4
            && Self::building_count(&state.building_system, BuildingType::MessHall) == 0 {
            n * 2
        } else {
            0
        };
        let raw = n + penalty - state.resources.prepared_meals as i64
            - state.technology.daily_supply_reduction() as i64;
        if raw > 0 { raw as i32 } else { 0 }
    }

    pub fn storage_capacity(state: &GameState) -> (r: i32)
        requires
            spec_storage_capacity(*state) <= i32::MAX,
        ensures
            r == spec_storage_capacity(*state),
            capacities_by_case(*state, r as int, spec_habitat_capacity(*state)),
    {
        let storage_count = Self::building_count(&state.building_system, BuildingType::Storage);
        proof {
            lemma_count_type_bounded(state.building_system.placed(), BuildingType::Storage);
        }
        BASE_STORAGE_CAPACITY + storage_count as i32 * STORAGE_CAPACITY_BONUS
            + state.technology.storage_capacity_bonus()
    }

    /// Sleeper slots: two per Habitat, three with Modular Habitats.
    pub fn habitat_capacity(state: &GameState) -> (r: u32)
        requires
            spec_habitat_capacity(*state) <= u32::MAX,
        ensures
            r == spec_habitat_capacity(*state),
            capacities_by_case(*state, spec_storage_capacity(*state), r as int),
    {
        let habitat_count = Self::building_count(&state.building_system, BuildingType::Habitat);
        proof {
            lemma_count_type_bounded(state.building_system.placed(), BuildingType::Habitat);
        }
        let per_habitat: u32 = 2 + state.technology.habitat_capacity_bonus();
        if per_habitat == 3 {
            habitat_count as u32 * 3
        } else {
            habitat_count as u32 * 2
        }
    }

    /// Colonists without a sleeper slot.
    pub fn shelter_deficit(state: &GameState) -> (r: u32)
        requires
            sizes_ok(*state),
        ensures
            r == (if state.colonists@.len() > spec_habitat_capacity(*state) {
                state.colonists@.len() - spec_habitat_capacity(*state)
            } else {
                0
            }),
    {
        proof {
            lemma_capacities_fit(*state);
        }
        (state.colonists.len() as u32).saturating_sub(Self::habitat_capacity(state))
    }

    pub fn can_afford_building(state: &GameState, building_type: BuildingType) -> (r: bool)
        ensures
            r == (state.resources.salvage >= crate::building::spec_salvage_cost(building_type)),
    {
        state.resources.salvage >= building_type.salvage_cost()
    }

    /// Starts a new day: the colony eats its daily need, prepared meals are
    /// used up, the outcome is logged, and supplies beyond storage are lost.
    /// Returns the shortage; the mood loss it causes is applied where mood
    /// is kept, before the day is settled with `settle_new_day`.
    pub fn handle_new_day(state: &mut GameState) -> (shortage: i32)
        requires
            sizes_ok(*old(state)),
            old(state).resources.supplies >= 0,
        ensures
            ({
                let need = spec_daily_need(*old(state));
                let old_supplies = old(state).resources.supplies as int;
                let left = if need > old_supplies { 0 } else { old_supplies - need };
                let cap = spec_storage_capacity(*old(state));
                &&& shortage == (if need > old_supplies { need - old_supplies } else { 0 })
                &&& final(state).resources.supplies == (if left > cap { cap } else { left })
                &&& final(state).resources.prepared_meals == 0
                &&& final(state).resources.salvage == old(state).resources.salvage
                &&& final(state).resources.condition == old(state).resources.condition
                &&& final(state).resources.stable_days == old(state).resources.stable_days
                &&& shortage == 0 ==> logged(*old(state), *final(state), LogCategory::Resource,
                    "Daily supplies consumed"@,
                    consumed_detail(need, old(state).resources.prepared_meals as int, left))
                &&& shortage != 0 ==> logged(*old(state), *final(state), LogCategory::Resource,
                    "Ration crisis"@, shortage_detail(shortage as int))
            }),
            same_but_log_and_resources(*old(state), *final(state)),
            sizes_ok(*final(state)),
            final(state).resources.supplies >= 0,
            final(state).resources.supplies >= 0,
    {
        let need = Self::daily_supply_need(state);
        let prepared_meals = state.resources.prepared_meals;
        state.resources.prepared_meals = 0;
        let shortage = state.resources.consume_supplies(need);
        if shortage == 0 {
            let detail = consumed_text(need, prepared_meals, state.resources.supplies);
            state.push_log(LogCategory::Resource, text("Daily supplies consumed"), detail);
        } else {
            let detail = shortage_text(shortage);
            state.push_log(LogCategory::Resource, text("Ration crisis"), detail);
        }
        Self::clamp_supplies_to_storage(state);
        shortage
    }

    /// Finishes a new day once moods reflect any shortage: the condition is
    /// re-judged, then low supplies are reported (see `update_condition` for
    /// the two moods).
    pub fn settle_new_day(state: &mut GameState, average_mood: i32, shown_mood: i32)
        requires
            sizes_ok(*old(state)),
            old(state).resources.stable_days < u32::MAX,
        ensures
            sizes_ok(*final(state)),
            condition_updated(*old(state), average_mood as int, final(state).resources),
            final(state).resources.supplies == old(state).resources.supplies,
            same_but_log_and_resources(*old(state), *final(state)),
            ({
                let need = spec_daily_need(*old(state));
                let floor = if need > 1 { need } else { 1 };
                let supplies = old(state).resources.supplies as int;
                &&& supplies <= 2 * floor ==> final(state).event_log@.len() > 0
                    && final(state).event_log@.last().category == LogCategory::Resource
                    && final(state).event_log@.last().title@ == "Supplies are low"@
                    && final(state).event_log@.last().detail@ == low_supplies_detail(supplies, floor)
                &&& supplies > 2 * floor && final(state).resources.condition == old(state).resources.condition
                    ==> final(state).event_log == old(state).event_log
            }),
    {
        Self::update_condition(state, average_mood, shown_mood);
        Self::log_low_supplies(state);
    }

    /// Judges the colony condition from supplies, the colonists' average
    /// mood (`average_mood`: whole points, rounded down), and shelter; counts
    /// stable days and logs a change of condition, printing the average mood
    /// as `shown_mood` (rounded to the nearest whole point).
    pub fn update_condition(state: &mut GameState, average_mood: i32, shown_mood: i32)
        requires
            sizes_ok(*old(state)),
            old(state).resources.stable_days < u32::MAX,
        ensures
            condition_updated(*old(state), average_mood as int, final(state).resources),
            condition_by_case(*old(state), average_mood as int, final(state).resources),
            final(state).resources.supplies == old(state).resources.supplies,
            final(state).resources.salvage == old(state).resources.salvage,
            final(state).resources.prepared_meals == old(state).resources.prepared_meals,
            old(state).resources.condition == final(state).resources.condition ==> final(state).event_log == old(state).event_log,
            old(state).resources.condition != final(state).resources.condition ==> logged(*old(state), *final(state),
                LogCategory::Colony, status_title(final(state).resources.condition),
                status_detail(old(state).resources.supplies as int, old(state).resources.salvage as int,
                    shown_mood as int, spec_shelter_deficit(*old(state)))),
            same_but_log_and_resources(*old(state), *final(state)),
            sizes_ok(*final(state)),
    {
        let previous = state.resources.condition;
        let shelter_deficit = Self::shelter_deficit(state);
        let effective: i64 = if (average_mood as i64) - (shelter_deficit as i64) * 6 > 0 {
            (average_mood as i64) - (shelter_deficit as i64) * 6
        } else {
            0
        };
        let need = Self::daily_supply_need(state);
        let daily_need: i64 = if need > 1 { need as i64 } else { 1 };
        let supplies = state.resources.supplies as i64;
        let next = if supplies <= 0 && effective < 15 {
            ColonyCondition::Collapsed
        } else if supplies <= 0 || effective < 25 {
            ColonyCondition::Critical
        } else if supplies < daily_need * 2 || effective < 45 || shelter_deficit > 0 {
            ColonyCondition::Strained
        } else {
            ColonyCondition::Stable
        };
        if next == ColonyCondition::Stable {
            state.resources.stable_days = state.resources.stable_days + 1;
        } else {
            state.resources.stable_days = 0;
        }
        state.resources.condition = next;
        if previous != next {
            let (title, detail) = status_texts(next, state.resources.supplies, state.resources.salvage, shown_mood, shelter_deficit);
            state.push_log(LogCategory::Colony, title, detail);
        }
    }

    /// Drops supplies beyond storage capacity.
    pub fn clamp_supplies_to_storage(state: &mut GameState)
        requires
            sizes_ok(*old(state)),
        ensures
            final(state).resources.supplies == (if old(state).resources.supplies > spec_storage_capacity(*old(state)) {
                spec_storage_capacity(*old(state))
            } else {
                old(state).resources.supplies as int
            }),
            final(state).resources.salvage == old(state).resources.salvage,
            final(state).resources.prepared_meals == old(state).resources.prepared_meals,
            final(state).resources.condition == old(state).resources.condition,
            final(state).resources.stable_days == old(state).resources.stable_days,
            final(state).event_log == old(state).event_log,
            same_but_log_and_resources(*old(state), *final(state)),
            sizes_ok(*final(state)),
    {
        proof {
            lemma_capacities_fit(*state);
        }
        let capacity = Self::storage_capacity(state);
        if state.resources.supplies > capacity {
            state.resources.supplies = capacity;
        }
    }

    /// Stores supplies produced by work up to storage capacity and returns
    /// how many were wasted.
    pub fn add_supplies_from_work(state: &mut GameState, amount: i32) -> (wasted: i32)
        requires
            sizes_ok(*old(state)),
            amount >= 0,
            old(state).resources.supplies >= 0,
            old(state).resources.supplies + amount <= i32::MAX,
        ensures
            ({
                let cap = spec_storage_capacity(*old(state));
                let total = old(state).resources.supplies + amount;
                &&& wasted == (if total > cap { total - cap } else { 0 })
                &&& final(state).resources.supplies == (if total > cap { cap } else { total })
            }),
            final(state).resources.salvage == old(state).resources.salvage,
            final(state).resources.prepared_meals == old(state).resources.prepared_meals,
            final(state).resources.condition == old(state).resources.condition,
            final(state).resources.stable_days == old(state).resources.stable_days,
            final(state).event_log == old(state).event_log,
            same_but_log_and_resources(*old(state), *final(state)),
    {
        proof {
            lemma_capacities_fit(*state);
        }
        let capacity = Self::storage_capacity(state);
        proof {
            lemma_count_type_bounded(state.building_system.placed(), BuildingType::Storage);
        }
        state.resources.add_supplies(amount, capacity)
    }

    fn log_low_supplies(state: &mut GameState)
        requires
            sizes_ok(*old(state)),
        ensures
            ({
                let need = need_floor(spec_daily_need(*old(state)));
                &&& old(state).resources.supplies > need * 2 ==> final(state).event_log == old(state).event_log
                &&& old(state).resources.supplies <= need * 2 ==> logged(*old(state), *final(state), LogCategory::Resource,
                    "Supplies are low"@, low_supplies_detail(old(state).resources.supplies as int, need))
            }),
            final(state).resources == old(state).resources,
            same_but_log_and_resources(*old(state), *final(state)),
            sizes_ok(*final(state)),
    {
        let need = Self::daily_supply_need(state);
        let daily_need: i32 = if need > 1 { need } else { 1 };
        if state.resources.supplies as i64 > daily_need as i64 * 2 {
            return;
        }
        let detail = low_supplies_text(state.resources.supplies, daily_need);
        state.push_log(LogCategory::Resource, text("Supplies are low"), detail);
    }
}

} // verus!
