//! Colonists: their states, roles, pins, and relationships.
use crate::building::BuildingType;
use crate::types::Position;
use std::collections::HashMap;
use vstd::prelude::*;

verus! {

broadcast use vstd::std_specs::hash::group_hash_axioms;

/// What a colonist is doing right now.
#[derive(Clone, Copy, Debug, PartialEq, Eq, Structural)]
pub enum ColonistState {
    Idle,
    Moving { target: Position },
    Working,
    Eating,
    Sleeping,
    OnMission { mission_id: u32 },
}

/// The activity a colonist's schedule asks for.
#[derive(Clone, Copy, Debug, PartialEq, Eq, Structural)]
pub enum ActivityType {
    Work,
    Eat,
    Sleep,
    Relax,
}

/// Where a colonist's current activity takes place.
#[derive(Clone, Copy, Debug, PartialEq, Eq, Structural)]
pub enum ActivityLocation {
    Unset,
    Building { building_id: u32, building_type: BuildingType },
    Ground(Position),
}

impl ActivityLocation {
    pub fn default() -> (r: ActivityLocation)
        ensures
            r == ActivityLocation::Unset,
    {
        ActivityLocation::Unset
    }

    pub fn building_id(&self) -> (r: Option<u32>)
        ensures
            r == (match *self {
                ActivityLocation::Building { building_id, .. } => Some(building_id),
                _ => None::<u32>,
            }),
    {
        match self {
            ActivityLocation::Building { building_id, .. } => Some(*building_id),
            _ => None,
        }
    }

    pub fn building_type(&self) -> (r: Option<BuildingType>)
        ensures
            r == (match *self {
                ActivityLocation::Building { building_type, .. } => Some(building_type),
                _ => None::<BuildingType>,
            }),
    {
        match self {
            ActivityLocation::Building { building_type, .. } => Some(*building_type),
            _ => None,
        }
    }
}

#[derive(Clone, Copy, Debug, PartialEq, Eq, Structural)]
pub enum Trait {
    HardWorker,
    Lazy,
    FastWalker,
    Gourmet,
}

/// A colonist's work role.
#[derive(Clone, Copy, Debug, PartialEq, Eq, Structural)]
pub enum JobPreference {
    Explorer,
    Builder,
    Cook,
    Hauler,
    Unassigned,
}

/// The building where a role works.
pub open spec fn spec_work_building(j: JobPreference) -> BuildingType {
    match j {
        JobPreference::Explorer => BuildingType::ExplorationGate,
        JobPreference::Builder => BuildingType::Workshop,
        JobPreference::Cook => BuildingType::MessHall,
        JobPreference::Hauler => BuildingType::Storage,
        JobPreference::Unassigned => BuildingType::Workshop,
    }
}

impl JobPreference {
    /// The building type where this role works.
    pub fn work_building_type(self) -> (r: BuildingType)
        ensures
            r == spec_work_building(self),
    {
        match self {
            JobPreference::Explorer => BuildingType::ExplorationGate,
            JobPreference::Builder => BuildingType::Workshop,
            JobPreference::Cook => BuildingType::MessHall,
            JobPreference::Hauler => BuildingType::Storage,
            JobPreference::Unassigned => BuildingType::Workshop,
        }
    }

    pub fn label(self) -> (r: &'static str)
        ensures
            r@ == (match self {
                JobPreference::Explorer => "Explorer"@,
                JobPreference::Builder => "Builder"@,
                JobPreference::Cook => "Cook"@,
                JobPreference::Hauler => "Hauler"@,
                JobPreference::Unassigned => "Unassigned"@,
            }),
    {
        proof {
            reveal_strlit("Explorer");
            reveal_strlit("Builder");
            reveal_strlit("Cook");
            reveal_strlit("Hauler");
            reveal_strlit("Unassigned");
        }
        match self {
            JobPreference::Explorer => "Explorer",
            JobPreference::Builder => "Builder",
            JobPreference::Cook => "Cook",
            JobPreference::Hauler => "Hauler",
            JobPreference::Unassigned => "Unassigned",
        }
    }
}

/// The band a relationship value falls in.
#[derive(Clone, Copy, Debug, PartialEq, Eq, Structural)]
pub enum RelationshipBand {
    Close,
    Friendly,
    Neutral,
    Tense,
    Hostile,
}

pub open spec fn spec_band(value: int) -> RelationshipBand {
    if value >= 30 {
        RelationshipBand::Close
    } else if value >= 10 {
        RelationshipBand::Friendly
    } else if value <= -30 {
        RelationshipBand::Hostile
    } else if value <= -10 {
        RelationshipBand::Tense
    } else {
        RelationshipBand::Neutral
    }
}

/// The band of a value by its thresholds: Close from 30 up, Friendly from
/// 10 to 29, Neutral strictly between -10 and 10, Tense from -29 to -10,
/// Hostile from -30 down.
pub open spec fn band_by_threshold(v: int, b: RelationshipBand) -> bool {
    &&& (b == RelationshipBand::Close <==> v >= 30)
    &&& (b == RelationshipBand::Friendly <==> 10 <= v < 30)
    &&& (b == RelationshipBand::Neutral <==> -10 < v < 10)
    &&& (b == RelationshipBand::Tense <==> -30 < v <= -10)
    &&& (b == RelationshipBand::Hostile <==> v <= -30)
}

/// A band's rank from Hostile (0) up to Close (4).
pub open spec fn band_rank(b: RelationshipBand) -> int {
    match b {
        RelationshipBand::Hostile => 0,
        RelationshipBand::Tense => 1,
        RelationshipBand::Neutral => 2,
        RelationshipBand::Friendly => 3,
        RelationshipBand::Close => 4,
    }
}

/// Bands follow their thresholds and never fall as the value rises.
pub proof fn law_bands(v: int, w: int)
    ensures
        band_by_threshold(v, spec_band(v)),
        v <= w ==> band_rank(spec_band(v)) <= band_rank(spec_band(w)),
{
}

pub open spec fn spec_band_label(b: RelationshipBand) -> Seq<char> {
    match b {
        RelationshipBand::Close => "Close"@,
        RelationshipBand::Friendly => "Friendly"@,
        RelationshipBand::Neutral => "Neutral"@,
        RelationshipBand::Tense => "Tense"@,
        RelationshipBand::Hostile => "Hostile"@,
    }
}

impl RelationshipBand {
    pub fn from_value(value: i32) -> (r: RelationshipBand)
        ensures
            r == spec_band(value as int),
            band_by_threshold(value as int, r),
    {
        if value >= 30 {
            RelationshipBand::Close
        } else if value >= 10 {
            RelationshipBand::Friendly
        } else if value <= -30 {
            RelationshipBand::Hostile
        } else if value <= -10 {
            RelationshipBand::Tense
        } else {
            RelationshipBand::Neutral
        }
    }

    /// Tense and hostile pairs are a risk to keep together.
    pub fn is_risk(self) -> (r: bool)
        ensures
            r == (self == RelationshipBand::Tense || self == RelationshipBand::Hostile),
    {
        match self {
            RelationshipBand::Tense | RelationshipBand::Hostile => true,
            _ => false,
        }
    }
}

/// The label shown for a relationship value.
pub fn relationship_label(value: i32) -> (r: &'static str)
    ensures
        r@ == spec_band_label(spec_band(value as int)),
{
    proof {
        reveal_strlit("Close");
        reveal_strlit("Friendly");
        reveal_strlit("Neutral");
        reveal_strlit("Tense");
        reveal_strlit("Hostile");
    }
    if value >= 30 {
        "Close"
    } else if value >= 10 {
        "Friendly"
    } else if value <= -30 {
        "Hostile"
    } else if value <= -10 {
        "Tense"
    } else {
        "Neutral"
    }
}

/// A colonist: identity, role, current activity, pins to buildings and
/// partners, mission and injury state, and one-way relationship values
/// toward other colonists (by id, from -50 to +50).
#[derive(Clone, Debug)]
pub struct Colonist {
    pub id: u32,
    pub name: String,
    pub portrait_id: u32,
    pub position: Position,
    pub state: ColonistState,
    pub current_activity: ActivityType,
    pub activity_location: ActivityLocation,
    pub trait_data: Trait,
    pub job_preference: JobPreference,
    pub relationships: HashMap<u32, i32>,
    pub assigned_habitat: Option<u32>,
    pub assigned_workplace: Option<u32>,
    pub preferred_partner_id: Option<u32>,
    pub avoided_partner_id: Option<u32>,
    pub injured_until_tick: Option<u64>,
    pub active_mission_id: Option<u32>,
    pub last_refusal_tick: u64,
    pub last_social_strain_tick: u64,
}

/// How `c` feels about colonist `other` (0 when no value is recorded).
pub open spec fn rel(c: Colonist, other: u32) -> int {
    if c.relationships@.contains_key(other) {
        c.relationships@[other] as int
    } else {
        0
    }
}

/// Half of `v`, rounded toward zero as integer division does.
pub open spec fn trunc_half(v: int) -> int {
    if v >= 0 { v / 2 } else { -((-v) / 2) }
}

/// The average of two one-way relationship values, where an unrecorded
/// (zero) side defers to the other side.
pub open spec fn pair_average(first: int, second: int) -> int {
    if first == 0 {
        second
    } else if second == 0 {
        first
    } else {
        trunc_half(first + second)
    }
}

/// Relationship values are small enough that two of them add without overflow.
pub open spec fn relationships_summable(c: Colonist) -> bool {
    forall|k: u32| c.relationships@.contains_key(k) ==> -0x4000_0000 <= #[trigger] c.relationships@[k] < 0x4000_0000
}

/// Every colonist's relationship values can be added pairwise.
pub open spec fn all_summable(cs: Seq<Colonist>) -> bool {
    forall|k: int| 0 <= k < cs.len() ==> relationships_summable(#[trigger] cs[k])
}

/// Relationship values stay within -50..=50.
pub open spec fn relationships_bounded(c: Colonist) -> bool {
    forall|k: u32| c.relationships@.contains_key(k) ==> -50 <= #[trigger] c.relationships@[k] <= 50
}

pub open spec fn spec_on_mission(c: Colonist) -> bool {
    c.state is OnMission
}

pub open spec fn spec_hurt(c: Colonist, tick: u64) -> bool {
    c.injured_until_tick matches Some(t) && t > tick
}

pub open spec fn spec_can_start_mission(c: Colonist, tick: u64) -> bool {
    !spec_on_mission(c) && !spec_hurt(c, tick)
}

impl Colonist {
    pub fn new(id: u32, name: String, position: Position, trait_data: Trait, job_preference: JobPreference) -> (c: Colonist)
        ensures
            c.id == id,
            c.name@ == name@,
            c.portrait_id == 0,
            c.position == position,
            c.state == ColonistState::Idle,
            c.current_activity == ActivityType::Relax,
            c.activity_location == ActivityLocation::Unset,
            c.trait_data == trait_data,
            c.job_preference == job_preference,
            c.relationships@ == Map::<u32, i32>::empty(),
            c.assigned_habitat is None,
            c.assigned_workplace is None,
            c.preferred_partner_id is None,
            c.avoided_partner_id is None,
            c.injured_until_tick is None,
            c.active_mission_id is None,
            c.last_refusal_tick == 0,
            c.last_social_strain_tick == 0,
    {
        Colonist {
            id,
            name,
            portrait_id: 0,
            position,
            state: ColonistState::Idle,
            current_activity: ActivityType::Relax,
            activity_location: ActivityLocation::Unset,
            trait_data,
            job_preference,
            relationships: HashMap::new(),
            assigned_habitat: None,
            assigned_workplace: None,
            preferred_partner_id: None,
            avoided_partner_id: None,
            injured_until_tick: None,
            active_mission_id: None,
            last_refusal_tick: 0,
            last_social_strain_tick: 0,
        }
    }

    pub fn is_on_mission(&self) -> (r: bool)
        ensures
            r == spec_on_mission(*self),
    {
        match self.state {
            ColonistState::OnMission { .. } => true,
            _ => false,
        }
    }

    /// Still recovering from a mission injury at the given tick.
    pub fn is_hurt(&self, tick: u64) -> (r: bool)
        ensures
            r == spec_hurt(*self, tick),
    {
        match self.injured_until_tick {
            Some(t) => t > tick,
            None => false,
        }
    }

    pub fn can_start_mission(&self, tick: u64) -> (r: bool)
        ensures
            r == spec_can_start_mission(*self, tick),
    {
        !self.is_on_mission() && !self.is_hurt(tick)
    }

    /// The recorded relationship toward another colonist, or 0.
    pub fn relationship_with(&self, other_id: u32) -> (r: i32)
        ensures
            r == rel(*self, other_id),
    {
        match self.relationships.get(&other_id) {
            Some(v) => *v,
            None => 0,
        }
    }
}

} // verus!
