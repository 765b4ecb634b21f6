//! What the interface derives from the simulation: toolbar modes and
//! building names typed in, sprite poses, status texts, and the social
//! archive export.
use crate::building::BuildingType;
use crate::building_system::PlacementResult;
use crate::colonist::{pair_average, rel, relationships_summable, spec_on_mission, all_summable, Colonist, ColonistState};
use crate::relations::abs;
use crate::roster::{
    adjacent_positions, average_relationship_between, shared_assignment_pin, shared_social_location, spec_shared_location,
    spec_shared_pin,
};
use crate::directives::PairDirective;
use crate::event_log::SocialHistoryEntry;
use crate::text::{chars_equal, decimal, normalize, normalized, plus_signed_decimal, push_decimal, push_plus_signed, push_signed, signed_decimal, text};
use vstd::prelude::*;
use vstd::string::StringExecFns;

verus! {

/// The toolbar tabs.
#[derive(Clone, Copy, Debug, PartialEq, Eq, Structural)]
pub enum ToolbarMode {
    Build,
    Rooms,
    Objects,
    Colony,
    Research,
    Assign,
    Log,
}

pub open spec fn spec_toolbar_mode(name: Seq<char>) -> Option<ToolbarMode> {
    if name == "build"@ {
        Some(ToolbarMode::Build)
    } else if name == "rooms"@ {
        Some(ToolbarMode::Rooms)
    } else if name == "objects"@ {
        Some(ToolbarMode::Objects)
    } else if name == "colony"@ {
        Some(ToolbarMode::Colony)
    } else if name == "research"@ {
        Some(ToolbarMode::Research)
    } else if name == "assign"@ {
        Some(ToolbarMode::Assign)
    } else if name == "log"@ {
        Some(ToolbarMode::Log)
    } else {
        None
    }
}

pub open spec fn spec_building_from_name(name: Seq<char>) -> Option<BuildingType> {
    if name == "habitat"@ {
        Some(BuildingType::Habitat)
    } else if name == "mess_hall"@ || name == "messhall"@ {
        Some(BuildingType::MessHall)
    } else if name == "workshop"@ {
        Some(BuildingType::Workshop)
    } else if name == "storage"@ {
        Some(BuildingType::Storage)
    } else if name == "exploration_gate"@ || name == "explorationgate"@ || name == "gate"@ {
        Some(BuildingType::ExplorationGate)
    } else {
        None
    }
}

/// The toolbar mode a name selects, ignoring surrounding whitespace and
/// ASCII case.
pub fn toolbar_mode_from_name(value: &str) -> (r: Option<ToolbarMode>)
    ensures
        r == spec_toolbar_mode(normalized(value@, false)),
{
    let n = normalize(value, false);
    if chars_equal(&n, "build") {
        Some(ToolbarMode::Build)
    } else if chars_equal(&n, "rooms") {
        Some(ToolbarMode::Rooms)
    } else if chars_equal(&n, "objects") {
        Some(ToolbarMode::Objects)
    } else if chars_equal(&n, "colony") {
        Some(ToolbarMode::Colony)
    } else if chars_equal(&n, "research") {
        Some(ToolbarMode::Research)
    } else if chars_equal(&n, "assign") {
        Some(ToolbarMode::Assign)
    } else if chars_equal(&n, "log") {
        Some(ToolbarMode::Log)
    } else {
        None
    }
}

/// The building kind a name selects, ignoring surrounding whitespace and
/// ASCII case, with spaces and hyphens read as underscores.
pub fn building_type_from_name(value: &str) -> (r: Option<BuildingType>)
    ensures
        r == spec_building_from_name(normalized(value@, true)),
{
    let n = normalize(value, true);
    if chars_equal(&n, "habitat") {
        Some(BuildingType::Habitat)
    } else if chars_equal(&n, "mess_hall") || chars_equal(&n, "messhall") {
        Some(BuildingType::MessHall)
    } else if chars_equal(&n, "workshop") {
        Some(BuildingType::Workshop)
    } else if chars_equal(&n, "storage") {
        Some(BuildingType::Storage)
    } else if chars_equal(&n, "exploration_gate") || chars_equal(&n, "explorationgate") || chars_equal(&n, "gate") {
        Some(BuildingType::ExplorationGate)
    } else {
        None
    }
}

/// The sprite frame a colonist is drawn with.
#[derive(Clone, Copy, Debug, PartialEq, Eq, Structural)]
pub enum SpritePose {
    Idle,
    Moving,
    Working,
    Eating,
    Sleeping,
    Supported,
    SupportedReach,
    Tense,
    TenseGuarded,
}

pub open spec fn spec_pose_for_state(s: ColonistState) -> SpritePose {
    match s {
        ColonistState::Idle => SpritePose::Idle,
        ColonistState::Moving { .. } => SpritePose::Moving,
        ColonistState::Working => SpritePose::Working,
        ColonistState::Eating => SpritePose::Eating,
        ColonistState::Sleeping => SpritePose::Sleeping,
        ColonistState::OnMission { .. } => SpritePose::Moving,
    }
}

/// The pose that shows what a colonist is doing.
pub fn sprite_pose_for_state(state: ColonistState) -> (r: SpritePose)
    ensures
        r == spec_pose_for_state(state),
{
    match state {
        ColonistState::Idle => SpritePose::Idle,
        ColonistState::Moving { .. } => SpritePose::Moving,
        ColonistState::Working => SpritePose::Working,
        ColonistState::Eating => SpritePose::Eating,
        ColonistState::Sleeping => SpritePose::Sleeping,
        ColonistState::OnMission { .. } => SpritePose::Moving,
    }
}

/// A visible reaction to a nearby colonist, with the relationship value
/// behind it.
#[derive(Clone, Copy, Debug, PartialEq, Eq, Structural)]
pub enum SocialBodyLanguage {
    Supported(i32),
    Tense(i32),
}

impl SocialBodyLanguage {
    /// How strong the reaction is: the size of the relationship value.
    pub fn intensity(self) -> (r: i32)
        requires
            match self {
                SocialBodyLanguage::Supported(v) => v != i32::MIN,
                SocialBodyLanguage::Tense(v) => v != i32::MIN,
            },
        ensures
            match self {
                SocialBodyLanguage::Supported(v) => r == (if v < 0 { -v } else { v as int }),
                SocialBodyLanguage::Tense(v) => r == (if v < 0 { -v } else { v as int }),
            },
    {
        match self {
            SocialBodyLanguage::Supported(value) => if value < 0 { -value } else { value },
            SocialBodyLanguage::Tense(value) => if value < 0 { -value } else { value },
        }
    }

    /// The mark drawn over the colonist.
    pub fn symbol(self) -> (r: &'static str)
        ensures
            r@ == (match self {
                SocialBodyLanguage::Supported(_) => "+"@,
                SocialBodyLanguage::Tense(_) => "!"@,
            }),
    {
        match self {
            SocialBodyLanguage::Supported(_) => "+",
            SocialBodyLanguage::Tense(_) => "!",
        }
    }
}

/// Social poses alternate frames every 45 ticks.
pub open spec fn spec_alternate_frame(tick: u64) -> bool {
    (tick / 45) % 2 == 1
}

pub fn social_pose_uses_alternate_frame(tick: u64) -> (r: bool)
    ensures
        r == spec_alternate_frame(tick),
{
    (tick / 45) % 2 == 1
}

pub open spec fn spec_pose_for_colonist(c: Colonist, signal: Option<SocialBodyLanguage>, tick: u64) -> SpritePose {
    match signal {
        Some(SocialBodyLanguage::Supported(_)) => if spec_alternate_frame(tick) {
            SpritePose::SupportedReach
        } else {
            SpritePose::Supported
        },
        Some(SocialBodyLanguage::Tense(_)) => if spec_alternate_frame(tick) {
            SpritePose::TenseGuarded
        } else {
            SpritePose::Tense
        },
        None => spec_pose_for_state(c.state),
    }
}

/// A social reaction overrides the activity pose.
pub fn sprite_pose_for_colonist(colonist: &Colonist, social_signal: Option<SocialBodyLanguage>) -> (r: SpritePose)
    ensures
        r == spec_pose_for_colonist(*colonist, social_signal, 0),
{
    sprite_pose_for_colonist_frame(colonist, social_signal, 0)
}

/// The pose at a given tick: social reactions alternate between two frames.
pub fn sprite_pose_for_colonist_frame(colonist: &Colonist, social_signal: Option<SocialBodyLanguage>, tick: u64) -> (r: SpritePose)
    ensures
        r == spec_pose_for_colonist(*colonist, social_signal, tick),
{
    match social_signal {
        Some(SocialBodyLanguage::Supported(_)) => {
            if social_pose_uses_alternate_frame(tick) {
                SpritePose::SupportedReach
            } else {
                SpritePose::Supported
            }
        },
        Some(SocialBodyLanguage::Tense(_)) => {
            if social_pose_uses_alternate_frame(tick) {
                SpritePose::TenseGuarded
            } else {
                SpritePose::Tense
            }
        },
        None => sprite_pose_for_state(colonist.state),
    }
}

/// The size of a reaction: how strong the feeling behind it is.
pub open spec fn signal_size(s: SocialBodyLanguage) -> int {
    match s {
        SocialBodyLanguage::Supported(v) => abs(v as int),
        SocialBodyLanguage::Tense(v) => abs(v as int),
    }
}

pub open spec fn small_signal(s: SocialBodyLanguage) -> bool {
    match s {
        SocialBodyLanguage::Supported(v) => -0x4000_0000 <= v <= 0x4000_0000,
        SocialBodyLanguage::Tense(v) => -0x4000_0000 <= v <= 0x4000_0000,
    }
}

/// Two colonists are in contact when they share a place or a pin, or
/// stand on the same or neighbouring cells.
pub open spec fn in_contact(a: Colonist, b: Colonist) -> bool {
    ||| spec_shared_location(a.activity_location, b.activity_location)
    ||| spec_shared_pin(a, b)
    ||| abs(a.position.x - b.position.x) + abs(a.position.y - b.position.y) <= 1
}

/// The strongest reaction of `c` to the first `n` colonists: toward each
/// other colonist at home, in contact, whose pair average is at least 20 in
/// size; the first of the largest wins.
pub open spec fn signal_fold(cs: Seq<Colonist>, c: Colonist, n: int) -> Option<SocialBodyLanguage>
    decreases n,
{
    if n <= 0 {
        None
    } else {
        let best = signal_fold(cs, c, n - 1);
        let o = cs[n - 1];
        let v = pair_average(rel(c, o.id), rel(o, c.id));
        if o.id == c.id || spec_on_mission(o) || abs(v) < 20 || !in_contact(c, o) {
            best
        } else {
            let s = if v < 0 { SocialBodyLanguage::Tense(v as i32) } else { SocialBodyLanguage::Supported(v as i32) };
            match best {
                None => Some(s),
                Some(b) => if signal_size(s) > signal_size(b) { Some(s) } else { best },
            }
        }
    }
}

/// A colonist walking, asleep, or away shows no reaction; otherwise its
/// strongest reaction to those around it.
pub open spec fn spec_body_language(cs: Seq<Colonist>, c: Colonist) -> Option<SocialBodyLanguage> {
    if c.state is Moving || c.state is Sleeping || c.state is OnMission {
        None
    } else {
        signal_fold(cs, c, cs.len() as int)
    }
}

/// The visible reaction of a colonist to the others around it.
pub fn social_body_language_for(colonists: &[Colonist], colonist: &Colonist) -> (r: Option<SocialBodyLanguage>)
    requires
        all_summable(colonists@),
        relationships_summable(*colonist),
    ensures
        r == spec_body_language(colonists@, *colonist),
{
    match colonist.state {
        ColonistState::Moving { .. } | ColonistState::Sleeping | ColonistState::OnMission { .. } => return None,
        _ => {},
    }
    let mut best: Option<SocialBodyLanguage> = None;
    let mut i: usize = 0;
    while i < colonists.len()
        invariant
            i <= colonists@.len(),
            all_summable(colonists@),
            relationships_summable(*colonist),
            best == signal_fold(colonists@, *colonist, i as int),
            best matches Some(b) ==> small_signal(b),
        decreases colonists@.len() - i,
    {
        let other = &colonists[i];
        proof {
            assert(relationships_summable(colonists@[i as int]));
        }
        if other.id != colonist.id && !other.is_on_mission() {
            let value = average_relationship_between(colonist, other);
            let size = if value < 0 { -value } else { value };
            if size >= 20 {
                let contact = shared_social_location(colonist, other) || shared_assignment_pin(colonist, other)
                    || adjacent_positions(colonist.position, other.position);
                if contact {
                    let signal = if value < 0 { SocialBodyLanguage::Tense(value) } else { SocialBodyLanguage::Supported(value) };
                    let better = match best {
                        None => true,
                        Some(b) => signal.intensity() > b.intensity(),
                    };
                    if better {
                        best = Some(signal);
                    }
                }
            }
        }
        i = i + 1;
    }
    best
}

/// The one-word status the colonist panel shows.
pub fn colonist_activity_summary(colonist: &Colonist) -> (r: &'static str)
    ensures
        r@ == (match colonist.state {
            ColonistState::Idle => "Idle"@,
            ColonistState::Moving { .. } => "Moving"@,
            ColonistState::Working => "Working"@,
            ColonistState::Eating => "Eating"@,
            ColonistState::Sleeping => "Resting"@,
            ColonistState::OnMission { .. } => "On mission"@,
        }),
{
    match colonist.state {
        ColonistState::Idle => "Idle",
        ColonistState::Moving { .. } => "Moving",
        ColonistState::Working => "Working",
        ColonistState::Eating => "Eating",
        ColonistState::Sleeping => "Resting",
        ColonistState::OnMission { .. } => "On mission",
    }
}

/// Why a placement did or did not happen.
pub fn placement_result_reason(result: &PlacementResult) -> (r: &'static str)
    ensures
        r@ == (match result {
            PlacementResult::Success(_) => "Placement succeeded."@,
            PlacementResult::OutOfBounds => "Footprint leaves the map."@,
            PlacementResult::AreaOccupied => "Footprint overlaps blocked or occupied space."@,
        }),
{
    match result {
        PlacementResult::Success(_) => "Placement succeeded.",
        PlacementResult::OutOfBounds => "Footprint leaves the map.",
        PlacementResult::AreaOccupied => "Footprint overlaps blocked or occupied space.",
    }
}

pub open spec fn spec_directive_log_detail(d: PairDirective, first: Seq<char>, second: Seq<char>) -> Seq<char> {
    match d {
        PairDirective::Pair => first + " and "@ + second
            + " will prefer the same work and recovery spaces when the settlement has a choice."@,
        PairDirective::Separate => first + " and "@ + second
            + " will avoid sharing work and recovery spaces when another option exists."@,
    }
}

/// What a new pair directive means, for the log.
pub fn directive_log_detail(directive: PairDirective, first_name: &str, second_name: &str) -> (r: String)
    ensures
        r@ == spec_directive_log_detail(directive, first_name@, second_name@),
{
    let mut s = String::from_str(first_name);
    s.append(" and ");
    s.append(second_name);
    match directive {
        PairDirective::Pair => s.append(" will prefer the same work and recovery spaces when the settlement has a choice."),
        PairDirective::Separate => s.append(" will avoid sharing work and recovery spaces when another option exists."),
    }
    s
}

/// One report of the archive.
pub open spec fn archive_section(e: SocialHistoryEntry) -> Seq<char> {
    "## Day "@ + decimal(e.day as nat) + ": "@ + e.title@ + "\n\n"@
        + "- Mood: "@ + signed_decimal(e.average_mood as int) + "\n- Relationship: "@
        + plus_signed_decimal(e.average_relationship as int) + "\n- Close pairs: "@ + decimal(e.close_pairs as nat)
        + "\n- Strained pairs: "@ + decimal(e.strained_pairs as nat) + "\n\n"@
        + e.detail@ + "\n\n"@ + "Recommendation: "@ + e.recommendation@ + "\n\n"@
}

/// The reports of `h`, newest first.
pub open spec fn archive_sections(h: Seq<SocialHistoryEntry>) -> Seq<char>
    decreases h.len(),
{
    if h.len() == 0 {
        Seq::empty()
    } else {
        archive_section(h.last()) + archive_sections(h.drop_last())
    }
}

pub open spec fn spec_archive(h: Seq<SocialHistoryEntry>) -> Seq<char> {
    "# The Final Landing Social Archive\n\n"@ + "Reports: "@ + decimal(h.len()) + "\n\n"@ + archive_sections(h)
}

fn push_section(out: &mut String, e: &SocialHistoryEntry)
    ensures
        final(out)@ == old(out)@ + archive_section(*e),
{
    let ghost o = out@;
    out.append("## Day ");
    push_decimal(out, e.day as u64);
    out.append(": ");
    out.append(e.title.as_str());
    out.append("\n\n");
    out.append("- Mood: ");
    push_signed(out, e.average_mood as i64);
    out.append("\n- Relationship: ");
    push_plus_signed(out, e.average_relationship as i64);
    out.append("\n- Close pairs: ");
    push_decimal(out, e.close_pairs as u64);
    out.append("\n- Strained pairs: ");
    push_decimal(out, e.strained_pairs as u64);
    out.append("\n\n");
    out.append(e.detail.as_str());
    out.append("\n\n");
    out.append("Recommendation: ");
    out.append(e.recommendation.as_str());
    out.append("\n\n");
    assert(out@ =~= o + archive_section(*e));
}

/// The social history as a Markdown document, newest report first.
pub fn social_archive_markdown(history: &[SocialHistoryEntry]) -> (r: String)
    ensures
        r@ == spec_archive(history@),
{
    let mut output = text("# The Final Landing Social Archive\n\n");
    output.append("Reports: ");
    push_decimal(&mut output, history.len() as u64);
    output.append("\n\n");
    let ghost head = output@;
    let mut i: usize = history.len();
    assert(history@.take(history@.len() as int) == history@);
    while i > 0
        invariant
            i <= history@.len(),
            output@ + archive_sections(history@.take(i as int)) == head + archive_sections(history@),
        decreases i,
    {
        i = i - 1;
        let ghost before = output@;
        push_section(&mut output, &history[i]);
        proof {
            let t = history@.take(i + 1);
            assert(t.drop_last() == history@.take(i as int));
            assert(t.last() == history@[i as int]);
            assert(archive_sections(t) == archive_section(history@[i as int]) + archive_sections(history@.take(i as int)));
            assert(output@ + archive_sections(history@.take(i as int)) == before + archive_sections(t));
        }
    }
    assert(history@.take(history@.len() as int) == history@);
    assert(archive_sections(history@.take(0)) == Seq::<char>::empty());
    assert(output@ == output@ + archive_sections(history@.take(0)));
    output
}

} // verus!
