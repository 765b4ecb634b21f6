//! Technology research: mission items accumulate and unlock technologies.
use crate::mission::{item_slot, spec_contributes, MissionItem};
use vstd::prelude::*;

verus! {

/// The technologies the colony can unlock.
#[derive(Clone, Copy, Debug, PartialEq, Eq, Structural)]
pub enum TechId {
    FieldMedicine,
    SurveyScanners,
    ModularHabitats,
    HydroponicPlanning,
    StorageLattice,
    NutrientCulture,
}

/// Every technology, in research-panel order.
pub open spec fn spec_all_techs() -> Seq<TechId> {
    seq![
        TechId::FieldMedicine,
        TechId::SurveyScanners,
        TechId::ModularHabitats,
        TechId::HydroponicPlanning,
        TechId::StorageLattice,
        TechId::NutrientCulture,
    ]
}

/// The items, with counts, a technology needs.
pub open spec fn spec_requirements(t: TechId) -> Seq<(MissionItem, u32)> {
    match t {
        TechId::FieldMedicine => seq![(MissionItem::MedicinalGel, 1u32)],
        TechId::SurveyScanners => seq![(MissionItem::AlienCircuit, 1u32)],
        TechId::ModularHabitats => seq![(MissionItem::StructuralAlloy, 1u32)],
        TechId::HydroponicPlanning => seq![(MissionItem::NutrientPods, 1u32)],
        TechId::StorageLattice => seq![(MissionItem::StructuralAlloy, 1u32), (MissionItem::AlienCircuit, 1u32)],
        TechId::NutrientCulture => seq![(MissionItem::NutrientPods, 2u32), (MissionItem::MedicinalGel, 1u32)],
    }
}

/// Whether collected item counts satisfy every requirement of a technology.
pub open spec fn spec_meets(counts: Seq<u32>, t: TechId) -> bool {
    forall|k: int| 0 <= k < spec_requirements(t).len() ==>
        counts[item_slot(#[trigger] spec_requirements(t)[k].0)] >= spec_requirements(t)[k].1
}

/// The technologies of `ts`, in order, that are neither in `unlocked` nor
/// earlier in `ts`, and whose requirements the counts meet.
pub open spec fn newly_unlockable(unlocked: Seq<TechId>, counts: Seq<u32>, ts: Seq<TechId>) -> Seq<TechId>
    decreases ts.len(),
{
    if ts.len() == 0 {
        Seq::empty()
    } else {
        let earlier = newly_unlockable(unlocked, counts, ts.drop_last());
        let t = ts.last();
        if !(unlocked + earlier).contains(t) && spec_meets(counts, t) {
            earlier.push(t)
        } else {
            earlier
        }
    }
}

pub open spec fn spec_tech_name(t: TechId) -> Seq<char> {
    match t {
        TechId::FieldMedicine => "Field Medicine"@,
        TechId::SurveyScanners => "Survey Scanners"@,
        TechId::ModularHabitats => "Modular Habitats"@,
        TechId::HydroponicPlanning => "Hydroponic Planning"@,
        TechId::StorageLattice => "Storage Lattice"@,
        TechId::NutrientCulture => "Nutrient Culture"@,
    }
}

pub open spec fn spec_effect_text(t: TechId) -> Seq<char> {
    match t {
        TechId::FieldMedicine => "Mission injuries recover faster."@,
        TechId::SurveyScanners => "Mission danger is reduced."@,
        TechId::ModularHabitats => "Each Habitat can support one more sleeper."@,
        TechId::HydroponicPlanning => "Daily supply need is reduced by one."@,
        TechId::StorageLattice => "Storage capacity increases."@,
        TechId::NutrientCulture => "Daily supply need is reduced by one more."@,
    }
}

proof fn lemma_newly_unlockable(unlocked: Seq<TechId>, counts: Seq<u32>, ts: Seq<TechId>)
    ensures
        ({
            let n = newly_unlockable(unlocked, counts, ts);
            &&& n.no_duplicates()
            &&& forall|k: int| 0 <= k < n.len() ==> ts.contains(#[trigger] n[k])
                && spec_meets(counts, n[k]) && !unlocked.contains(n[k])
            &&& forall|t: TechId| ts.contains(t) && !unlocked.contains(t) && spec_meets(counts, t)
                ==> #[trigger] n.contains(t)
        }),
    decreases ts.len(),
{
    if ts.len() > 0 {
        let d = ts.drop_last();
        lemma_newly_unlockable(unlocked, counts, d);
        let earlier = newly_unlockable(unlocked, counts, d);
        let n = newly_unlockable(unlocked, counts, ts);
        assert forall|k: int| 0 <= k < n.len() implies ts.contains(#[trigger] n[k])
            && spec_meets(counts, n[k]) && !unlocked.contains(n[k]) by {
            if k < earlier.len() {
                assert(n[k] == earlier[k]);
                let j = choose|j: int| 0 <= j < d.len() && d[j] == earlier[k];
                assert(ts[j] == d[j]);
            } else {
                assert(ts[ts.len() - 1] == ts.last());
                if unlocked.contains(n[k]) {
                    let j = choose|j: int| 0 <= j < unlocked.len() && unlocked[j] == n[k];
                    assert((unlocked + earlier)[j] == unlocked[j]);
                }
            }
        }
        assert forall|t: TechId| ts.contains(t) && !unlocked.contains(t) && spec_meets(counts, t)
            implies #[trigger] n.contains(t) by {
            let j = choose|j: int| 0 <= j < ts.len() && ts[j] == t;
            if j < ts.len() - 1 {
                assert(d[j] == t);
                assert(d.contains(t));
                assert(earlier.contains(t));
                let i = choose|i: int| 0 <= i < earlier.len() && earlier[i] == t;
                assert(n[i] == t);
            } else if (unlocked + earlier).contains(t) {
                let i = choose|i: int| 0 <= i < (unlocked + earlier).len() && (unlocked + earlier)[i] == t;
                if i < unlocked.len() {
                    assert(unlocked[i] == t);
                } else {
                    assert(earlier[i - unlocked.len()] == t);
                    assert(n[i - unlocked.len()] == t);
                }
            } else {
                assert(n[n.len() - 1] == t);
            }
        }
        if n != earlier {
            assert forall|i: int, j: int| 0 <= i < n.len() && 0 <= j < n.len() && i != j implies n[i] != n[j] by {
                if i < earlier.len() && j < earlier.len() {
                } else if i < earlier.len() {
                    assert(n[i] == earlier[i]);
                    assert((unlocked + earlier)[unlocked.len() + i] == earlier[i]);
                } else if j < earlier.len() {
                    assert(n[j] == earlier[j]);
                    assert((unlocked + earlier)[unlocked.len() + j] == earlier[j]);
                }
            }
        }
    }
}

proof fn lemma_meets_monotone(c0: Seq<u32>, c1: Seq<u32>, t: TechId)
    requires
        c0.len() == 5,
        c1.len() == 5,
        forall|i: int| 0 <= i < 5 ==> c0[i] <= #[trigger] c1[i],
        spec_meets(c0, t),
    ensures
        spec_meets(c1, t),
{
    assert forall|k: int| 0 <= k < spec_requirements(t).len() implies
        c1[item_slot(#[trigger] spec_requirements(t)[k].0)] >= spec_requirements(t)[k].1 by {
        let s = item_slot(spec_requirements(t)[k].0);
        assert(c0[s] <= c1[s]);
    }
}

impl TechId {
    pub fn all() -> (r: &'static [TechId])
        ensures
            r@ == spec_all_techs(),
    {
        &[
            TechId::FieldMedicine,
            TechId::SurveyScanners,
            TechId::ModularHabitats,
            TechId::HydroponicPlanning,
            TechId::StorageLattice,
            TechId::NutrientCulture,
        ]
    }

    pub fn name(&self) -> (r: &'static str)
        ensures
            r@ == spec_tech_name(*self),
    {
        proof {
            reveal_strlit("Field Medicine");
            reveal_strlit("Survey Scanners");
            reveal_strlit("Modular Habitats");
            reveal_strlit("Hydroponic Planning");
            reveal_strlit("Storage Lattice");
            reveal_strlit("Nutrient Culture");
        }
        match self {
            TechId::FieldMedicine => "Field Medicine",
            TechId::SurveyScanners => "Survey Scanners",
            TechId::ModularHabitats => "Modular Habitats",
            TechId::HydroponicPlanning => "Hydroponic Planning",
            TechId::StorageLattice => "Storage Lattice",
            TechId::NutrientCulture => "Nutrient Culture",
        }
    }

    pub fn effect_text(&self) -> (r: &'static str)
        ensures
            r@ == spec_effect_text(*self),
    {
        proof {
            reveal_strlit("Mission injuries recover faster.");
            reveal_strlit("Mission danger is reduced.");
            reveal_strlit("Each Habitat can support one more sleeper.");
            reveal_strlit("Daily supply need is reduced by one.");
            reveal_strlit("Storage capacity increases.");
            reveal_strlit("Daily supply need is reduced by one more.");
        }
        match self {
            TechId::FieldMedicine => "Mission injuries recover faster.",
            TechId::SurveyScanners => "Mission danger is reduced.",
            TechId::ModularHabitats => "Each Habitat can support one more sleeper.",
            TechId::HydroponicPlanning => "Daily supply need is reduced by one.",
            TechId::StorageLattice => "Storage capacity increases.",
            TechId::NutrientCulture => "Daily supply need is reduced by one more.",
        }
    }

    pub fn requirements(&self) -> (r: Vec<(MissionItem, u32)>)
        ensures
            r@ == spec_requirements(*self),
    {
        let mut r: Vec<(MissionItem, u32)> = Vec::new();
        match self {
            TechId::FieldMedicine => r.push((MissionItem::MedicinalGel, 1)),
            TechId::SurveyScanners => r.push((MissionItem::AlienCircuit, 1)),
            TechId::ModularHabitats => r.push((MissionItem::StructuralAlloy, 1)),
            TechId::HydroponicPlanning => r.push((MissionItem::NutrientPods, 1)),
            TechId::StorageLattice => {
                r.push((MissionItem::StructuralAlloy, 1));
                r.push((MissionItem::AlienCircuit, 1));
            },
            TechId::NutrientCulture => {
                r.push((MissionItem::NutrientPods, 2));
                r.push((MissionItem::MedicinalGel, 1));
            },
        }
        r
    }
}

/// Collected research items (one count per item kind, indexed by
/// `item_slot`) and the unlocked technologies in unlock order.
#[derive(Clone, Debug)]
pub struct TechnologyState {
    pub item_counts: [u32; 5],
    pub unlocked: Vec<TechId>,
}

impl TechnologyState {
    /// The collection state is sound: no technology appears twice, and a
    /// technology is unlocked exactly when its requirements are met.
    pub open spec fn wf(&self) -> bool {
        &&& self.unlocked@.no_duplicates()
        &&& forall|t: TechId| self.unlocked@.contains(t) <==> spec_meets(self.item_counts@, t)
    }

    pub fn default() -> (s: TechnologyState)
        ensures
            s.item_counts@ == seq![0u32, 0u32, 0u32, 0u32, 0u32],
            s.unlocked@.len() == 0,
            s.wf(),
    {
        let s = TechnologyState { item_counts: [0, 0, 0, 0, 0], unlocked: Vec::new() };
        assert forall|t: TechId| !spec_meets(s.item_counts@, t) by {
            assert(spec_requirements(t)[0].1 >= 1);
            assert(s.item_counts@[item_slot(spec_requirements(t)[0].0)] == 0);
        }
        s
    }

    pub fn has(&self, tech_id: TechId) -> (r: bool)
        ensures
            r == self.unlocked@.contains(tech_id),
    {
        let mut i: usize = 0;
        while i < self.unlocked.len()
            invariant
                i <= self.unlocked@.len(),
                forall|k: int| 0 <= k < i ==> self.unlocked@[k] != tech_id,
            decreases self.unlocked@.len() - i,
        {
            if self.unlocked[i] == tech_id {
                return true;
            }
            i = i + 1;
        }
        false
    }

    pub fn unlocked_count(&self) -> (r: usize)
        ensures
            r == self.unlocked@.len(),
    {
        self.unlocked.len()
    }

    /// The first technology, in research order, not yet unlocked.
    pub fn next_locked_tech(&self) -> (r: Option<TechId>)
        ensures
            match r {
                Some(t) => exists|k: int| 0 <= k < 6 && spec_all_techs()[k] == t
                    && !self.unlocked@.contains(t)
                    && forall|j: int| 0 <= j < k ==> self.unlocked@.contains(#[trigger] spec_all_techs()[j]),
                None => forall|k: int| 0 <= k < 6 ==> self.unlocked@.contains(#[trigger] spec_all_techs()[k]),
            },
    {
        let all = TechId::all();
        let mut i: usize = 0;
        while i < all.len()
            invariant
                all@ == spec_all_techs(),
                i <= 6,
                forall|j: int| 0 <= j < i ==> self.unlocked@.contains(#[trigger] spec_all_techs()[j]),
            decreases 6 - i,
        {
            if !self.has(all[i]) {
                return Some(all[i]);
            }
            i = i + 1;
        }
        None
    }

    pub fn mission_danger_reduction(&self) -> (r: u32)
        ensures
            r == (if self.unlocked@.contains(TechId::SurveyScanners) { 10u32 } else { 0u32 }),
    {
        if self.has(TechId::SurveyScanners) { 10 } else { 0 }
    }

    pub fn injury_duration_ticks(&self) -> (r: u64)
        ensures
            r == (if self.unlocked@.contains(TechId::FieldMedicine) { 60u64 } else { 150u64 }),
    {
        if self.has(TechId::FieldMedicine) { 60 } else { 150 }
    }

    pub fn habitat_capacity_bonus(&self) -> (r: u32)
        ensures
            r == (if self.unlocked@.contains(TechId::ModularHabitats) { 1u32 } else { 0u32 }),
    {
        if self.has(TechId::ModularHabitats) { 1 } else { 0 }
    }

    /// Supplies saved each day: one for Hydroponic Planning and one more for
    /// Nutrient Culture.
    pub fn daily_supply_reduction(&self) -> (r: i32)
        ensures
            r == (if self.unlocked@.contains(TechId::HydroponicPlanning) { 1i32 } else { 0i32 })
                + (if self.unlocked@.contains(TechId::NutrientCulture) { 1i32 } else { 0i32 }),
    {
        let hydroponics: i32 = if self.has(TechId::HydroponicPlanning) { 1 } else { 0 };
        let culture: i32 = if self.has(TechId::NutrientCulture) { 1 } else { 0 };
        hydroponics + culture
    }

    pub fn storage_capacity_bonus(&self) -> (r: i32)
        ensures
            r == (if self.unlocked@.contains(TechId::StorageLattice) { 20i32 } else { 0i32 }),
    {
        if self.has(TechId::StorageLattice) { 20 } else { 0 }
    }

    /// How many of an item the colony has collected.
    pub fn item_count(&self, item: MissionItem) -> (r: u32)
        ensures
            r == self.item_counts@[item_slot(item)],
    {
        self.item_counts[item.slot()]
    }

    fn meets_requirements(&self, tech_id: TechId) -> (r: bool)
        ensures
            r == spec_meets(self.item_counts@, tech_id),
    {
        let reqs = tech_id.requirements();
        let mut i: usize = 0;
        while i < reqs.len()
            invariant
                reqs@ == spec_requirements(tech_id),
                i <= reqs@.len(),
                forall|k: int| 0 <= k < i ==>
                    self.item_counts@[item_slot(#[trigger] spec_requirements(tech_id)[k].0)]
                        >= spec_requirements(tech_id)[k].1,
            decreases reqs@.len() - i,
        {
            let (item, required) = reqs[i];
            if self.item_count(item) < required {
                return false;
            }
            i = i + 1;
        }
        true
    }

    /// Unlocks, in research order, every technology not yet unlocked whose
    /// requirements are met, and returns those technologies.
    fn unlock_available(&mut self) -> (newly: Vec<TechId>)
        ensures
            final(self).item_counts == old(self).item_counts,
            newly@ == newly_unlockable(old(self).unlocked@, old(self).item_counts@, spec_all_techs()),
            final(self).unlocked@ == old(self).unlocked@ + newly@,
    {
        let ghost u0 = self.unlocked@;
        let all = TechId::all();
        let mut newly: Vec<TechId> = Vec::new();
        let mut i: usize = 0;
        while i < all.len()
            invariant
                all@ == spec_all_techs(),
                i <= 6,
                self.item_counts == old(self).item_counts,
                u0 == old(self).unlocked@,
                newly@ == newly_unlockable(u0, self.item_counts@, spec_all_techs().take(i as int)),
                self.unlocked@ == u0 + newly@,
            decreases 6 - i,
        {
            let t = all[i];
            assert(spec_all_techs().take(i + 1).drop_last() == spec_all_techs().take(i as int));
            assert(spec_all_techs().take(i + 1).last() == t);
            if !self.has(t) && self.meets_requirements(t) {
                self.unlocked.push(t);
                newly.push(t);
            }
            i = i + 1;
        }
        assert(spec_all_techs().take(6) == spec_all_techs());
        newly
    }

    /// Records a returned item (only research items count) and unlocks what
    /// the new counts allow; returns the technologies unlocked by this item.
    pub fn add_item(&mut self, item: MissionItem) -> (newly: Vec<TechId>)
        requires
            spec_contributes(item) ==> old(self).item_counts@[item_slot(item)] < u32::MAX,
        ensures
            final(self).item_counts@ == (if spec_contributes(item) {
                old(self).item_counts@.update(item_slot(item), (old(self).item_counts@[item_slot(item)] + 1) as u32)
            } else {
                old(self).item_counts@
            }),
            newly@ == newly_unlockable(old(self).unlocked@, final(self).item_counts@, spec_all_techs()),
            final(self).unlocked@ == old(self).unlocked@ + newly@,
            old(self).wf() ==> final(self).wf(),
    {
        if item.contributes_to_technology() {
            let slot = item.slot();
            self.item_counts[slot] = self.item_counts[slot] + 1;
        }
        let newly = self.unlock_available();
        proof {
            let u0 = old(self).unlocked@;
            let c0 = old(self).item_counts@;
            let c1 = self.item_counts@;
            lemma_newly_unlockable(u0, c1, spec_all_techs());
            if old(self).wf() {
                assert forall|t: TechId| self.unlocked@.contains(t) <==> spec_meets(c1, t) by {
                    assert(spec_all_techs().contains(t)) by {
                        match t {
                            TechId::FieldMedicine => assert(spec_all_techs()[0] == t),
                            TechId::SurveyScanners => assert(spec_all_techs()[1] == t),
                            TechId::ModularHabitats => assert(spec_all_techs()[2] == t),
                            TechId::HydroponicPlanning => assert(spec_all_techs()[3] == t),
                            TechId::StorageLattice => assert(spec_all_techs()[4] == t),
                            TechId::NutrientCulture => assert(spec_all_techs()[5] == t),
                        }
                    }
                    if self.unlocked@.contains(t) {
                        let i = choose|i: int| 0 <= i < self.unlocked@.len() && self.unlocked@[i] == t;
                        if i < u0.len() {
                            assert(u0[i] == t);
                            assert(u0.contains(t));
                            lemma_meets_monotone(c0, c1, t);
                        } else {
                            assert(newly@[i - u0.len()] == t);
                        }
                    } else {
                        if spec_meets(c1, t) {
                            if u0.contains(t) {
                                let i = choose|i: int| 0 <= i < u0.len() && u0[i] == t;
                                assert(self.unlocked@[i] == t);
                            } else {
                                assert(newly@.contains(t));
                                let i = choose|i: int| 0 <= i < newly@.len() && newly@[i] == t;
                                assert(self.unlocked@[u0.len() + i] == t);
                            }
                        }
                    }
                }
                assert forall|i: int, j: int| 0 <= i < self.unlocked@.len() && 0 <= j < self.unlocked@.len() && i != j
                    implies self.unlocked@[i] != self.unlocked@[j] by {
                    if i >= u0.len() && j < u0.len() {
                        assert(self.unlocked@[i] == newly@[i - u0.len()]);
                        assert(u0[j] == self.unlocked@[j]);
                    } else if i < u0.len() && j >= u0.len() {
                        assert(self.unlocked@[j] == newly@[j - u0.len()]);
                        assert(u0[i] == self.unlocked@[i]);
                    } else if i >= u0.len() && j >= u0.len() {
                        assert(self.unlocked@[i] == newly@[i - u0.len()]);
                        assert(self.unlocked@[j] == newly@[j - u0.len()]);
                    }
                }
            }
        }
        newly
    }
}

/// The technologies of `ts` not yet unlocked whose requirements the counts
/// meet, in the order of `ts`.
pub open spec fn unlockable_in_order(unlocked: Seq<TechId>, counts: Seq<u32>, ts: Seq<TechId>) -> Seq<TechId> {
    ts.filter(|t: TechId| !unlocked.contains(t) && spec_meets(counts, t))
}

proof fn lemma_newly_is_filter(unlocked: Seq<TechId>, counts: Seq<u32>, ts: Seq<TechId>)
    requires
        ts.no_duplicates(),
    ensures
        newly_unlockable(unlocked, counts, ts) == unlockable_in_order(unlocked, counts, ts),
    decreases ts.len(),
{
    reveal(Seq::filter);
    if ts.len() > 0 {
        let d = ts.drop_last();
        assert(d.no_duplicates());
        lemma_newly_is_filter(unlocked, counts, d);
        lemma_newly_unlockable(unlocked, counts, d);
        let earlier = newly_unlockable(unlocked, counts, d);
        let t = ts.last();
        assert(!earlier.contains(t)) by {
            if earlier.contains(t) {
                let k = choose|k: int| 0 <= k < earlier.len() && earlier[k] == t;
                let j = choose|j: int| 0 <= j < d.len() && d[j] == t;
                assert(ts[j] == ts[ts.len() - 1]);
            }
        }
        assert((unlocked + earlier).contains(t) <==> unlocked.contains(t)) by {
            if (unlocked + earlier).contains(t) {
                let i = choose|i: int| 0 <= i < (unlocked + earlier).len() && (unlocked + earlier)[i] == t;
                if i >= unlocked.len() {
                    assert(earlier[i - unlocked.len()] == t);
                }
            }
            if unlocked.contains(t) {
                let i = choose|i: int| 0 <= i < unlocked.len() && unlocked[i] == t;
                assert((unlocked + earlier)[i] == t);
            }
        }
    }
}

/// Research happens in panel order: the technologies a returned item
/// unlocks are the panel's technologies, in order, that were locked and whose
/// requirements the new counts meet.
pub proof fn law_unlocks_in_research_order(unlocked: Seq<TechId>, counts: Seq<u32>)
    ensures
        newly_unlockable(unlocked, counts, spec_all_techs()) == unlockable_in_order(unlocked, counts, spec_all_techs()),
{
    assert(spec_all_techs().no_duplicates());
    lemma_newly_is_filter(unlocked, counts, spec_all_techs());
}

/// Item counts add up over returns: each returned research item raises its
/// own count by one and leaves the other counts alone; other items change
/// nothing.
pub proof fn law_item_counts_add_up(c0: Seq<u32>, item: MissionItem, c1: Seq<u32>)
    requires
        c0.len() == 5,
        spec_contributes(item) ==> c0[item_slot(item)] < u32::MAX,
        c1 == (if spec_contributes(item) {
            c0.update(item_slot(item), (c0[item_slot(item)] + 1) as u32)
        } else {
            c0
        }),
    ensures
        forall|k: int| 0 <= k < 5 ==> #[trigger] c1[k] == c0[k] + (if spec_contributes(item) && k == item_slot(item) { 1int } else { 0int }),
{
}

/// The item counts after returning `items` in turn, as `add_item` records them.
pub open spec fn counts_after_items(c0: Seq<u32>, items: Seq<MissionItem>) -> Seq<u32>
    decreases items.len(),
{
    if items.len() == 0 {
        c0
    } else {
        let c = counts_after_items(c0, items.drop_last());
        let item = items.last();
        if spec_contributes(item) {
            c.update(item_slot(item), (c[item_slot(item)] + 1) as u32)
        } else {
            c
        }
    }
}

/// How many of `items` are research items counted in slot `k`.
pub open spec fn slot_tally(items: Seq<MissionItem>, k: int) -> int
    decreases items.len(),
{
    if items.len() == 0 {
        0
    } else {
        slot_tally(items.drop_last(), k) + if spec_contributes(items.last()) && item_slot(items.last()) == k { 1int } else { 0int }
    }
}

/// After any run of returns, each count has grown by the number of returned
/// research items of its kind.
pub proof fn law_counts_after_returns(c0: Seq<u32>, items: Seq<MissionItem>)
    requires
        c0.len() == 5,
        forall|k: int| 0 <= k < 5 ==> #[trigger] c0[k] + items.len() <= u32::MAX,
    ensures
        counts_after_items(c0, items).len() == 5,
        forall|k: int| 0 <= k < 5 ==> #[trigger] counts_after_items(c0, items)[k] == c0[k] + slot_tally(items, k),
    decreases items.len(),
{
    if items.len() > 0 {
        let d = items.drop_last();
        law_counts_after_returns(c0, d);
        lemma_slot_tally_bound(d);
    }
}

proof fn lemma_slot_tally_bound(items: Seq<MissionItem>)
    ensures
        forall|k: int| 0 <= #[trigger] slot_tally(items, k) <= items.len(),
    decreases items.len(),
{
    if items.len() > 0 {
        lemma_slot_tally_bound(items.drop_last());
        assert forall|k: int| 0 <= #[trigger] slot_tally(items, k) <= items.len() by {
            assert(0 <= slot_tally(items.drop_last(), k) <= items.drop_last().len());
        }
    }
}

} // verus!
