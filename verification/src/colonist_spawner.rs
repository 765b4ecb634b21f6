//! The survivors of the landing and the bonds they arrive with.
use crate::colonist::{Colonist, JobPreference, Trait};
use crate::game_state::GameState;
use crate::types::Position;
use std::collections::HashMap;
use vstd::prelude::*;

verus! {

broadcast use vstd::std_specs::hash::group_hash_axioms;

/// One pair rule: colonist `a` records `v` toward `b`, and `b` toward `a`.
pub open spec fn pair_rule(id: u32, m: Map<u32, i32>, a: u32, b: u32, v: i32) -> Map<u32, i32> {
    if id == a { m.insert(b, v) } else if id == b { m.insert(a, v) } else { m }
}

/// The starting bonds: Alice and Fiona at odds, Charlie and Evan close,
/// Bob and Diana friendly.
pub open spec fn seeded(id: u32, m: Map<u32, i32>) -> Map<u32, i32> {
    pair_rule(id, pair_rule(id, pair_rule(id, m, 0, 5, -24i32), 2, 4, 28i32), 1, 3, 14i32)
}

/// The six survivors: id, name, trait, and role, standing in a row.
pub open spec fn survivor(k: int) -> (Seq<char>, Trait, JobPreference) {
    if k == 0 {
        ("Alice"@, Trait::HardWorker, JobPreference::Builder)
    } else if k == 1 {
        ("Bob"@, Trait::Lazy, JobPreference::Cook)
    } else if k == 2 {
        ("Charlie"@, Trait::FastWalker, JobPreference::Explorer)
    } else if k == 3 {
        ("Diana"@, Trait::Gourmet, JobPreference::Hauler)
    } else if k == 4 {
        ("Evan"@, Trait::HardWorker, JobPreference::Explorer)
    } else {
        ("Fiona"@, Trait::Lazy, JobPreference::Builder)
    }
}

fn set_pair_relationship(colonists: &mut Vec<Colonist>, first_id: u32, second_id: u32, value: i32)
    ensures
        final(colonists)@.len() == old(colonists)@.len(),
        forall|k: int| 0 <= k < old(colonists)@.len() ==> {
            let c0 = #[trigger] old(colonists)@[k];
            let c1 = final(colonists)@[k];
            &&& c1.relationships@ == pair_rule(c0.id, c0.relationships@, first_id, second_id, value)
            &&& c1 == (Colonist { relationships: c1.relationships, ..c0 })
        },
{
    let ghost cs0 = colonists@;
    let mut i: usize = 0;
    while i < colonists.len()
        invariant
            colonists@.len() == cs0.len(),
            i <= cs0.len(),
            forall|k: int| 0 <= k < i ==> {
                let c0 = #[trigger] cs0[k];
                let c1 = colonists@[k];
                &&& c1.relationships@ == pair_rule(c0.id, c0.relationships@, first_id, second_id, value)
                &&& c1 == (Colonist { relationships: c1.relationships, ..c0 })
            },
            forall|k: int| i <= k < cs0.len() ==> #[trigger] colonists@[k] == cs0[k],
        decreases cs0.len() - i,
    {
        if colonists[i].id == first_id {
            colonists[i].relationships.insert(second_id, value);
        } else if colonists[i].id == second_id {
            colonists[i].relationships.insert(first_id, value);
        }
        i = i + 1;
    }
}

/// Adds the six survivors of the landing (ids 0 to 5, in a row from
/// (5, 5)) and seeds their starting bonds; a bond rule also reaches any
/// earlier colonist that shares one of those ids.
pub fn spawn_initial_colonists(state: &mut GameState)
    requires
        old(state).colonists@.len() + 6 <= usize::MAX,
    ensures
        final(state).colonists@.len() == old(state).colonists@.len() + 6,
        forall|k: int| 0 <= k < final(state).colonists@.len() ==> {
            let c = #[trigger] final(state).colonists@[k];
            &&& k < old(state).colonists@.len() ==> c.relationships@ == seeded(old(state).colonists@[k].id,
                old(state).colonists@[k].relationships@)
                && c == (Colonist { relationships: c.relationships, ..old(state).colonists@[k] })
            &&& k >= old(state).colonists@.len() ==> {
                let n = k - old(state).colonists@.len();
                &&& c.id == n
                &&& c.name@ == survivor(n).0
                &&& c.trait_data == survivor(n).1
                &&& c.job_preference == survivor(n).2
                &&& c.position == (Position { x: (5 + n) as i32, y: 5 })
                &&& c.relationships@ == seeded(n as u32, Map::empty())
            }
        },
        crate::game_state::same_except_colonists(*old(state), *final(state)),
{
    let ghost n0 = state.colonists@.len();
    let ghost s0 = *state;
    state.colonists.push(Colonist::new(0, crate::text::text("Alice"), Position::new(5, 5), Trait::HardWorker, JobPreference::Builder));
    state.colonists.push(Colonist::new(1, crate::text::text("Bob"), Position::new(6, 5), Trait::Lazy, JobPreference::Cook));
    state.colonists.push(Colonist::new(2, crate::text::text("Charlie"), Position::new(7, 5), Trait::FastWalker, JobPreference::Explorer));
    state.colonists.push(Colonist::new(3, crate::text::text("Diana"), Position::new(8, 5), Trait::Gourmet, JobPreference::Hauler));
    state.colonists.push(Colonist::new(4, crate::text::text("Evan"), Position::new(9, 5), Trait::HardWorker, JobPreference::Explorer));
    state.colonists.push(Colonist::new(5, crate::text::text("Fiona"), Position::new(10, 5), Trait::Lazy, JobPreference::Builder));
    let ghost pre = state.colonists@;
    set_pair_relationship(&mut state.colonists, 0, 5, -24);
    let ghost s1 = state.colonists@;
    set_pair_relationship(&mut state.colonists, 2, 4, 28);
    let ghost s2 = state.colonists@;
    set_pair_relationship(&mut state.colonists, 1, 3, 14);
    proof {
        assert forall|k: int| 0 <= k < state.colonists@.len() implies {
            let c = #[trigger] state.colonists@[k];
            &&& c.relationships@ == seeded(pre[k].id, pre[k].relationships@)
            &&& c == (Colonist { relationships: c.relationships, ..pre[k] })
        } by {
            assert(s1[k] == (Colonist { relationships: s1[k].relationships, ..pre[k] }));
            assert(s2[k] == (Colonist { relationships: s2[k].relationships, ..s1[k] }));
        }
        assert forall|k: int| 0 <= k < pre.len() && k >= n0 implies (#[trigger] pre[k]).relationships@ == Map::<u32, i32>::empty()
            && pre[k].id == k - n0 by {
        }
    }
}

} // verus!
