//! Reading a colonist's one-way relationship values as a whole.
use std::collections::HashMap;
use vstd::std_specs::iter::IteratorSpec;
use vstd::prelude::*;

verus! {

broadcast use vstd::std_specs::hash::group_hash_axioms;

/// `v` is a recorded value of `m`.
pub open spec fn is_value(m: Map<u32, i32>, v: i32) -> bool {
    exists|k: u32| #[trigger] m.contains_key(k) && m[k] == v
}

/// `vals` lists exactly the recorded values of `m` (in some order, with
/// repeats where two colonists share a value).
pub open spec fn lists_values(m: Map<u32, i32>, vals: Seq<i32>) -> bool {
    &&& forall|i: int| 0 <= i < vals.len() ==> is_value(m, #[trigger] vals[i])
    &&& forall|k: u32| #[trigger] m.contains_key(k) ==> vals.contains(m[k])
}

/// The recorded values of a relationship map.
pub fn relationship_values(m: &HashMap<u32, i32>) -> (vals: Vec<i32>)
    ensures
        lists_values(m@, vals@),
{
    let ghost s = vstd::std_specs::hash::spec_hash_map_iter(m).remaining();
    let mut vals: Vec<i32> = Vec::new();
    for kv in it: m.iter()
        invariant
            it.seq() == s,
            vals@.len() == it.index(),
            forall|i: int| 0 <= i < it.index() ==> vals@[i] == *(#[trigger] s[i]).1,
    {
        vals.push(*kv.1);
    }
    assert(vals@.len() == s.len());
    proof {
        vstd::std_specs::hash::axiom_spec_hash_map_iter(m);
        assert forall|i: int| 0 <= i < vals@.len() implies is_value(m@, #[trigger] vals@[i]) by {
            assert(m@.contains_key(*s[i].0) && m@[*s[i].0] == vals@[i]);
        }
        assert forall|key: u32| #[trigger] m@.contains_key(key) implies vals@.contains(m@[key]) by {
            let j = choose|j: int| 0 <= j < s.len() && s[j] == (&key, &m@[key]);
            assert(vals@[j] == m@[key]);
        }
    }
    vals
}


/// Some recorded value is at least `bound`.
pub open spec fn has_value_at_least(m: Map<u32, i32>, bound: int) -> bool {
    exists|k: u32| #[trigger] m.contains_key(k) && m[k] >= bound
}

/// Some recorded value is at most `bound`.
pub open spec fn has_value_at_most(m: Map<u32, i32>, bound: int) -> bool {
    exists|k: u32| #[trigger] m.contains_key(k) && m[k] <= bound
}

pub open spec fn abs(v: int) -> int {
    if v < 0 { -v } else { v }
}

/// `r` is the largest size of a recorded value (0 when there is none).
pub open spec fn is_max_abs(m: Map<u32, i32>, r: int) -> bool {
    &&& r >= 0
    &&& forall|k: u32| #[trigger] m.contains_key(k) ==> abs(m[k] as int) <= r
    &&& (r == 0 || exists|k: u32| #[trigger] m.contains_key(k) && abs(m[k] as int) == r)
}

/// The largest size of a recorded value (0 when there is none).
pub open spec fn max_abs(m: Map<u32, i32>) -> int {
    choose|r: int| is_max_abs(m, r)
}

proof fn lemma_max_abs_unique(m: Map<u32, i32>, r: int)
    requires
        is_max_abs(m, r),
    ensures
        max_abs(m) == r,
{
    let c = max_abs(m);
    assert(is_max_abs(m, c));
    if c < r {
        let k = choose|k: u32| #[trigger] m.contains_key(k) && abs(m[k] as int) == r;
        assert(abs(m[k] as int) <= c);
    } else if r < c {
        let k = choose|k: u32| #[trigger] m.contains_key(k) && abs(m[k] as int) == c;
        assert(abs(m[k] as int) <= r);
    }
}

/// Recorded values keep clear of the one value whose size does not fit.
pub open spec fn values_negatable(m: Map<u32, i32>) -> bool {
    forall|k: u32| #[trigger] m.contains_key(k) ==> m[k] != i32::MIN
}

/// Whether some recorded value is at most `bound`.
pub fn any_value_at_most(m: &HashMap<u32, i32>, bound: i32) -> (r: bool)
    ensures
        r == has_value_at_most(m@, bound as int),
{
    let vals = relationship_values(m);
    let mut i: usize = 0;
    while i < vals.len()
        invariant
            lists_values(m@, vals@),
            i <= vals@.len(),
            forall|j: int| 0 <= j < i ==> vals@[j] > bound,
        decreases vals@.len() - i,
    {
        if vals[i] <= bound {
            assert(is_value(m@, vals@[i as int]));
            return true;
        }
        i = i + 1;
    }
    assert forall|k: u32| #[trigger] m@.contains_key(k) implies !(m@[k] <= bound) by {
        assert(vals@.contains(m@[k]));
    }
    false
}

/// Whether some recorded value is at least `bound`.
pub fn any_value_at_least(m: &HashMap<u32, i32>, bound: i32) -> (r: bool)
    ensures
        r == has_value_at_least(m@, bound as int),
{
    let vals = relationship_values(m);
    let mut i: usize = 0;
    while i < vals.len()
        invariant
            lists_values(m@, vals@),
            i <= vals@.len(),
            forall|j: int| 0 <= j < i ==> vals@[j] < bound,
        decreases vals@.len() - i,
    {
        if vals[i] >= bound {
            assert(is_value(m@, vals@[i as int]));
            return true;
        }
        i = i + 1;
    }
    assert forall|k: u32| #[trigger] m@.contains_key(k) implies !(m@[k] >= bound) by {
        assert(vals@.contains(m@[k]));
    }
    false
}

/// The largest size of a recorded value, or 0.
pub fn largest_abs_value(m: &HashMap<u32, i32>) -> (r: i32)
    requires
        values_negatable(m@),
    ensures
        r == max_abs(m@),
{
    let vals = relationship_values(m);
    let mut best: i32 = 0;
    let mut i: usize = 0;
    while i < vals.len()
        invariant
            lists_values(m@, vals@),
            values_negatable(m@),
            i <= vals@.len(),
            best >= 0,
            forall|j: int| 0 <= j < i ==> abs(vals@[j] as int) <= best,
            best == 0 || exists|j: int| 0 <= j < i && abs(vals@[j] as int) == best,
        decreases vals@.len() - i,
    {
        assert(is_value(m@, vals@[i as int]));
        let v = vals[i];
        let a: i32 = if v < 0 { -v } else { v };
        if a > best {
            best = a;
        }
        i = i + 1;
    }
    proof {
        assert forall|k: u32| #[trigger] m@.contains_key(k) implies abs(m@[k] as int) <= best by {
            assert(vals@.contains(m@[k]));
        }
        if best != 0 {
            let j = choose|j: int| 0 <= j < vals@.len() && abs(vals@[j] as int) == best;
            assert(is_value(m@, vals@[j]));
        }
        lemma_max_abs_unique(m@, best as int);
    }
    best
}

/// The recorded value of largest size; among values of equal size the one
/// met last in the map's iteration order wins.
pub fn strongest_value(m: &HashMap<u32, i32>) -> (r: Option<i32>)
    requires
        values_negatable(m@),
    ensures
        match r {
            None => m@.dom() == Set::<u32>::empty(),
            Some(v) => is_value(m@, v) && forall|k: u32| #[trigger] m@.contains_key(k) ==> abs(m@[k] as int) <= abs(v as int),
        },
{
    let vals = relationship_values(m);
    let mut best: Option<i32> = None;
    let mut i: usize = 0;
    while i < vals.len()
        invariant
            lists_values(m@, vals@),
            values_negatable(m@),
            i <= vals@.len(),
            i == 0 <==> best is None,
            best matches Some(b) ==> (exists|j: int| 0 <= j < i && vals@[j] == b)
                && forall|j: int| 0 <= j < i ==> abs(vals@[j] as int) <= abs(b as int),
        decreases vals@.len() - i,
    {
        assert(is_value(m@, vals@[i as int]));
        let v = vals[i];
        let a: i32 = if v < 0 { -v } else { v };
        match best {
            None => {
                best = Some(v);
            },
            Some(b) => {
                let ab: i32 = if b < 0 { -b } else { b };
                if a >= ab {
                    best = Some(v);
                }
            },
        }
        i = i + 1;
    }
    proof {
        match best {
            None => {
                assert forall|k: u32| !m@.dom().contains(k) by {
                    if m@.contains_key(k) {
                        assert(vals@.contains(m@[k]));
                    }
                }
                assert(m@.dom() =~= Set::<u32>::empty());
            },
            Some(b) => {
                let j = choose|j: int| 0 <= j < i && vals@[j] == b;
                assert(is_value(m@, vals@[j]));
                assert forall|k: u32| #[trigger] m@.contains_key(k) implies abs(m@[k] as int) <= abs(b as int) by {
                    assert(vals@.contains(m@[k]));
                }
            },
        }
    }
    best
}

} // verus!
