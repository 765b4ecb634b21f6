//! The colony's relationship picture: every pair's average feeling, the
//! close and strained pairs, and the strongest and weakest bonds.
use crate::colonist::{all_summable, rel, relationship_label, relationships_summable, spec_band, spec_band_label, trunc_half, Colonist};
use vstd::prelude::*;

verus! {

/// One pair of colonists and their average feeling.
#[derive(Debug)]
pub struct RelationshipPairSummary {
    pub first_name: String,
    pub second_name: String,
    pub value: i32,
    pub label: &'static str,
}

/// A pair as the contracts see it: the two names and the value.
pub open spec fn pair_view(p: RelationshipPairSummary) -> (Seq<char>, Seq<char>, int) {
    (p.first_name@, p.second_name@, p.value as int)
}

/// The relationship tallies over every pair of colonists.
#[derive(Debug)]
pub struct RelationshipSummary {
    pub relationship_total: i64,
    pub relationship_count: u64,
    pub close_pairs: u32,
    pub strained_pairs: u32,
    pub connected_pairs: Vec<RelationshipPairSummary>,
    pub tense_pairs: Vec<RelationshipPairSummary>,
    pub strongest_pair: Option<RelationshipPairSummary>,
    pub weakest_pair: Option<RelationshipPairSummary>,
}

/// The pair (a, b): names and the average of the two one-way values,
/// rounded toward zero.
pub open spec fn pair_of(a: Colonist, b: Colonist) -> (Seq<char>, Seq<char>, int) {
    (a.name@, b.name@, trunc_half(rel(a, b.id) + rel(b, a.id)))
}

/// Pairs (cs[i], cs[j]) for i < j < `j_end`, at fixed i.
pub open spec fn colony_row(cs: Seq<Colonist>, i: int, j_end: int) -> Seq<(Seq<char>, Seq<char>, int)>
    decreases j_end - i,
{
    if j_end <= i + 1 {
        Seq::empty()
    } else {
        colony_row(cs, i, j_end - 1).push(pair_of(cs[i], cs[j_end - 1]))
    }
}

/// All pairs (cs[i], cs[j]), i < j, i below `i_end`, row by row.
pub open spec fn colony_pairs(cs: Seq<Colonist>, i_end: int) -> Seq<(Seq<char>, Seq<char>, int)>
    decreases i_end,
{
    if i_end <= 0 {
        Seq::empty()
    } else {
        colony_pairs(cs, i_end - 1) + colony_row(cs, i_end - 1, cs.len() as int)
    }
}

pub open spec fn value_sum(ps: Seq<(Seq<char>, Seq<char>, int)>) -> int
    decreases ps.len(),
{
    if ps.len() == 0 { 0 } else { value_sum(ps.drop_last()) + ps.last().2 }
}

/// The pairs whose value is at least `lo` (when `at_least`) or at most `lo`.
pub open spec fn pairs_beyond(ps: Seq<(Seq<char>, Seq<char>, int)>, lo: int, at_least: bool) -> Seq<(Seq<char>, Seq<char>, int)>
    decreases ps.len(),
{
    if ps.len() == 0 {
        Seq::empty()
    } else {
        let rest = pairs_beyond(ps.drop_last(), lo, at_least);
        let v = ps.last().2;
        if (at_least && v >= lo) || (!at_least && v <= lo) { rest.push(ps.last()) } else { rest }
    }
}

/// `a` ranks at least as high as `b` (higher values first when `desc`,
/// lower values first otherwise).
pub open spec fn ranks_before(a: int, b: int, desc: bool) -> bool {
    (desc && a >= b) || (!desc && a <= b)
}

/// Where `x` goes in a ranked list: just after the last entry that ranks at
/// least as high as it.
pub open spec fn rank_slot(s: Seq<(Seq<char>, Seq<char>, int)>, x: int, desc: bool) -> int
    decreases s.len(),
{
    if s.len() == 0 {
        0
    } else if ranks_before(s.last().2, x, desc) {
        s.len() as int
    } else {
        rank_slot(s.drop_last(), x, desc)
    }
}

/// `x` placed in a ranked list after every entry ranking at least as high.
pub open spec fn insert_ranked(s: Seq<(Seq<char>, Seq<char>, int)>, x: (Seq<char>, Seq<char>, int), desc: bool)
    -> Seq<(Seq<char>, Seq<char>, int)>
{
    s.insert(rank_slot(s, x.2, desc), x)
}

/// The pairs ordered by value (stable), highest first when `desc`.
pub open spec fn ranked(ps: Seq<(Seq<char>, Seq<char>, int)>, desc: bool) -> Seq<(Seq<char>, Seq<char>, int)>
    decreases ps.len(),
{
    if ps.len() == 0 { Seq::empty() } else { insert_ranked(ranked(ps.drop_last(), desc), ps.last(), desc) }
}

/// The first pair with the largest value (`strongest`) or the smallest.
pub open spec fn extreme(ps: Seq<(Seq<char>, Seq<char>, int)>, strongest: bool) -> Option<(Seq<char>, Seq<char>, int)>
    decreases ps.len(),
{
    if ps.len() == 0 {
        None
    } else {
        match extreme(ps.drop_last(), strongest) {
            None => Some(ps.last()),
            Some(b) => if (strongest && ps.last().2 > b.2) || (!strongest && ps.last().2 < b.2) { Some(ps.last()) } else { Some(b) },
        }
    }
}

/// The first `n` items (all of them when there are fewer).
pub open spec fn first_n<A>(s: Seq<A>, n: int) -> Seq<A> {
    if s.len() <= n { s } else { s.take(n) }
}

proof fn lemma_rank_slot_bound(s: Seq<(Seq<char>, Seq<char>, int)>, x: int, desc: bool)
    ensures
        0 <= rank_slot(s, x, desc) <= s.len(),
    decreases s.len(),
{
    if s.len() > 0 {
        lemma_rank_slot_bound(s.drop_last(), x, desc);
    }
}

fn make_pair(first: &Colonist, second: &Colonist, value: i32) -> (r: RelationshipPairSummary)
    ensures
        r.first_name@ == first.name@,
        r.second_name@ == second.name@,
        r.value == value,
        r.label@ == spec_band_label(spec_band(value as int)),
{
    RelationshipPairSummary {
        first_name: first.name.clone(),
        second_name: second.name.clone(),
        value,
        label: relationship_label(value),
    }
}

/// A pair's label is the band label of its value.
pub open spec fn labelled(p: RelationshipPairSummary) -> bool {
    p.label@ == spec_band_label(spec_band(p.value as int))
}

pub open spec fn all_labelled(ps: Seq<RelationshipPairSummary>) -> bool {
    forall|k: int| 0 <= k < ps.len() ==> labelled(#[trigger] ps[k])
}

/// Every pair the summary lists carries the label of its value.
pub open spec fn labels_ok(r: RelationshipSummary) -> bool {
    &&& all_labelled(r.connected_pairs@)
    &&& all_labelled(r.tense_pairs@)
    &&& (r.strongest_pair matches Some(p) ==> labelled(p))
    &&& (r.weakest_pair matches Some(p) ==> labelled(p))
}

fn insert_ranked_pair(list: &mut Vec<RelationshipPairSummary>, p: RelationshipPairSummary, desc: bool)
    requires
        all_labelled(old(list)@),
        labelled(p),
    ensures
        all_labelled(final(list)@),
        final(list)@.map_values(|q: RelationshipPairSummary| pair_view(q))
            == insert_ranked(old(list)@.map_values(|q: RelationshipPairSummary| pair_view(q)), pair_view(p), desc),
{
    let ghost s = list@.map_values(|q: RelationshipPairSummary| pair_view(q));
    let mut q: usize = list.len();
    assert(s.take(list@.len() as int) == s);
    while q > 0 && !((desc && list[q - 1].value >= p.value) || (!desc && list[q - 1].value <= p.value))
        invariant
            q <= list@.len(),
            s == list@.map_values(|q: RelationshipPairSummary| pair_view(q)),
            rank_slot(s, p.value as int, desc) == rank_slot(s.take(q as int), p.value as int, desc),
        decreases q,
    {
        assert(s.take(q as int).drop_last() == s.take(q - 1));
        assert(s.take(q as int).last() == s[q - 1]);
        q = q - 1;
    }
    proof {
        if q > 0 {
            assert(s.take(q as int).last() == s[q - 1]);
        }
        assert(s.take(list@.len() as int) == s);
    }
    let ghost before = list@;
    list.insert(q, p);
    assert(list@.map_values(|q: RelationshipPairSummary| pair_view(q)) =~= s.insert(q as int, pair_view(p)));
    assert forall|k: int| 0 <= k < list@.len() implies labelled(#[trigger] list@[k]) by {
        if k < q {
            assert(list@[k] == before[k]);
        } else if k > q {
            assert(list@[k] == before[k - 1]);
        }
    }
}

pub struct SummarySystem;


/// The tallies hold for the pairs `ps`.
pub open spec fn tallied(r: RelationshipSummary, ps: Seq<(Seq<char>, Seq<char>, int)>, full_lists: bool) -> bool {
    let connected = ranked(pairs_beyond(ps, 10, true), true);
    let tense = ranked(pairs_beyond(ps, -10, false), false);
    &&& r.relationship_total == value_sum(ps)
    &&& r.relationship_count == ps.len()
    &&& r.close_pairs == pairs_beyond(ps, 10, true).len()
    &&& r.strained_pairs == pairs_beyond(ps, -10, false).len()
    &&& r.connected_pairs@.map_values(|q: RelationshipPairSummary| pair_view(q)) == (if full_lists { connected } else { first_n(connected, 3) })
    &&& r.tense_pairs@.map_values(|q: RelationshipPairSummary| pair_view(q)) == (if full_lists { tense } else { first_n(tense, 3) })
    &&& match r.strongest_pair {
        None => extreme(ps, true) is None,
        Some(p) => extreme(ps, true) == Some(pair_view(p)),
    }
    &&& match r.weakest_pair {
        None => extreme(ps, false) is None,
        Some(p) => extreme(ps, false) == Some(pair_view(p)),
    }
}

proof fn lemma_row_len(cs: Seq<Colonist>, i: int, j: int)
    ensures
        colony_row(cs, i, j).len() == (if j > i + 1 { j - i - 1 } else { 0 }),
    decreases j - i,
{
    if j > i + 1 {
        lemma_row_len(cs, i, j - 1);
    }
}

proof fn lemma_pairs_beyond_len(ps: Seq<(Seq<char>, Seq<char>, int)>, lo: int, at_least: bool)
    ensures
        pairs_beyond(ps, lo, at_least).len() <= ps.len(),
    decreases ps.len(),
{
    if ps.len() > 0 {
        lemma_pairs_beyond_len(ps.drop_last(), lo, at_least);
    }
}

impl SummarySystem {
    /// Tallies every pair of colonists (in roster order): the sum and count
    /// of their average feelings, the close (10 or more) and strained (-10 or
    /// less) pairs, the three closest and the three most strained pairs, and
    /// the first strongest and first weakest pair.
    pub fn relationship_summary(colonists: &[Colonist]) -> (r: RelationshipSummary)
        requires
            all_summable(colonists@),
            colonists@.len() <= 0x8000,
        ensures
            tallied(r, colony_pairs(colonists@, colonists@.len() as int), false),
            labels_ok(r),
    {
        let n = colonists.len();
        let mut r = RelationshipSummary {
            relationship_total: 0,
            relationship_count: 0,
            close_pairs: 0,
            strained_pairs: 0,
            connected_pairs: Vec::new(),
            tense_pairs: Vec::new(),
            strongest_pair: None,
            weakest_pair: None,
        };
        assert(r.connected_pairs@.map_values(|q: RelationshipPairSummary| pair_view(q)) =~= Seq::empty());
        assert(r.tense_pairs@.map_values(|q: RelationshipPairSummary| pair_view(q)) =~= Seq::empty());
        let mut i: usize = 0;
        while i < n
            invariant
                n == colonists@.len(),
                n <= 0x8000,
                all_summable(colonists@),
                i <= n,
                tallied(r, colony_pairs(colonists@, i as int), true),
                labels_ok(r),
                r.relationship_count <= i * n,
                -(r.relationship_count as int) * 0x4000_0000 <= r.relationship_total <= (r.relationship_count as int) * 0x4000_0000,
            decreases n - i,
        {
            let mut j: usize = i + 1;
            let ghost base = colony_pairs(colonists@, i as int);
            assert(colony_row(colonists@, i as int, j as int) == Seq::<(Seq<char>, Seq<char>, int)>::empty());
            assert(base + colony_row(colonists@, i as int, j as int) == base);
            while j < n
                invariant
                    n == colonists@.len(),
                    n <= 0x8000,
                    all_summable(colonists@),
                    i < n,
                    i + 1 <= j <= n,
                    base == colony_pairs(colonists@, i as int),
                    tallied(r, base + colony_row(colonists@, i as int, j as int), true),
                    labels_ok(r),
                    r.relationship_count <= i * n + j,
                    -(r.relationship_count as int) * 0x4000_0000 <= r.relationship_total <= (r.relationship_count as int) * 0x4000_0000,
                decreases n - j,
            {
                let ghost ps = base + colony_row(colonists@, i as int, j as int);
                let first = &colonists[i];
                let second = &colonists[j];
                proof {
                    assert(crate::colonist::relationships_summable(colonists@[i as int]));
                    assert(crate::colonist::relationships_summable(colonists@[j as int]));
                    assert(i * n + j + 1 <= 0x8000 * 0x8000) by (nonlinear_arith)
                        requires
                            i < n,
                            j < n,
                            n <= 0x8000,
                    ;
                }
                let value_a = first.relationship_with(second.id);
                let value_b = second.relationship_with(first.id);
                let value: i32 = (value_a + value_b) / 2;
                let ghost pv = pair_of(colonists@[i as int], colonists@[j as int]);
                assert(value as int == pv.2);
                let ghost ps2 = ps.push(pv);
                assert(base + colony_row(colonists@, i as int, j + 1) == ps2);
                assert(ps2.drop_last() == ps);
                proof {
                    lemma_pairs_beyond_len(ps, 10, true);
                    lemma_pairs_beyond_len(ps, -10, false);
                }
                r.relationship_total = r.relationship_total + value as i64;
                r.relationship_count = r.relationship_count + 1;
                if value >= 10 {
                    r.close_pairs = r.close_pairs + 1;
                    insert_ranked_pair(&mut r.connected_pairs, make_pair(first, second, value), true);
                }
                if value <= -10 {
                    r.strained_pairs = r.strained_pairs + 1;
                    insert_ranked_pair(&mut r.tense_pairs, make_pair(first, second, value), false);
                }
                let replace_strongest = match &r.strongest_pair {
                    None => true,
                    Some(current) => value > current.value,
                };
                if replace_strongest {
                    r.strongest_pair = Some(make_pair(first, second, value));
                }
                let replace_weakest = match &r.weakest_pair {
                    None => true,
                    Some(current) => value < current.value,
                };
                if replace_weakest {
                    r.weakest_pair = Some(make_pair(first, second, value));
                }
                proof {
                    let pb = pairs_beyond(ps, 10, true);
                    let pt = pairs_beyond(ps, -10, false);
                    assert(pb.push(pv).drop_last() == pb);
                    assert(pt.push(pv).drop_last() == pt);
                    if value >= 10 {
                        assert(pairs_beyond(ps2, 10, true) == pb.push(pv));
                        assert(ranked(pb.push(pv), true) == insert_ranked(ranked(pb, true), pv, true));
                    } else {
                        assert(pairs_beyond(ps2, 10, true) == pb);
                    }
                    if value <= -10 {
                        assert(pairs_beyond(ps2, -10, false) == pt.push(pv));
                        assert(ranked(pt.push(pv), false) == insert_ranked(ranked(pt, false), pv, false));
                    } else {
                        assert(pairs_beyond(ps2, -10, false) == pt);
                    }
                    assert(value_sum(ps2) == value_sum(ps) + pv.2);
                    assert(tallied(r, ps2, true));
                }
                j = j + 1;
            }
            assert(colony_pairs(colonists@, i + 1) == base + colony_row(colonists@, i as int, n as int));
            proof {
                assert((i + 1) * n == i * n + n) by (nonlinear_arith);
            }
            i = i + 1;
        }
        r.connected_pairs.truncate(3);
        r.tense_pairs.truncate(3);
        proof {
            let ps = colony_pairs(colonists@, n as int);
            let c = ranked(pairs_beyond(ps, 10, true), true);
            let t = ranked(pairs_beyond(ps, -10, false), false);
            assert(r.connected_pairs@.map_values(|q: RelationshipPairSummary| pair_view(q)) =~= first_n(c, 3));
            assert(r.tense_pairs@.map_values(|q: RelationshipPairSummary| pair_view(q)) =~= first_n(t, 3));
        }
        r
    }
}


/// The pairs whose value is at least `lo` (when `at_least`) or at most `lo`,
/// as a test on one pair.
pub open spec fn value_beyond(lo: int, at_least: bool) -> spec_fn((Seq<char>, Seq<char>, int)) -> bool {
    |p: (Seq<char>, Seq<char>, int)| (at_least && p.2 >= lo) || (!at_least && p.2 <= lo)
}

/// `s` is ordered by value, highest first when `desc`, lowest first otherwise.
pub open spec fn sorted_by_value(s: Seq<(Seq<char>, Seq<char>, int)>, desc: bool) -> bool {
    forall|i: int, j: int| 0 <= i < j < s.len() ==> ranks_before(#[trigger] s[i].2, #[trigger] s[j].2, desc)
}

/// `p` is the earliest pair of `ps` with the largest value (`strongest`) or
/// with the smallest.
pub open spec fn first_extreme(ps: Seq<(Seq<char>, Seq<char>, int)>, p: (Seq<char>, Seq<char>, int), strongest: bool) -> bool {
    exists|k: int| #![trigger ps[k]] 0 <= k < ps.len() && ps[k] == p
        && (forall|j: int| 0 <= j < ps.len() ==> ranks_before(p.2, #[trigger] ps[j].2, strongest))
        && (forall|j: int| 0 <= j < k ==> !ranks_before(#[trigger] ps[j].2, p.2, strongest))
}

proof fn lemma_beyond_filter(ps: Seq<(Seq<char>, Seq<char>, int)>, lo: int, at_least: bool)
    ensures
        pairs_beyond(ps, lo, at_least) == ps.filter(value_beyond(lo, at_least)),
    decreases ps.len(),
{
    reveal(Seq::filter);
    if ps.len() > 0 {
        lemma_beyond_filter(ps.drop_last(), lo, at_least);
    }
}

proof fn lemma_extreme(ps: Seq<(Seq<char>, Seq<char>, int)>, strongest: bool)
    ensures
        match extreme(ps, strongest) {
            None => ps.len() == 0,
            Some(p) => first_extreme(ps, p, strongest),
        },
    decreases ps.len(),
{
    if ps.len() > 0 {
        let d = ps.drop_last();
        let x = ps.last();
        lemma_extreme(d, strongest);
        match extreme(d, strongest) {
            None => {
                assert(ps[0] == x);
            },
            Some(b) => {
                let k = choose|k: int| #![trigger d[k]] 0 <= k < d.len() && d[k] == b
                    && (forall|j: int| 0 <= j < d.len() ==> ranks_before(b.2, #[trigger] d[j].2, strongest))
                    && (forall|j: int| 0 <= j < k ==> !ranks_before(#[trigger] d[j].2, b.2, strongest));
                if (strongest && x.2 > b.2) || (!strongest && x.2 < b.2) {
                    let n = ps.len() - 1;
                    assert(ps[n] == x);
                    assert forall|j: int| 0 <= j < ps.len() implies ranks_before(x.2, #[trigger] ps[j].2, strongest) by {
                        if j < n {
                            assert(ps[j] == d[j]);
                        }
                    }
                    assert forall|j: int| 0 <= j < n implies !ranks_before(#[trigger] ps[j].2, x.2, strongest) by {
                        assert(ps[j] == d[j]);
                    }
                } else {
                    assert(ps[k] == d[k]);
                    assert forall|j: int| 0 <= j < ps.len() implies ranks_before(b.2, #[trigger] ps[j].2, strongest) by {
                        if j < ps.len() - 1 {
                            assert(ps[j] == d[j]);
                        }
                    }
                    assert forall|j: int| 0 <= j < k implies !ranks_before(#[trigger] ps[j].2, b.2, strongest) by {
                        assert(ps[j] == d[j]);
                    }
                }
            },
        }
    }
}

/// In a sorted list the slot for `x` follows every entry ranking at least
/// as high as `x` and precedes every other.
proof fn lemma_rank_slot_split(s: Seq<(Seq<char>, Seq<char>, int)>, x: int, desc: bool)
    requires
        sorted_by_value(s, desc),
    ensures
        0 <= rank_slot(s, x, desc) <= s.len(),
        forall|i: int| 0 <= i < rank_slot(s, x, desc) ==> ranks_before(#[trigger] s[i].2, x, desc),
        forall|i: int| rank_slot(s, x, desc) <= i < s.len() ==> !ranks_before(#[trigger] s[i].2, x, desc),
    decreases s.len(),
{
    if s.len() > 0 {
        let d = s.drop_last();
        assert(sorted_by_value(d, desc)) by {
            assert forall|i: int, j: int| 0 <= i < j < d.len() implies ranks_before(#[trigger] d[i].2, #[trigger] d[j].2, desc) by {
                assert(d[i] == s[i] && d[j] == s[j]);
            }
        }
        lemma_rank_slot_split(d, x, desc);
        if ranks_before(s.last().2, x, desc) {
            assert forall|i: int| 0 <= i < s.len() implies ranks_before(#[trigger] s[i].2, x, desc) by {
                if i < s.len() - 1 {
                    assert(ranks_before(s[i].2, s[s.len() - 1].2, desc));
                }
            }
        } else {
            assert forall|i: int| 0 <= i < rank_slot(s, x, desc) implies ranks_before(#[trigger] s[i].2, x, desc) by {
                assert(s[i] == d[i]);
            }
            assert forall|i: int| rank_slot(s, x, desc) <= i < s.len() implies !ranks_before(#[trigger] s[i].2, x, desc) by {
                if i < s.len() - 1 {
                    assert(s[i] == d[i]);
                }
            }
        }
    }
}

/// Ranking orders the pairs by value and keeps each of them, no more.
proof fn lemma_ranked(ps: Seq<(Seq<char>, Seq<char>, int)>, desc: bool)
    ensures
        sorted_by_value(ranked(ps, desc), desc),
        ranked(ps, desc).to_multiset() == ps.to_multiset(),
    decreases ps.len(),
{
    broadcast use vstd::seq_lib::to_multiset_insert, vstd::seq_lib::to_multiset_build;
    if ps.len() == 0 {
        assert(ranked(ps, desc) == Seq::<(Seq<char>, Seq<char>, int)>::empty());
        assert(ps =~= Seq::<(Seq<char>, Seq<char>, int)>::empty());
    } else {
        let d = ps.drop_last();
        let x = ps.last();
        lemma_ranked(d, desc);
        let r = ranked(d, desc);
        let slot = rank_slot(r, x.2, desc);
        lemma_rank_slot_split(r, x.2, desc);
        let r2 = r.insert(slot, x);
        assert(ranked(ps, desc) == r2);
        assert forall|i: int, j: int| 0 <= i < j < r2.len() implies ranks_before(#[trigger] r2[i].2, #[trigger] r2[j].2, desc) by {
            if j < slot {
                assert(r2[i] == r[i] && r2[j] == r[j]);
            } else if j == slot {
                assert(r2[i] == r[i]);
            } else if i < slot {
                assert(r2[i] == r[i] && r2[j] == r[j - 1]);
                assert(!ranks_before(r[j - 1].2, x.2, desc));
            } else if i == slot {
                assert(r2[j] == r[j - 1]);
                assert(!ranks_before(r[j - 1].2, x.2, desc));
            } else {
                assert(r2[i] == r[i - 1] && r2[j] == r[j - 1]);
            }
        }
        assert(ps == d.push(x));
    }
}

/// Pairs exist exactly when there are at least two colonists.
proof fn lemma_colony_pairs_empty(cs: Seq<Colonist>, i: int)
    requires
        0 <= i <= cs.len(),
    ensures
        colony_pairs(cs, i).len() == 0 <==> (i == 0 || cs.len() < 2),
    decreases i,
{
    if i > 0 {
        lemma_colony_pairs_empty(cs, i - 1);
        lemma_row_len(cs, i - 1, cs.len() as int);
    }
}

/// The relationship summary in counting form, over all pairs (i, j) with
/// i < j in roster order: the close and strained counts are the numbers of
/// pairs valued at least 10 and at most -10; the connected and tense lists
/// are the first three of those pairs ordered by value (largest first and
/// smallest first, ties in pair order), a sorted rearrangement of them;
/// the strongest and weakest pairs are the earliest pairs with the largest
/// and the smallest value, and there are none with fewer than two
/// colonists.
pub proof fn law_summary_counting(cs: Seq<Colonist>, r: RelationshipSummary)
    requires
        tallied(r, colony_pairs(cs, cs.len() as int), false),
    ensures
        ({
            let ps = colony_pairs(cs, cs.len() as int);
            let close = ps.filter(value_beyond(10, true));
            let strained = ps.filter(value_beyond(-10, false));
            &&& r.relationship_count == ps.len()
            &&& r.close_pairs == close.len()
            &&& r.strained_pairs == strained.len()
            &&& sorted_by_value(ranked(close, true), true)
            &&& ranked(close, true).to_multiset() == close.to_multiset()
            &&& r.connected_pairs@.map_values(|q: RelationshipPairSummary| pair_view(q)) == first_n(ranked(close, true), 3)
            &&& sorted_by_value(ranked(strained, false), false)
            &&& ranked(strained, false).to_multiset() == strained.to_multiset()
            &&& r.tense_pairs@.map_values(|q: RelationshipPairSummary| pair_view(q)) == first_n(ranked(strained, false), 3)
            &&& (r.strongest_pair is None <==> cs.len() < 2)
            &&& (r.weakest_pair is None <==> cs.len() < 2)
            &&& (r.strongest_pair matches Some(p) ==> first_extreme(ps, pair_view(p), true))
            &&& (r.weakest_pair matches Some(p) ==> first_extreme(ps, pair_view(p), false))
        }),
{
    let ps = colony_pairs(cs, cs.len() as int);
    lemma_beyond_filter(ps, 10, true);
    lemma_beyond_filter(ps, -10, false);
    lemma_ranked(ps.filter(value_beyond(10, true)), true);
    lemma_ranked(ps.filter(value_beyond(-10, false)), false);
    lemma_extreme(ps, true);
    lemma_extreme(ps, false);
    lemma_colony_pairs_empty(cs, cs.len() as int);
}

} // verus!
