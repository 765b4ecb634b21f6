//! Player directives that pair colonists together or keep them apart.
use crate::colonist::{
    all_summable, pair_average, rel, relationship_label, relationships_summable, spec_band, spec_band_label, Colonist,
    RelationshipBand,
};
use crate::text::{plus_signed_decimal, push_plus_signed, text};
use vstd::prelude::*;
use vstd::string::StringExecFns;

verus! {

#[derive(Clone, Copy, Debug, PartialEq, Eq, Structural)]
pub enum PairDirective {
    Pair,
    Separate,
}

#[derive(Clone, Copy, Debug, PartialEq, Eq, Structural)]
pub enum DirectiveChange {
    Applied(PairDirective),
    Cleared(PairDirective),
}

#[derive(Clone, Copy, Debug, PartialEq, Eq, Structural)]
pub enum DirectiveError {
    MissingColonist,
    SameColonist,
}

/// The first colonist with the given id.
pub open spec fn find_colonist(cs: Seq<Colonist>, id: u32) -> Option<Colonist>
    decreases cs.len(),
{
    if cs.len() == 0 {
        None
    } else if cs[0].id == id {
        Some(cs[0])
    } else {
        find_colonist(cs.drop_first(), id)
    }
}

/// The directive both colonists currently carry toward each other.
pub open spec fn spec_directive(cs: Seq<Colonist>, a: u32, b: u32) -> Option<PairDirective> {
    match (find_colonist(cs, a), find_colonist(cs, b)) {
        (Some(first), Some(second)) => if first.preferred_partner_id == Some(b)
            && second.preferred_partner_id == Some(a) {
            Some(PairDirective::Pair)
        } else if first.avoided_partner_id == Some(b) && second.avoided_partner_id == Some(a) {
            Some(PairDirective::Separate)
        } else {
            None
        },
        _ => None,
    }
}

/// The average relationship of a pair, when both colonists exist.
pub open spec fn spec_average(cs: Seq<Colonist>, a: u32, b: u32) -> Option<int> {
    match (find_colonist(cs, a), find_colonist(cs, b)) {
        (Some(first), Some(second)) => Some(pair_average(rel(first, b), rel(second, a))),
        _ => None,
    }
}

/// Tense or hostile pairs are kept apart; every other pair is paired.
pub open spec fn spec_recommended(cs: Seq<Colonist>, a: u32, b: u32) -> Option<PairDirective> {
    match spec_average(cs, a, b) {
        Some(v) => if spec_band(v) == RelationshipBand::Tense || spec_band(v) == RelationshipBand::Hostile {
            Some(PairDirective::Separate)
        } else {
            Some(PairDirective::Pair)
        },
        None => None,
    }
}

/// The partner pins of one colonist after a directive between `a` and `b`
/// is applied: any old pin toward the partner is dropped, then the new one set.
pub open spec fn directed(c: Colonist, a: u32, b: u32, d: Option<PairDirective>) -> Colonist {
    if c.id == a || c.id == b {
        let partner = if c.id == a { b } else { a };
        let preferred = if c.preferred_partner_id == Some(partner) { None } else { c.preferred_partner_id };
        let avoided = if c.avoided_partner_id == Some(partner) { None } else { c.avoided_partner_id };
        Colonist {
            preferred_partner_id: if d == Some(PairDirective::Pair) { Some(partner) } else { preferred },
            avoided_partner_id: if d == Some(PairDirective::Separate) { Some(partner) } else { avoided },
            ..c
        }
    } else {
        c
    }
}

proof fn lemma_find_some(cs: Seq<Colonist>, id: u32)
    ensures
        find_colonist(cs, id) matches Some(c) ==> c.id == id && cs.contains(c),
        find_colonist(cs, id) is None <==> forall|k: int| 0 <= k < cs.len() ==> #[trigger] cs[k].id != id,
    decreases cs.len(),
{
    if cs.len() > 0 {
        lemma_find_some(cs.drop_first(), id);
        if cs[0].id != id {
            if find_colonist(cs, id) is Some {
                let c = find_colonist(cs, id)->0;
                let k = choose|k: int| 0 <= k < cs.drop_first().len() && cs.drop_first()[k] == c;
                assert(cs[k + 1] == c);
            }
            if find_colonist(cs, id) is None {
                assert forall|k: int| 0 <= k < cs.len() implies #[trigger] cs[k].id != id by {
                    if k > 0 {
                        assert(cs[k] == cs.drop_first()[k - 1]);
                    }
                }
            } else {
                let c = find_colonist(cs, id)->0;
                assert(c.id == id);
            }
        } else {
            assert(cs[0] == cs[0]);
        }
    }
}

/// The first colonist with the given id.
pub fn colonist_by_id(colonists: &[Colonist], id: u32) -> (r: Option<&Colonist>)
    ensures
        match r {
            Some(c) => find_colonist(colonists@, id) == Some(*c),
            None => find_colonist(colonists@, id) is None,
        },
{
    let mut i: usize = 0;
    assert(colonists@.subrange(0, colonists@.len() as int) == colonists@);
    while i < colonists.len()
        invariant
            i <= colonists@.len(),
            find_colonist(colonists@, id) == find_colonist(colonists@.subrange(i as int, colonists@.len() as int), id),
        decreases colonists@.len() - i,
    {
        let ghost rest = colonists@.subrange(i as int, colonists@.len() as int);
        assert(rest[0] == colonists@[i as int]);
        assert(rest.drop_first() == colonists@.subrange(i + 1, colonists@.len() as int));
        if colonists[i].id == id {
            return Some(&colonists[i]);
        }
        i = i + 1;
    }
    None
}

/// What the directive panel suggests doing with a pair.
pub open spec fn spec_directive_action(d: Option<PairDirective>) -> Seq<char> {
    match d {
        Some(PairDirective::Pair) => "Pair for shared work and recovery choices"@,
        Some(PairDirective::Separate) => "Keep apart when another room or workplace is available"@,
        None => "No directive available"@,
    }
}

/// The directive panel's line for a pair: their band and average, then the
/// directive in force (or else the suggested one).
pub open spec fn spec_directive_detail(cs: Seq<Colonist>, a: u32, b: u32) -> Seq<char> {
    match (find_colonist(cs, a), find_colonist(cs, b)) {
        (Some(first), Some(second)) => {
            let v = match spec_average(cs, a, b) {
                Some(v) => v,
                None => 0,
            };
            let d = match spec_directive(cs, a, b) {
                Some(x) => Some(x),
                None => spec_recommended(cs, a, b),
            };
            first.name@ + " and "@ + second.name@ + " are "@ + spec_band_label(spec_band(v)) + " ("@
                + plus_signed_decimal(v) + "). "@ + spec_directive_action(d) + "."@
        },
        _ => "Missing survivor."@,
    }
}

pub struct RelationshipDirectiveSystem;

impl RelationshipDirectiveSystem {
    /// Describes a pair for the directive panel.
    pub fn directive_detail(colonists: &[Colonist], first_id: u32, second_id: u32) -> (r: String)
        requires
            all_summable(colonists@),
        ensures
            r@ == spec_directive_detail(colonists@, first_id, second_id),
    {
        let first = match colonist_by_id(colonists, first_id) {
            Some(c) => c,
            None => return text("Missing survivor."),
        };
        let second = match colonist_by_id(colonists, second_id) {
            Some(c) => c,
            None => return text("Missing survivor."),
        };
        let value = match Self::average_relationship(colonists, first_id, second_id) {
            Some(v) => v,
            None => 0,
        };
        let current = Self::directive_for_pair(colonists, first_id, second_id);
        let chosen = match current {
            Some(d) => Some(d),
            None => Self::recommended_directive(colonists, first_id, second_id),
        };
        let action = match chosen {
            Some(PairDirective::Pair) => "Pair for shared work and recovery choices",
            Some(PairDirective::Separate) => "Keep apart when another room or workplace is available",
            None => "No directive available",
        };
        let mut s = text(first.name.as_str());
        s.append(" and ");
        s.append(second.name.as_str());
        s.append(" are ");
        s.append(relationship_label(value));
        s.append(" (");
        push_plus_signed(&mut s, value as i64);
        s.append("). ");
        s.append(action);
        s.append(".");
        s
    }

    /// The directive currently set between two colonists, if both carry it.
    pub fn directive_for_pair(colonists: &[Colonist], first_id: u32, second_id: u32) -> (r: Option<PairDirective>)
        ensures
            r == spec_directive(colonists@, first_id, second_id),
    {
        let first = match colonist_by_id(colonists, first_id) {
            Some(c) => c,
            None => return None,
        };
        let second = match colonist_by_id(colonists, second_id) {
            Some(c) => c,
            None => return None,
        };
        if first.preferred_partner_id == Some(second_id) && second.preferred_partner_id == Some(first_id) {
            Some(PairDirective::Pair)
        } else if first.avoided_partner_id == Some(second_id) && second.avoided_partner_id == Some(first_id) {
            Some(PairDirective::Separate)
        } else {
            None
        }
    }

    /// The directive the relationship suggests: apart for tense or hostile
    /// pairs, together otherwise.
    pub fn recommended_directive(colonists: &[Colonist], first_id: u32, second_id: u32) -> (r: Option<PairDirective>)
        requires
            all_summable(colonists@),
        ensures
            r == spec_recommended(colonists@, first_id, second_id),
    {
        let value = match Self::average_relationship(colonists, first_id, second_id) {
            Some(v) => v,
            None => return None,
        };
        if RelationshipBand::from_value(value).is_risk() {
            Some(PairDirective::Separate)
        } else {
            Some(PairDirective::Pair)
        }
    }

    /// The pair's average relationship, where an unrecorded side defers to
    /// the other side.
    pub fn average_relationship(colonists: &[Colonist], first_id: u32, second_id: u32) -> (r: Option<i32>)
        requires
            all_summable(colonists@),
        ensures
            match r {
                Some(v) => spec_average(colonists@, first_id, second_id) == Some(v as int),
                None => spec_average(colonists@, first_id, second_id) is None,
            },
    {
        let first = match colonist_by_id(colonists, first_id) {
            Some(c) => c,
            None => return None,
        };
        let second = match colonist_by_id(colonists, second_id) {
            Some(c) => c,
            None => return None,
        };
        proof {
            lemma_find_some(colonists@, first_id);
            lemma_find_some(colonists@, second_id);
            let i = choose|i: int| 0 <= i < colonists@.len() && colonists@[i] == *first;
            let j = choose|j: int| 0 <= j < colonists@.len() && colonists@[j] == *second;
            assert(relationships_summable(colonists@[i]));
            assert(relationships_summable(colonists@[j]));
        }
        let first_value = first.relationship_with(second_id);
        let second_value = second.relationship_with(first_id);
        Some(if first_value == 0 {
            second_value
        } else if second_value == 0 {
            first_value
        } else {
            (first_value + second_value) / 2
        })
    }
}

impl PairDirective {
    pub fn label(self) -> (r: &'static str)
        ensures
            r@ == (match self {
                PairDirective::Pair => "Pair"@,
                PairDirective::Separate => "Apart"@,
            }),
    {
        proof {
            reveal_strlit("Pair");
            reveal_strlit("Apart");
        }
        match self {
            PairDirective::Pair => "Pair",
            PairDirective::Separate => "Apart",
        }
    }

    pub fn log_title(self) -> (r: &'static str)
        ensures
            r@ == (match self {
                PairDirective::Pair => "Pair directive"@,
                PairDirective::Separate => "Space directive"@,
            }),
    {
        proof {
            reveal_strlit("Pair directive");
            reveal_strlit("Space directive");
        }
        match self {
            PairDirective::Pair => "Pair directive",
            PairDirective::Separate => "Space directive",
        }
    }
}

proof fn lemma_find_directed(cs: Seq<Colonist>, id: u32, a: u32, b: u32, d: Option<PairDirective>)
    ensures
        find_colonist(cs.map_values(|c: Colonist| directed(c, a, b, d)), id) == match find_colonist(cs, id) {
            Some(c) => Some(directed(c, a, b, d)),
            None => None,
        },
    decreases cs.len(),
{
    let m = cs.map_values(|c: Colonist| directed(c, a, b, d));
    if cs.len() > 0 {
        assert(m.drop_first() == cs.drop_first().map_values(|c: Colonist| directed(c, a, b, d)));
        lemma_find_directed(cs.drop_first(), id, a, b, d);
        assert(m[0] == directed(cs[0], a, b, d));
    }
}

/// Sets (or, with `None`, clears) the directive between two colonists on
/// every colonist carrying either id.
fn apply_directive(colonists: &mut [Colonist], first_id: u32, second_id: u32, directive: Option<PairDirective>)
    ensures
        final(colonists)@ == old(colonists)@.map_values(|c: Colonist| directed(c, first_id, second_id, directive)),
{
    let ghost c0 = colonists@;
    let mut i: usize = 0;
    while i < colonists.len()
        invariant
            i <= colonists@.len(),
            colonists@.len() == c0.len(),
            forall|k: int| 0 <= k < i ==> #[trigger] colonists@[k] == directed(c0[k], first_id, second_id, directive),
            forall|k: int| i <= k < c0.len() ==> #[trigger] colonists@[k] == c0[k],
        decreases c0.len() - i,
    {
        let id = colonists[i].id;
        if id == first_id || id == second_id {
            let partner_id = if id == first_id { second_id } else { first_id };
            if colonists[i].preferred_partner_id == Some(partner_id) {
                colonists[i].preferred_partner_id = None;
            }
            if colonists[i].avoided_partner_id == Some(partner_id) {
                colonists[i].avoided_partner_id = None;
            }
            match directive {
                Some(PairDirective::Pair) => colonists[i].preferred_partner_id = Some(partner_id),
                Some(PairDirective::Separate) => colonists[i].avoided_partner_id = Some(partner_id),
                None => {},
            }
        }
        i = i + 1;
    }
    assert(colonists@ == c0.map_values(|c: Colonist| directed(c, first_id, second_id, directive)));
}

/// What `toggle_pair_directive` does: the same id twice and unknown ids are
/// refused without changes; otherwise, when the pair already carries the
/// directive its relationship recommends, that directive is cleared, and if
/// not it is set.
pub open spec fn toggle_post(c0: Seq<Colonist>, a: u32, b: u32, c1: Seq<Colonist>, r: Result<DirectiveChange, DirectiveError>) -> bool {
    if a == b {
        r == Err::<DirectiveChange, DirectiveError>(DirectiveError::SameColonist) && c1 == c0
    } else if find_colonist(c0, a) is None || find_colonist(c0, b) is None {
        r == Err::<DirectiveChange, DirectiveError>(DirectiveError::MissingColonist) && c1 == c0
    } else {
        let next = spec_recommended(c0, a, b)->0;
        if spec_directive(c0, a, b) == Some(next) {
            &&& r == Ok::<DirectiveChange, DirectiveError>(DirectiveChange::Cleared(next))
            &&& c1 == c0.map_values(|c: Colonist| directed(c, a, b, None))
        } else {
            &&& r == Ok::<DirectiveChange, DirectiveError>(DirectiveChange::Applied(next))
            &&& c1 == c0.map_values(|c: Colonist| directed(c, a, b, Some(next)))
        }
    }
}

impl RelationshipDirectiveSystem {
    /// Toggles the recommended directive for a pair of colonists.
    pub fn toggle_pair_directive(colonists: &mut [Colonist], first_id: u32, second_id: u32) -> (r: Result<DirectiveChange, DirectiveError>)
        requires
            all_summable(old(colonists)@),
        ensures
            toggle_post(old(colonists)@, first_id, second_id, final(colonists)@, r),
    {
        if first_id == second_id {
            return Err(DirectiveError::SameColonist);
        }
        if colonist_by_id(colonists, first_id).is_none() || colonist_by_id(colonists, second_id).is_none() {
            return Err(DirectiveError::MissingColonist);
        }
        let next_directive = match Self::recommended_directive(colonists, first_id, second_id) {
            Some(d) => d,
            None => return Err(DirectiveError::MissingColonist),
        };
        if Self::directive_for_pair(colonists, first_id, second_id) == Some(next_directive) {
            apply_directive(colonists, first_id, second_id, None);
            Ok(DirectiveChange::Cleared(next_directive))
        } else {
            apply_directive(colonists, first_id, second_id, Some(next_directive));
            Ok(DirectiveChange::Applied(next_directive))
        }
    }

    /// A toggle's answer is what the pair carries afterwards: an applied
    /// directive is in force for both colonists, a cleared one leaves the
    /// pair without any directive.
    pub proof fn law_toggle_outcome_in_force(c0: Seq<Colonist>, a: u32, b: u32, c1: Seq<Colonist>, r: Result<DirectiveChange, DirectiveError>)
        requires
            toggle_post(c0, a, b, c1, r),
        ensures
            r matches Ok(DirectiveChange::Applied(d)) ==> spec_directive(c1, a, b) == Some(d),
            r matches Ok(DirectiveChange::Cleared(_)) ==> spec_directive(c1, a, b) is None,
            r is Err ==> c1 == c0,
    {
        if a != b && find_colonist(c0, a) is Some && find_colonist(c0, b) is Some {
            lemma_find_some(c0, a);
            lemma_find_some(c0, b);
            let next = spec_recommended(c0, a, b)->0;
            if spec_directive(c0, a, b) == Some(next) {
                lemma_find_directed(c0, a, a, b, None);
                lemma_find_directed(c0, b, a, b, None);
            } else {
                lemma_find_directed(c0, a, a, b, Some(next));
                lemma_find_directed(c0, b, a, b, Some(next));
            }
        }
    }

    /// A toggle that applied a directive is undone by the next toggle: the
    /// two colonists are left with no pin toward each other, colonists with
    /// other ids are untouched, and only partner pins change.
    pub proof fn law_toggle_twice_clears(
        c0: Seq<Colonist>,
        a: u32,
        b: u32,
        c1: Seq<Colonist>,
        r1: Result<DirectiveChange, DirectiveError>,
        c2: Seq<Colonist>,
        r2: Result<DirectiveChange, DirectiveError>,
    )
        requires
            toggle_post(c0, a, b, c1, r1),
            toggle_post(c1, a, b, c2, r2),
            r1 matches Ok(DirectiveChange::Applied(_)),
        ensures
            r2 is Ok,
            spec_directive(c2, a, b) is None,
            c2.len() == c0.len(),
            forall|k: int| 0 <= k < c0.len() && c0[k].id != a && c0[k].id != b ==> #[trigger] c2[k] == c0[k],
            forall|k: int| 0 <= k < c0.len() && (c0[k].id == a || c0[k].id == b) ==> {
                let partner = if c0[k].id == a { b } else { a };
                &&& (#[trigger] c2[k]).preferred_partner_id != Some(partner)
                &&& c2[k].avoided_partner_id != Some(partner)
                &&& (Colonist { preferred_partner_id: c2[k].preferred_partner_id, avoided_partner_id: c2[k].avoided_partner_id, ..c0[k] }) == c2[k]
            },
    {
        lemma_find_some(c0, a);
        lemma_find_some(c0, b);
        let next = spec_recommended(c0, a, b)->0;
        lemma_find_directed(c0, a, a, b, None);
        lemma_find_directed(c0, b, a, b, None);
        lemma_find_directed(c0, a, a, b, Some(next));
        lemma_find_directed(c0, b, a, b, Some(next));
        Self::law_toggle_outcome_in_force(c0, a, b, c1, r1);
        assert(spec_average(c1, a, b) == spec_average(c0, a, b));
        assert(spec_directive(c1, a, b) == Some(next));
        assert forall|k: int| 0 <= k < c0.len() implies #[trigger] c2[k] == directed(directed(c0[k], a, b, Some(next)), a, b, None) by {
            assert(c1[k] == directed(c0[k], a, b, Some(next)));
            assert(c2[k] == directed(c1[k], a, b, None));
        }
        lemma_find_directed(c1, a, a, b, None);
        lemma_find_directed(c1, b, a, b, None);
    }
}

} // verus!
