use vstd::prelude::*;
use crate::components::{CombatStats, Ent};
use crate::ai::sighting::{FoodCandidate, uncontested, spec_closest, closest_eligible, specie_of, find_specie, contains_entity, lemma_spec_closest_found};
use crate::ai::targeting_ai::{am_i_stronger, stronger};

pub use crate::ai::eating_ai::in_contact;

verus! {

/// Whether a creature with statistics `my_stat` is stronger than the enemy.
#[allow(non_snake_case)]
pub fn AmIStronger(my_stat: &CombatStats, enemy_stat: Option<CombatStats>) -> (r: bool)
    ensures
        r == stronger(*my_stat, enemy_stat),
{
    am_i_stronger(my_stat, enemy_stat)
}

/// An omnivore goes for food it can overpower and that no closer creature claimed.
pub open spec fn omnivore_eligible(c: FoodCandidate, my: CombatStats) -> bool {
    stronger(my, c.stats) && uncontested(c)
}

pub open spec fn omnivore_mask(cands: Seq<FoodCandidate>, my: CombatStats) -> Seq<bool> {
    Seq::new(cands.len(), |i: int| omnivore_eligible(cands[i], my))
}

/// The food an omnivore picks from a list: the closest eligible one (the first
/// such on a tie), with its distance.
pub open spec fn omnivore_pick(cands: Seq<FoodCandidate>, my: CombatStats) -> Option<(Ent, u128)> {
    match spec_closest(cands, omnivore_mask(cands, my)) {
        Some(i) => Some((cands[i].food, cands[i].dist2)),
        None => None,
    }
}

/// Picks the closest food the omnivore can overpower and no closer creature claimed.
fn choose_food(found_foods: &Vec<FoodCandidate>, my_stat: &CombatStats) -> (r: Option<(Ent, u128)>)
    ensures
        r == omnivore_pick(found_foods@, *my_stat),
{
    let mut mask: Vec<bool> = Vec::new();
    let mut i: usize = 0;
    while i < found_foods.len()
        invariant
            0 <= i <= found_foods@.len(),
            mask@ == omnivore_mask(found_foods@, *my_stat).take(i as int),
        decreases found_foods.len() - i,
    {
        let c = found_foods[i];
        let ok = AmIStronger(my_stat, c.stats) && match c.competitor {
            Some(d) => c.dist2 < d,
            None => true,
        };
        mask.push(ok);
        assert(mask@ =~= omnivore_mask(found_foods@, *my_stat).take(i + 1));
        i = i + 1;
    }
    assert(mask@ =~= omnivore_mask(found_foods@, *my_stat));
    match closest_eligible(found_foods, &mask) {
        Some(k) => Some((found_foods[k].food, found_foods[k].dist2)),
        None => None,
    }
}

/// What a hungry omnivore goes for. It first tries the kind of food it digests
/// best (leaves when `prefers_leaf`); if none suits, it tries the other kind,
/// but only when its reserve is low enough for that kind (`meat_ok` for other
/// species, `leaf_ok` for leaves). A creature that is not hungry picks nothing.
pub open spec fn omnivore_plan(
    hungry: bool,
    prefers_leaf: bool,
    meat_ok: bool,
    leaf_ok: bool,
    leaves: Seq<FoodCandidate>,
    others: Seq<FoodCandidate>,
    my: CombatStats,
) -> Option<(Ent, u128)> {
    if !hungry {
        None
    } else if prefers_leaf {
        if omnivore_pick(leaves, my) is Some {
            omnivore_pick(leaves, my)
        } else if meat_ok {
            omnivore_pick(others, my)
        } else {
            None
        }
    } else {
        if omnivore_pick(others, my) is Some {
            omnivore_pick(others, my)
        } else if leaf_ok {
            omnivore_pick(leaves, my)
        } else {
            None
        }
    }
}

/// The food decision of `OmnivoreAI` for one creature: the food it targets
/// and its distance, or `None`.
pub fn omnivore_food_choice(
    hungry: bool,
    prefers_leaf: bool,
    meat_ok: bool,
    leaf_ok: bool,
    leaves: &Vec<FoodCandidate>,
    others: &Vec<FoodCandidate>,
    my_stat: &CombatStats,
) -> (r: Option<(Ent, u128)>)
    ensures
        r == omnivore_plan(hungry, prefers_leaf, meat_ok, leaf_ok, leaves@, others@, *my_stat),
{
    if !hungry {
        return None;
    }
    if prefers_leaf {
        let first = choose_food(leaves, my_stat);
        if first.is_some() {
            first
        } else if meat_ok {
            choose_food(others, my_stat)
        } else {
            None
        }
    } else {
        let first = choose_food(others, my_stat);
        if first.is_some() {
            first
        } else if leaf_ok {
            choose_food(leaves, my_stat)
        } else {
            None
        }
    }
}

/// Food an omnivore can take: weaker than it (or without statistics), and not
/// claimed by a creature closer to it.
pub open spec fn can_take(c: FoodCandidate, my: CombatStats) -> bool {
    &&& (c.stats is None || my.power > c.stats->0.power)
    &&& (c.competitor is None || c.dist2 < c.competitor->0)
}

/// Some food of the list can be taken.
pub open spec fn any_takable(list: Seq<FoodCandidate>, my: CombatStats) -> bool {
    exists|i: int| 0 <= i < list.len() && can_take(#[trigger] list[i], my)
}

/// `r` is a food of the list that can be taken, at the least distance among
/// those that can (the first listed such on a tie), with its distance.
pub open spec fn closest_takable(r: Option<(Ent, u128)>, list: Seq<FoodCandidate>, my: CombatStats) -> bool {
    r matches Some((e, d)) && exists|i: int| {
        &&& 0 <= i < list.len()
        &&& #[trigger] list[i].food == e
        &&& list[i].dist2 == d
        &&& can_take(list[i], my)
        &&& forall|j: int| 0 <= j < list.len() && can_take(#[trigger] list[j], my) ==> d <= list[j].dist2
        &&& forall|j: int| 0 <= j < i && can_take(#[trigger] list[j], my) ==> d < list[j].dist2
    }
}

proof fn lemma_omnivore_pick(cands: Seq<FoodCandidate>, my: CombatStats)
    ensures
        omnivore_pick(cands, my) is Some <==> any_takable(cands, my),
        any_takable(cands, my) ==> closest_takable(omnivore_pick(cands, my), cands, my),
{
    let mask = omnivore_mask(cands, my);
    lemma_spec_closest_found(cands, mask);
    assert forall|j: int| 0 <= j < cands.len() implies mask[j] == can_take(#[trigger] cands[j], my) by {}
    if any_takable(cands, my) {
        let k = choose|k: int| 0 <= k < cands.len() && can_take(#[trigger] cands[k], my);
        assert(mask[k]);
    }
    match spec_closest(cands, mask) {
        Some(i) => {
            assert(cands[i].food == (omnivore_pick(cands, my)->0).0);
        },
        None => {},
    }
}

/// A hungry omnivore first looks for food of the kind it digests best (leaves
/// when it prefers them, else other species) and takes the closest it can
/// take; only when there is none does it turn to the other kind, and only when
/// its reserve allows that kind (`meat_ok` for other species, `leaf_ok` for
/// leaves). Otherwise, and whenever it is not hungry, it takes nothing.
pub proof fn lemma_omnivore_choice(
    hungry: bool,
    prefers_leaf: bool,
    meat_ok: bool,
    leaf_ok: bool,
    leaves: Seq<FoodCandidate>,
    others: Seq<FoodCandidate>,
    my: CombatStats,
)
    ensures
        !hungry ==> omnivore_plan(hungry, prefers_leaf, meat_ok, leaf_ok, leaves, others, my) is None,
        hungry && prefers_leaf && any_takable(leaves, my) ==> closest_takable(
            omnivore_plan(hungry, prefers_leaf, meat_ok, leaf_ok, leaves, others, my), leaves, my),
        hungry && prefers_leaf && !any_takable(leaves, my) && meat_ok && any_takable(others, my) ==> closest_takable(
            omnivore_plan(hungry, prefers_leaf, meat_ok, leaf_ok, leaves, others, my), others, my),
        hungry && prefers_leaf && !any_takable(leaves, my) && !(meat_ok && any_takable(others, my))
            ==> omnivore_plan(hungry, prefers_leaf, meat_ok, leaf_ok, leaves, others, my) is None,
        hungry && !prefers_leaf && any_takable(others, my) ==> closest_takable(
            omnivore_plan(hungry, prefers_leaf, meat_ok, leaf_ok, leaves, others, my), others, my),
        hungry && !prefers_leaf && !any_takable(others, my) && leaf_ok && any_takable(leaves, my) ==> closest_takable(
            omnivore_plan(hungry, prefers_leaf, meat_ok, leaf_ok, leaves, others, my), leaves, my),
        hungry && !prefers_leaf && !any_takable(others, my) && !(leaf_ok && any_takable(leaves, my))
            ==> omnivore_plan(hungry, prefers_leaf, meat_ok, leaf_ok, leaves, others, my) is None,
{
    lemma_omnivore_pick(leaves, my);
    lemma_omnivore_pick(others, my);
}

/// The leaves among the seen entities.
pub open spec fn seen_leaves(seen: Seq<Ent>, leafs: Seq<Ent>) -> Seq<Ent> {
    seen.filter(|e: Ent| leafs.contains(e))
}

/// The seen entities of a species other than `mine`.
pub open spec fn seen_other_specie(seen: Seq<Ent>, species: Seq<(Ent, String)>, mine: Seq<char>) -> Seq<Ent> {
    seen.filter(|e: Ent| specie_of(species, e) is Some && specie_of(species, e)->0 != mine)
}

/// The seen entities of species `mine`.
pub open spec fn seen_same_specie(seen: Seq<Ent>, species: Seq<(Ent, String)>, mine: Seq<char>) -> Seq<Ent> {
    seen.filter(|e: Ent| specie_of(species, e) == Some(mine))
}

/// Sorts what an omnivore sees into leaves, creatures of other species and
/// creatures of its own species (in the order seen).
pub fn sort_seen_food(
    seen: &Vec<Ent>,
    leafs: &Vec<Ent>,
    species: &Vec<(Ent, String)>,
    my_specie: &String,
) -> (r: (Vec<Ent>, Vec<Ent>, Vec<Ent>))
    ensures
        r.0@ == seen_leaves(seen@, leafs@),
        r.1@ == seen_other_specie(seen@, species@, my_specie@),
        r.2@ == seen_same_specie(seen@, species@, my_specie@),
{
    let mut found_leaf: Vec<Ent> = Vec::new();
    let mut found_other_specie: Vec<Ent> = Vec::new();
    let mut found_same_specie: Vec<Ent> = Vec::new();
    let mut i: usize = 0;
    while i < seen.len()
        invariant
            0 <= i <= seen@.len(),
            found_leaf@ == seen_leaves(seen@.take(i as int), leafs@),
            found_other_specie@ == seen_other_specie(seen@.take(i as int), species@, my_specie@),
            found_same_specie@ == seen_same_specie(seen@.take(i as int), species@, my_specie@),
        decreases seen.len() - i,
    {
        let e = seen[i];
        proof {
            reveal_with_fuel(Seq::filter, 1);
            assert(seen@.take(i + 1).drop_last() =~= seen@.take(i as int));
        }
        if contains_entity(leafs, e) {
            found_leaf.push(e);
        }
        match find_specie(species, e) {
            Some(k) => {
                if species[k].1 == *my_specie {
                    found_same_specie.push(e);
                } else {
                    found_other_specie.push(e);
                }
            },
            None => {},
        }
        i = i + 1;
    }
    assert(seen@.take(seen@.len() as int) =~= seen@);
    (found_leaf, found_other_specie, found_same_specie)
}

} // verus!
