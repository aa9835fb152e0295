use vstd::prelude::*;
use crate::components::{CombatStats, Ent};
use crate::ai::sighting::{FoodCandidate, uncontested, dist2, distance_sq, specie_of, find_specie};

verus! {

/// A creature is stronger than an enemy without combat statistics, and than
/// one whose power is below its own.
pub open spec fn stronger(my: CombatStats, enemy: Option<CombatStats>) -> bool {
    match enemy {
        Some(s) => my.power > s.power,
        None => true,
    }
}

/// Whether a creature with statistics `my_stat` is stronger than the enemy.
pub fn am_i_stronger(my_stat: &CombatStats, enemy_stat: Option<CombatStats>) -> (r: bool)
    ensures
        r == stronger(*my_stat, enemy_stat),
{
    let ret;
    if let Some(enemy) = enemy_stat {
        if my_stat.power > enemy.power {
            ret = true;
        } else {
            ret = false;
        }
    } else {
        ret = true
    }
    ret
}


/// What the targeting system knows of a seen entity: whether it has the
/// component searched for, and its position if it has one.
#[derive(Clone, Copy, Debug)]
pub struct Sighted {
    pub entity: Ent,
    pub has_component: bool,
    pub pos: Option<(i32, i32)>,
}

/// The seen entities that have the component and a position, each with its
/// squared distance from `from`, in the order seen.
pub open spec fn keyed(list: Seq<Sighted>, from: (i32, i32)) -> Seq<(u128, Ent)>
    decreases list.len(),
{
    if list.len() == 0 {
        Seq::empty()
    } else {
        let rest = keyed(list.drop_last(), from);
        let last = list.last();
        if last.has_component && last.pos is Some {
            rest.push((dist2(from, last.pos->0) as u128, last.entity))
        } else {
            rest
        }
    }
}

pub open spec fn sorted_by_dist(r: Seq<(u128, Ent)>) -> bool {
    forall|i: int, j: int| 0 <= i < j < r.len() ==> #[trigger] r[i].0 <= #[trigger] r[j].0
}

pub open spec fn at_dist(d: u128) -> spec_fn((u128, Ent)) -> bool {
    |p: (u128, Ent)| p.0 == d
}

/// `r` is `f` sorted by distance, entries at the same distance keeping their
/// order (a stable sort).
pub open spec fn stable_sorted(r: Seq<(u128, Ent)>, f: Seq<(u128, Ent)>) -> bool {
    &&& sorted_by_dist(r)
    &&& forall|d: u128| #[trigger] r.filter(at_dist(d)) == f.filter(at_dist(d))
}

/// The seen entities that have the searched component and a position, with their
/// squared distance, sorted by distance (closest first; ties keep the order seen).
pub fn filter_component_distance(entity_list: &Vec<Sighted>, from: (i32, i32)) -> (r: Vec<(u128, Ent)>)
    ensures
        stable_sorted(r@, keyed(entity_list@, from)),
{
    let mut filtered_entities: Vec<(u128, Ent)> = Vec::new();
    let mut i: usize = 0;
    proof {
        reveal_with_fuel(Seq::filter, 1);
        assert(entity_list@.take(0) =~= Seq::<Sighted>::empty());
    }
    while i < entity_list.len()
        invariant
            0 <= i <= entity_list@.len(),
            stable_sorted(filtered_entities@, keyed(entity_list@.take(i as int), from)),
        decreases entity_list.len() - i,
    {
        let s = entity_list[i];
        proof {
            assert(entity_list@.take(i + 1).drop_last() =~= entity_list@.take(i as int));
        }
        if s.has_component {
            if let Some(p) = s.pos {
                let d = distance_sq(from, p);
                let x = (d, s.entity);
                let mut k: usize = 0;
                while k < filtered_entities.len() && filtered_entities[k].0 <= d
                    invariant
                        0 <= k <= filtered_entities@.len(),
                        forall|q: int| 0 <= q < k ==> #[trigger] filtered_entities@[q].0 <= d,
                    decreases filtered_entities.len() - k,
                {
                    k = k + 1;
                }
                let ghost before = filtered_entities@;
                let ghost prefix = keyed(entity_list@.take(i as int), from);
                proof {
                    assert forall|q: int| k <= q < before.len() implies #[trigger] before[q].0 > d by {
                        assert(before[k as int].0 > d);
                        if q > k {
                            assert(before[k as int].0 <= before[q].0);
                        }
                    }
                    lemma_insert_sorted(before, k as int, x);
                    assert forall|dd: u128| #[trigger] prefix.push(x).filter(at_dist(dd)) == if dd == d {
                        prefix.filter(at_dist(dd)).push(x)
                    } else {
                        prefix.filter(at_dist(dd))
                    } by {
                        reveal_with_fuel(Seq::filter, 1);
                        assert(prefix.push(x).drop_last() =~= prefix);
                    }
                }
                filtered_entities.insert(k, x);
                proof {
                    assert(keyed(entity_list@.take(i + 1), from) == prefix.push(x));
                    assert forall|dd: u128| #[trigger] filtered_entities@.filter(at_dist(dd)) == keyed(entity_list@.take(i + 1), from).filter(at_dist(dd)) by {
                        assert(before.filter(at_dist(dd)) == prefix.filter(at_dist(dd)));
                    }
                }
            }
        }
        i = i + 1;
    }
    assert(entity_list@.take(entity_list@.len() as int) =~= entity_list@);
    filtered_entities
}

proof fn lemma_filter_none(s: Seq<(u128, Ent)>, pred: spec_fn((u128, Ent)) -> bool)
    requires
        forall|k: int| 0 <= k < s.len() ==> !pred(#[trigger] s[k]),
    ensures
        s.filter(pred) == Seq::<(u128, Ent)>::empty(),
    decreases s.len(),
{
    reveal_with_fuel(Seq::filter, 1);
    if s.len() > 0 {
        lemma_filter_none(s.drop_last(), pred);
        assert(s.filter(pred) =~= s.drop_last().filter(pred));
    } else {
        assert(s.filter(pred) =~= Seq::<(u128, Ent)>::empty());
    }
}

proof fn lemma_insert_sorted(r: Seq<(u128, Ent)>, p: int, x: (u128, Ent))
    requires
        sorted_by_dist(r),
        0 <= p <= r.len(),
        forall|k: int| 0 <= k < p ==> #[trigger] r[k].0 <= x.0,
        forall|k: int| p <= k < r.len() ==> #[trigger] r[k].0 > x.0,
    ensures
        sorted_by_dist(r.insert(p, x)),
        forall|d: u128| #[trigger] r.insert(p, x).filter(at_dist(d)) == if d == x.0 {
            r.filter(at_dist(d)).push(x)
        } else {
            r.filter(at_dist(d))
        },
{
    let a = r.subrange(0, p);
    let b = r.subrange(p, r.len() as int);
    r.insert_ensures(p, x);
    assert forall|i: int, j: int| 0 <= i < j < r.insert(p, x).len() implies #[trigger] r.insert(p, x)[i].0 <= #[trigger] r.insert(p, x)[j].0 by {
        if j < p {
        } else if j == p {
        } else if i < p {
            assert(r.insert(p, x)[j] == r[j - 1]);
        } else if i == p {
            assert(r.insert(p, x)[j] == r[j - 1]);
        } else {
            assert(r.insert(p, x)[j] == r[j - 1]);
            assert(r.insert(p, x)[i] == r[i - 1]);
        }
    }
    assert(r =~= a + b);
    assert forall|d: u128| #[trigger] r.insert(p, x).filter(at_dist(d)) == if d == x.0 {
        r.filter(at_dist(d)).push(x)
    } else {
        r.filter(at_dist(d))
    } by {
        let pred = at_dist(d);
        reveal_with_fuel(Seq::filter, 1);
        assert(a.push(x).drop_last() =~= a);
        Seq::filter_distributes_over_add(a.push(x), b, pred);
        Seq::filter_distributes_over_add(a, b, pred);
        if d == x.0 {
            assert forall|k: int| 0 <= k < b.len() implies !pred(#[trigger] b[k]) by {
                assert(b[k] == r[p + k]);
            }
            lemma_filter_none(b, pred);
            assert(r.insert(p, x) == a.push(x) + b);
            assert(a.filter(pred).push(x) + b.filter(pred) =~= a.filter(pred).push(x));
            assert(a.filter(pred) + b.filter(pred) =~= a.filter(pred));
        } else {
            assert(r.insert(p, x) == a.push(x) + b);
        }
    }
}

/// The entries whose entity is not of species `mine` (entities without a
/// species are kept), in order.
pub open spec fn spec_not_my_specie(list: Seq<(u128, Ent)>, species: Seq<(Ent, String)>, mine: Seq<char>) -> Seq<(u128, Ent)> {
    list.filter(|p: (u128, Ent)| specie_of(species, p.1) != Some(mine))
}

/// Drops from the list the entities of the creature's own species.
pub fn not_my_specie(entity_list: Vec<(u128, Ent)>, my_specie: &String, species: &Vec<(Ent, String)>) -> (r: Vec<(u128, Ent)>)
    ensures
        r@ == spec_not_my_specie(entity_list@, species@, my_specie@),
{
    let mut ret: Vec<(u128, Ent)> = Vec::new();
    let mut i: usize = 0;
    while i < entity_list.len()
        invariant
            0 <= i <= entity_list@.len(),
            ret@ == spec_not_my_specie(entity_list@.take(i as int), species@, my_specie@),
        decreases entity_list.len() - i,
    {
        let member = entity_list[i];
        proof {
            reveal_with_fuel(Seq::filter, 1);
            assert(entity_list@.take(i + 1).drop_last() =~= entity_list@.take(i as int));
        }
        match find_specie(species, member.1) {
            Some(k) => {
                if species[k].1 == *my_specie {
                } else {
                    ret.push(member);
                }
            },
            None => {
                ret.push(member);
            },
        }
        i = i + 1;
    }
    assert(entity_list@.take(entity_list@.len() as int) =~= entity_list@);
    ret
}

/// The targeting system goes for a food that no closer creature claimed; an
/// animal only if it is weaker and hunting it gains energy.
pub open spec fn targeting_eligible(c: FoodCandidate, my: Option<CombatStats>) -> bool {
    uncontested(c) && (!c.is_animal || (stronger(my->0, c.stats) && c.hunt_gain))
}

/// The first eligible food of a distance-sorted list.
pub open spec fn first_eligible(cands: Seq<FoodCandidate>, my: Option<CombatStats>) -> Option<int> {
    if exists|i: int| 0 <= i < cands.len() && targeting_eligible(cands[i], my) {
        Some(choose|i: int| 0 <= i < cands.len() && targeting_eligible(cands[i], my)
            && forall|j: int| 0 <= j < i ==> !targeting_eligible(#[trigger] cands[j], my))
    } else {
        None
    }
}

/// The inputs on which the choice never needs the creature's own statistics
/// without having them: it has them, or no animal is looked at before a choice.
pub open spec fn stats_available(cands: Seq<FoodCandidate>, my: Option<CombatStats>) -> bool {
    my is Some || forall|i: int|
        0 <= i < cands.len() && uncontested(cands[i]) && cands[i].is_animal ==> exists|j: int|
            0 <= j < i && targeting_eligible(#[trigger] cands[j], my)
}

/// Picks, in a distance-sorted list, the first food the creature may go for.
pub fn choose_food(found_foods: &Vec<FoodCandidate>, my_stat: Option<CombatStats>) -> (r: Option<usize>)
    requires
        stats_available(found_foods@, my_stat),
    ensures
        index_of(r) == first_eligible(found_foods@, my_stat),
{
    let mut i: usize = 0;
    while i < found_foods.len()
        invariant
            0 <= i <= found_foods@.len(),
            stats_available(found_foods@, my_stat),
            forall|j: int| 0 <= j < i ==> !targeting_eligible(#[trigger] found_foods@[j], my_stat),
        decreases found_foods.len() - i,
    {
        let c = found_foods[i];
        let uncontested_food = match c.competitor {
            Some(d) => c.dist2 < d,
            None => true,
        };
        let mut choose_made = false;
        if uncontested_food {
            if c.is_animal {
                let my = match my_stat {
                    Some(m) => m,
                    None => {
                        proof {
                            assert(uncontested(found_foods@[i as int]) && found_foods@[i as int].is_animal);
                        }
                        return None;
                    },
                };
                if am_i_stronger(&my, c.stats) && c.hunt_gain {
                    choose_made = true;
                }
            } else {
                choose_made = true;
            }
        }
        if choose_made {
            proof { lemma_first_eligible(found_foods@, my_stat, i as int); }
            return Some(i);
        }
        i = i + 1;
    }
    None
}

pub open spec fn index_of(r: Option<usize>) -> Option<int> {
    match r {
        Some(i) => Some(i as int),
        None => None,
    }
}

proof fn lemma_first_eligible(cands: Seq<FoodCandidate>, my: Option<CombatStats>, i: int)
    requires
        0 <= i < cands.len(),
        targeting_eligible(cands[i], my),
        forall|j: int| 0 <= j < i ==> !targeting_eligible(#[trigger] cands[j], my),
    ensures
        first_eligible(cands, my) == Some(i),
{
    let k = choose|k: int| 0 <= k < cands.len() && targeting_eligible(cands[k], my)
        && forall|j: int| 0 <= j < k ==> !targeting_eligible(#[trigger] cands[j], my);
    if k < i {
        assert(!targeting_eligible(cands[k], my));
    } else if i < k {
        assert(!targeting_eligible(cands[i], my));
    }
}

/// Some eligible entry at or before `i`, with none eligible before it.
proof fn lemma_first_eligible_below(cands: Seq<FoodCandidate>, my: Option<CombatStats>, i: int) -> (k: int)
    requires
        0 <= i < cands.len(),
        targeting_eligible(cands[i], my),
    ensures
        0 <= k <= i,
        targeting_eligible(cands[k], my),
        forall|j: int| 0 <= j < k ==> !targeting_eligible(#[trigger] cands[j], my),
    decreases i,
{
    if exists|j: int| 0 <= j < i && targeting_eligible(#[trigger] cands[j], my) {
        let j = choose|j: int| 0 <= j < i && targeting_eligible(#[trigger] cands[j], my);
        lemma_first_eligible_below(cands, my, j)
    } else {
        i
    }
}

/// The first eligible food is found exactly when some food is eligible, and it
/// is eligible with none eligible before it.
pub proof fn lemma_first_eligible_found(cands: Seq<FoodCandidate>, my: Option<CombatStats>)
    ensures
        first_eligible(cands, my) is None <==> forall|i: int|
            0 <= i < cands.len() ==> !targeting_eligible(#[trigger] cands[i], my),
        first_eligible(cands, my) matches Some(i) ==> {
            &&& 0 <= i < cands.len()
            &&& targeting_eligible(cands[i], my)
            &&& forall|j: int| 0 <= j < i ==> !targeting_eligible(#[trigger] cands[j], my)
        },
{
    if exists|i: int| 0 <= i < cands.len() && targeting_eligible(cands[i], my) {
        let i = choose|i: int| 0 <= i < cands.len() && targeting_eligible(cands[i], my);
        let k = lemma_first_eligible_below(cands, my, i);
        lemma_first_eligible(cands, my, k);
    }
}

/// The targeting system takes a food only if no closer creature claimed it,
/// and an animal only if the creature is stronger than it (or it has no
/// statistics) and hunting it gains energy; any other unclaimed food it takes.
pub proof fn lemma_targeting_eligible_means(c: FoodCandidate, my: Option<CombatStats>)
    ensures
        targeting_eligible(c, my) <==> (c.competitor is None || c.dist2 < c.competitor->0)
            && (!c.is_animal || ((c.stats is None || (my->0).power > (c.stats->0).power) && c.hunt_gain)),
{
}

/// The foods of one kind the creature likes, in its order of preference, and
/// whether its reserve is low enough for it to look for that kind.
pub struct PreferenceFoods {
    pub wanted: bool,
    pub foods: Vec<FoodCandidate>,
}

/// The targeting decision for one creature: the first kind of food (most
/// preferred first) that it wants and of which it may go for some food, with
/// the index of that food.
pub open spec fn preferred_choice(prefs: Seq<PreferenceFoods>, my: Option<CombatStats>, upto: int) -> Option<(int, int)>
    decreases upto,
{
    if upto <= 0 {
        None
    } else {
        match preferred_choice(prefs, my, upto - 1) {
            Some(c) => Some(c),
            None => {
                let p = prefs[upto - 1];
                if p.wanted && first_eligible(p.foods@, my) is Some {
                    Some((upto - 1, first_eligible(p.foods@, my)->0))
                } else {
                    None
                }
            },
        }
    }
}

/// Goes through the kinds of food in order of preference and picks the first food
/// the creature may go for, in the first kind it wants that offers one.
pub fn choose_preferred_food(prefs: &Vec<PreferenceFoods>, my_stat: Option<CombatStats>) -> (r: Option<(usize, usize)>)
    requires
        forall|k: int| 0 <= k < prefs@.len() && #[trigger] prefs@[k].wanted ==> stats_available(prefs@[k].foods@, my_stat),
    ensures
        match r {
            Some((p, f)) => preferred_choice(prefs@, my_stat, prefs@.len() as int) == Some((p as int, f as int)),
            None => preferred_choice(prefs@, my_stat, prefs@.len() as int) is None,
        },
{
    let mut k: usize = 0;
    while k < prefs.len()
        invariant
            0 <= k <= prefs@.len(),
            forall|q: int| 0 <= q < prefs@.len() && #[trigger] prefs@[q].wanted ==> stats_available(prefs@[q].foods@, my_stat),
            preferred_choice(prefs@, my_stat, k as int) is None,
        decreases prefs.len() - k,
    {
        if prefs[k].wanted {
            if let Some(f) = choose_food(&prefs[k].foods, my_stat) {
                proof { lemma_choice_stable(prefs@, my_stat, k + 1, prefs@.len() as int); }
                return Some((k, f));
            }
        }
        k = k + 1;
    }
    None
}

proof fn lemma_choice_stable(prefs: Seq<PreferenceFoods>, my: Option<CombatStats>, a: int, b: int)
    requires
        0 <= a <= b,
        preferred_choice(prefs, my, a) is Some,
    ensures
        preferred_choice(prefs, my, b) == preferred_choice(prefs, my, a),
    decreases b - a,
{
    if a < b {
        lemma_choice_stable(prefs, my, a, b - 1);
    }
}

} // verus!
