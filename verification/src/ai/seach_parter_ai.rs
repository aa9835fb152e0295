use vstd::prelude::*;
use crate::components::{Ent, Hunger};
use crate::ai::sighting::{closest_of, dist2, lemma_closest_located, located_candidates, spec_closest};

verus! {

/// The females in heat of species `specie`, in the order they came into heat.
pub open spec fn spec_mates_of_specie(in_heat: Seq<(Ent, String)>, specie: Seq<char>) -> Seq<(Ent, String)> {
    in_heat.filter(|p: (Ent, String)| p.1@ == specie)
}

/// The females in heat of a species.
pub fn mates_of_specie(in_heat: &Vec<(Ent, String)>, specie: &String) -> (r: Vec<Ent>)
    ensures
        r@ == spec_mates_of_specie(in_heat@, specie@).map_values(|p: (Ent, String)| p.0),
{
    let mut r: Vec<Ent> = Vec::new();
    let mut i: usize = 0;
    while i < in_heat.len()
        invariant
            0 <= i <= in_heat@.len(),
            r@ == spec_mates_of_specie(in_heat@.take(i as int), specie@).map_values(|p: (Ent, String)| p.0),
        decreases in_heat.len() - i,
    {
        proof {
            reveal_with_fuel(Seq::filter, 1);
            assert(in_heat@.take(i + 1).drop_last() =~= in_heat@.take(i as int));
        }
        if in_heat[i].1 == *specie {
            r.push(in_heat[i].0);
            proof {
                let f = spec_mates_of_specie(in_heat@.take(i as int), specie@);
                assert(f.push(in_heat@[i as int]).map_values(|p: (Ent, String)| p.0)
                    =~= f.map_values(|p: (Ent, String)| p.0).push(in_heat@[i as int].0));
            }
        }
        i = i + 1;
    }
    assert(in_heat@.take(in_heat@.len() as int) =~= in_heat@);
    r
}

/// The mate a male goes to: none unless it is full; otherwise the closest of
/// the females in heat of its species (the first such on a tie).
pub open spec fn spec_choose_mate(hunger: Hunger, my_pos: (i32, i32), mates: Seq<(Ent, (i32, i32))>) -> Option<Ent> {
    if hunger == Hunger::Full {
        match spec_closest(located_candidates(my_pos, mates), Seq::new(mates.len(), |i: int| true)) {
            Some(i) => Some(mates[i].0),
            None => None,
        }
    } else {
        None
    }
}

/// The mate decision of `SearchParterAI` for one male.
pub fn choose_mate(hunger: Hunger, my_pos: (i32, i32), mates: &Vec<(Ent, (i32, i32))>) -> (r: Option<Ent>)
    ensures
        r == spec_choose_mate(hunger, my_pos, mates@),
        hunger == Hunger::Full && mates@.len() > 0 ==> r is Some,
{
    if hunger == Hunger::Full {
        match closest_of(my_pos, mates) {
            Some(i) => Some(mates[i].0),
            None => None,
        }
    } else {
        None
    }
}

/// A male goes to a mate only when full; then he goes to one exactly when some
/// is listed, and to one at the least distance from him (the first listed such
/// on a tie).
pub proof fn lemma_mate_is_closest(hunger: Hunger, my_pos: (i32, i32), mates: Seq<(Ent, (i32, i32))>)
    ensures
        hunger != Hunger::Full ==> spec_choose_mate(hunger, my_pos, mates) is None,
        hunger == Hunger::Full ==> (spec_choose_mate(hunger, my_pos, mates) is None <==> mates.len() == 0),
        spec_choose_mate(hunger, my_pos, mates) matches Some(e) ==> exists|i: int| {
            &&& 0 <= i < mates.len()
            &&& #[trigger] mates[i].0 == e
            &&& forall|j: int| 0 <= j < mates.len() ==> dist2(my_pos, mates[i].1) <= #[trigger] dist2(my_pos, mates[j].1)
            &&& forall|j: int| 0 <= j < i ==> dist2(my_pos, mates[i].1) < #[trigger] dist2(my_pos, mates[j].1)
        },
{
    lemma_closest_located(my_pos, mates);
}

} // verus!
