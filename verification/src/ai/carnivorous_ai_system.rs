use vstd::prelude::*;
use crate::components::Ent;
use crate::ai::sighting::{closest_of, dist2, lemma_closest_located, located_candidates, spec_closest};

verus! {

/// The herbivore a carnivore hunts: the closest one it sees (the first such on a tie).
pub open spec fn spec_choose_herbivore(my_pos: (i32, i32), herbivores: Seq<(Ent, (i32, i32))>) -> Option<Ent> {
    match spec_closest(located_candidates(my_pos, herbivores), Seq::new(herbivores.len(), |i: int| true)) {
        Some(i) => Some(herbivores[i].0),
        None => None,
    }
}

/// The target decision of `CarnivorousAI` for one carnivore.
pub fn choose_herbivore(my_pos: (i32, i32), herbivores: &Vec<(Ent, (i32, i32))>) -> (r: Option<Ent>)
    ensures
        r == spec_choose_herbivore(my_pos, herbivores@),
        r is Some <==> herbivores@.len() > 0,
{
    match closest_of(my_pos, herbivores) {
        Some(i) => Some(herbivores[i].0),
        None => None,
    }
}

/// A carnivore hunts exactly when it sees some herbivore, and then one at the
/// least distance from it (the first listed such on a tie).
pub proof fn lemma_prey_is_closest(my_pos: (i32, i32), herbivores: Seq<(Ent, (i32, i32))>)
    ensures
        spec_choose_herbivore(my_pos, herbivores) is None <==> herbivores.len() == 0,
        spec_choose_herbivore(my_pos, herbivores) matches Some(e) ==> exists|i: int| {
            &&& 0 <= i < herbivores.len()
            &&& #[trigger] herbivores[i].0 == e
            &&& forall|j: int| 0 <= j < herbivores.len() ==> dist2(my_pos, herbivores[i].1) <= #[trigger] dist2(my_pos, herbivores[j].1)
            &&& forall|j: int| 0 <= j < i ==> dist2(my_pos, herbivores[i].1) < #[trigger] dist2(my_pos, herbivores[j].1)
        },
{
    lemma_closest_located(my_pos, herbivores);
}

} // verus!
