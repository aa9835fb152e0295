use vstd::prelude::*;
use crate::components::Ent;
use crate::ai::sighting::{FoodCandidate, uncontested, closest_eligible, spec_closest, lemma_spec_closest_found};

verus! {

pub open spec fn uncontested_mask(leaves: Seq<FoodCandidate>) -> Seq<bool> {
    Seq::new(leaves.len(), |i: int| uncontested(leaves[i]))
}

/// The leaf a herbivore goes for: the closest one that no closer creature
/// claimed (the first such on a tie), with its distance.
pub open spec fn spec_choose_leaf(leaves: Seq<FoodCandidate>) -> Option<(Ent, u128)> {
    match spec_closest(leaves, uncontested_mask(leaves)) {
        Some(i) => Some((leaves[i].food, leaves[i].dist2)),
        None => None,
    }
}

/// The leaf decision of `CowAI` for one herbivore.
pub fn choose_leaf(leaves: &Vec<FoodCandidate>) -> (r: Option<(Ent, u128)>)
    ensures
        r == spec_choose_leaf(leaves@),
{
    let mut mask: Vec<bool> = Vec::new();
    let mut i: usize = 0;
    while i < leaves.len()
        invariant
            0 <= i <= leaves@.len(),
            mask@ == uncontested_mask(leaves@).take(i as int),
        decreases leaves.len() - i,
    {
        let ok = match leaves[i].competitor {
            Some(d) => leaves[i].dist2 < d,
            None => true,
        };
        mask.push(ok);
        assert(mask@ =~= uncontested_mask(leaves@).take(i + 1));
        i = i + 1;
    }
    assert(mask@ =~= uncontested_mask(leaves@));
    match closest_eligible(leaves, &mask) {
        Some(k) => Some((leaves[k].food, leaves[k].dist2)),
        None => None,
    }
}

/// A leaf no closer creature claimed: unclaimed, or nearer than its claimant.
pub open spec fn leaf_free(c: FoodCandidate) -> bool {
    c.competitor is None || c.dist2 < c.competitor->0
}

/// A herbivore goes for a leaf exactly when some leaf is free, and then for a
/// free one at the least distance among the free ones (the first listed such on
/// a tie), with its distance.
pub proof fn lemma_leaf_is_closest_free(leaves: Seq<FoodCandidate>)
    ensures
        spec_choose_leaf(leaves) is None <==> forall|j: int| 0 <= j < leaves.len() ==> !leaf_free(#[trigger] leaves[j]),
        spec_choose_leaf(leaves) matches Some((e, d)) ==> exists|i: int| {
            &&& 0 <= i < leaves.len()
            &&& #[trigger] leaves[i].food == e
            &&& leaves[i].dist2 == d
            &&& leaf_free(leaves[i])
            &&& forall|j: int| 0 <= j < leaves.len() && leaf_free(#[trigger] leaves[j]) ==> d <= leaves[j].dist2
            &&& forall|j: int| 0 <= j < i && leaf_free(#[trigger] leaves[j]) ==> d < leaves[j].dist2
        },
{
    let mask = uncontested_mask(leaves);
    lemma_spec_closest_found(leaves, mask);
    assert forall|j: int| 0 <= j < leaves.len() implies mask[j] == leaf_free(#[trigger] leaves[j]) by {}
    match spec_closest(leaves, mask) {
        Some(i) => {
            assert(leaves[i].food == (spec_choose_leaf(leaves)->0).0);
        },
        None => {},
    }
}

} // verus!
