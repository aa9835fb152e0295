use vstd::prelude::*;
use crate::components::{CombatStats, Ent};

verus! {

/// The square of the straight-line distance between two squares. Distances are
/// only ever compared with each other, and the square orders them the same way.
pub open spec fn dist2(a: (i32, i32), b: (i32, i32)) -> int {
    (a.0 - b.0) * (a.0 - b.0) + (a.1 - b.1) * (a.1 - b.1)
}

pub fn distance_sq(a: (i32, i32), b: (i32, i32)) -> (d: u128)
    ensures
        d == dist2(a, b),
{
    let dx: i64 = a.0 as i64 - b.0 as i64;
    let dy: i64 = a.1 as i64 - b.1 as i64;
    let ux: u128 = if dx < 0 { (-dx) as u128 } else { dx as u128 };
    let uy: u128 = if dy < 0 { (-dy) as u128 } else { dy as u128 };
    assert(ux * ux <= 0x1_0000_0000_0000_0000u128 * 0x1_0000_0000u128) by (nonlinear_arith)
        requires ux <= 0x1_0000_0000u128;
    assert(uy * uy <= 0x1_0000_0000_0000_0000u128 * 0x1_0000_0000u128) by (nonlinear_arith)
        requires uy <= 0x1_0000_0000u128;
    assert(ux * ux == (a.0 - b.0) * (a.0 - b.0)) by (nonlinear_arith)
        requires ux == dx || ux == -dx, dx == a.0 - b.0;
    assert(uy * uy == (a.1 - b.1) * (a.1 - b.1)) by (nonlinear_arith)
        requires uy == dy || uy == -dy, dy == a.1 - b.1;
    ux * ux + uy * uy
}

/// What a creature knows of a possible target it sees: the squared distance to
/// it, the squared distance of the creature that already claimed it (if any),
/// whether it is an animal, its combat statistics (if any), and whether hunting
/// it would gain energy.
#[derive(Clone, Copy, Debug)]
pub struct FoodCandidate {
    pub food: Ent,
    pub dist2: u128,
    pub competitor: Option<u128>,
    pub is_animal: bool,
    pub stats: Option<CombatStats>,
    pub hunt_gain: bool,
}

/// The candidate is not claimed by a creature closer to it (or not claimed at all).
pub open spec fn uncontested(c: FoodCandidate) -> bool {
    match c.competitor {
        Some(d) => c.dist2 < d,
        None => true,
    }
}

/// `i` is the first of the eligible entries with the least distance.
pub open spec fn first_closest(cands: Seq<FoodCandidate>, eligible: Seq<bool>, i: int) -> bool {
    &&& 0 <= i < cands.len()
    &&& eligible[i]
    &&& forall|j: int| 0 <= j < cands.len() && eligible[j] ==> cands[i].dist2 <= #[trigger] cands[j].dist2
    &&& forall|j: int| 0 <= j < i && eligible[j] ==> cands[i].dist2 < #[trigger] cands[j].dist2
}

/// The first entry with the least distance among the eligible ones, if any is eligible.
pub fn closest_eligible(cands: &Vec<FoodCandidate>, eligible: &Vec<bool>) -> (r: Option<usize>)
    requires
        cands@.len() == eligible@.len(),
    ensures
        index_opt(r) == spec_closest(cands@, eligible@),
        r is None <==> forall|j: int| 0 <= j < cands@.len() ==> !#[trigger] eligible@[j],
        r matches Some(i) ==> first_closest(cands@, eligible@, i as int),
{
    let mut best: Option<usize> = None;
    let mut i: usize = 0;
    while i < cands.len()
        invariant
            0 <= i <= cands@.len(),
            cands@.len() == eligible@.len(),
            best is None <==> forall|j: int| 0 <= j < i ==> !#[trigger] eligible@[j],
            best matches Some(b) ==> {
                &&& b < i
                &&& eligible@[b as int]
                &&& forall|j: int| 0 <= j < i && eligible@[j] ==> cands@[b as int].dist2 <= #[trigger] cands@[j].dist2
                &&& forall|j: int| 0 <= j < b && eligible@[j] ==> cands@[b as int].dist2 < #[trigger] cands@[j].dist2
            },
        decreases cands.len() - i,
    {
        if eligible[i] {
            match best {
                None => {
                    best = Some(i);
                },
                Some(b) => {
                    if cands[i].dist2 < cands[b].dist2 {
                        best = Some(i);
                    }
                },
            }
        }
        i = i + 1;
    }
    proof {
        if let Some(b) = best {
            lemma_first_closest_unique(cands@, eligible@, b as int);
        }
    }
    best
}

pub open spec fn index_opt(r: Option<usize>) -> Option<int> {
    match r {
        Some(i) => Some(i as int),
        None => None,
    }
}

/// The first entry with the least distance among the eligible ones.
pub open spec fn spec_closest(cands: Seq<FoodCandidate>, eligible: Seq<bool>) -> Option<int> {
    if exists|i: int| first_closest(cands, eligible, i) {
        Some(choose|i: int| first_closest(cands, eligible, i))
    } else {
        None
    }
}

/// At most one entry is the first closest one.
pub proof fn lemma_first_closest_unique(cands: Seq<FoodCandidate>, eligible: Seq<bool>, i: int)
    requires
        first_closest(cands, eligible, i),
    ensures
        spec_closest(cands, eligible) == Some(i),
{
    let j = choose|j: int| first_closest(cands, eligible, j);
    if j < i {
        assert(cands[i].dist2 < cands[j].dist2);
    } else if i < j {
        assert(cands[j].dist2 < cands[i].dist2);
    }
}

/// The first closest of the eligible entries among the first `n`, if any.
proof fn lemma_closest_upto(cands: Seq<FoodCandidate>, eligible: Seq<bool>, n: int) -> (b: Option<int>)
    requires
        0 <= n <= cands.len(),
        cands.len() == eligible.len(),
    ensures
        b is None <==> forall|j: int| 0 <= j < n ==> !#[trigger] eligible[j],
        b matches Some(b) ==> {
            &&& 0 <= b < n
            &&& eligible[b]
            &&& forall|j: int| 0 <= j < n && eligible[j] ==> cands[b].dist2 <= #[trigger] cands[j].dist2
            &&& forall|j: int| 0 <= j < b && eligible[j] ==> cands[b].dist2 < #[trigger] cands[j].dist2
        },
    decreases n,
{
    if n == 0 {
        None
    } else {
        let prev = lemma_closest_upto(cands, eligible, n - 1);
        if !eligible[n - 1] {
            prev
        } else {
            match prev {
                None => Some(n - 1),
                Some(b) => if cands[n - 1].dist2 < cands[b].dist2 { Some(n - 1) } else { Some(b) },
            }
        }
    }
}

/// The closest entry is found exactly when some entry is eligible, and it is
/// the first eligible one with the least distance.
pub proof fn lemma_spec_closest_found(cands: Seq<FoodCandidate>, eligible: Seq<bool>)
    requires
        cands.len() == eligible.len(),
    ensures
        spec_closest(cands, eligible) is None <==> forall|j: int| 0 <= j < cands.len() ==> !#[trigger] eligible[j],
        spec_closest(cands, eligible) matches Some(i) ==> first_closest(cands, eligible, i),
{
    match lemma_closest_upto(cands, eligible, cands.len() as int) {
        Some(b) => lemma_first_closest_unique(cands, eligible, b),
        None => {},
    }
}

/// A squared distance between two squares fits in 128 bits.
pub proof fn lemma_dist2_fits(a: (i32, i32), b: (i32, i32))
    ensures
        0 <= dist2(a, b) <= u128::MAX,
        dist2(a, b) as u128 == dist2(a, b),
{
    let dx: int = a.0 - b.0;
    let dy: int = a.1 - b.1;
    assert(0 <= dx * dx <= 0x1_0000_0000 * 0x1_0000_0000) by (nonlinear_arith)
        requires -0x1_0000_0000 <= dx <= 0x1_0000_0000;
    assert(0 <= dy * dy <= 0x1_0000_0000 * 0x1_0000_0000) by (nonlinear_arith)
        requires -0x1_0000_0000 <= dy <= 0x1_0000_0000;
}

/// Among squares listed with entities, seen from `from`, the first of those
/// at the least distance is the one `spec_closest` picks; it picks one exactly
/// when the list is not empty.
pub proof fn lemma_closest_located(from: (i32, i32), list: Seq<(Ent, (i32, i32))>)
    ensures
        spec_closest(located_candidates(from, list), Seq::new(list.len(), |i: int| true)) is None <==> list.len() == 0,
        spec_closest(located_candidates(from, list), Seq::new(list.len(), |i: int| true)) matches Some(i) ==> {
            &&& 0 <= i < list.len()
            &&& forall|j: int| 0 <= j < list.len() ==> dist2(from, list[i].1) <= #[trigger] dist2(from, list[j].1)
            &&& forall|j: int| 0 <= j < i ==> dist2(from, list[i].1) < #[trigger] dist2(from, list[j].1)
        },
{
    let cands = located_candidates(from, list);
    let all = Seq::new(list.len(), |i: int| true);
    lemma_spec_closest_found(cands, all);
    if list.len() > 0 {
        assert(all[0]);
    }
    match spec_closest(cands, all) {
        Some(i) => {
            assert forall|j: int| 0 <= j < list.len() implies dist2(from, list[i].1) <= #[trigger] dist2(from, list[j].1) by {
                lemma_dist2_fits(from, list[i].1);
                lemma_dist2_fits(from, list[j].1);
                assert(all[j]);
                assert(cands[i].dist2 <= cands[j].dist2);
            }
            assert forall|j: int| 0 <= j < i implies dist2(from, list[i].1) < #[trigger] dist2(from, list[j].1) by {
                lemma_dist2_fits(from, list[i].1);
                lemma_dist2_fits(from, list[j].1);
                assert(all[j]);
                assert(cands[i].dist2 < cands[j].dist2);
            }
        },
        None => {},
    }
}

/// Candidates at the given squares, none claimed, seen from `from`.
pub open spec fn located_candidates(from: (i32, i32), list: Seq<(Ent, (i32, i32))>) -> Seq<FoodCandidate> {
    Seq::new(list.len(), |i: int| FoodCandidate {
        food: list[i].0,
        dist2: dist2(from, list[i].1) as u128,
        competitor: None,
        is_animal: false,
        stats: None,
        hunt_gain: false,
    })
}

/// The first of the entities closest to `from`, if the list is not empty.
pub fn closest_of(from: (i32, i32), list: &Vec<(Ent, (i32, i32))>) -> (r: Option<usize>)
    ensures
        index_opt(r) == spec_closest(located_candidates(from, list@), Seq::new(list@.len(), |i: int| true)),
        r is None <==> list@.len() == 0,
{
    let mut cands: Vec<FoodCandidate> = Vec::new();
    let mut all: Vec<bool> = Vec::new();
    let mut i: usize = 0;
    while i < list.len()
        invariant
            0 <= i <= list@.len(),
            cands@ == located_candidates(from, list@).take(i as int),
            all@ == Seq::new(list@.len(), |k: int| true).take(i as int),
        decreases list.len() - i,
    {
        let d = distance_sq(from, list[i].1);
        cands.push(FoodCandidate {
            food: list[i].0,
            dist2: d,
            competitor: None,
            is_animal: false,
            stats: None,
            hunt_gain: false,
        });
        all.push(true);
        proof {
            assert(cands@ =~= located_candidates(from, list@).take(i + 1));
            assert(all@ =~= Seq::new(list@.len(), |k: int| true).take(i + 1));
        }
        i = i + 1;
    }
    assert(cands@ =~= located_candidates(from, list@));
    assert(all@ =~= Seq::new(list@.len(), |k: int| true));
    let r = closest_eligible(&cands, &all);
    proof {
        if list@.len() > 0 {
            assert(all@[0]);
        }
    }
    r
}

} // verus!

verus! {

/// The species name the species list gives entity `e` (its first entry).
pub open spec fn specie_of(species: Seq<(Ent, String)>, e: Ent) -> Option<Seq<char>>
    decreases species.len(),
{
    if species.len() == 0 {
        None
    } else if species[0].0 == e {
        Some(species[0].1@)
    } else {
        specie_of(species.drop_first(), e)
    }
}

/// Where the species list holds entity `e` first.
pub fn find_specie(species: &Vec<(Ent, String)>, e: Ent) -> (r: Option<usize>)
    ensures
        match r {
            Some(i) => i < species@.len() && species@[i as int].0 == e && specie_of(species@, e)
                == Some(species@[i as int].1@),
            None => specie_of(species@, e) is None,
        },
{
    let mut i: usize = 0;
    assert(species@.skip(0) =~= species@);
    while i < species.len()
        invariant
            0 <= i <= species@.len(),
            specie_of(species@, e) == specie_of(species@.skip(i as int), e),
        decreases species.len() - i,
    {
        assert(species@.skip(i as int).drop_first() =~= species@.skip(i + 1));
        if species[i].0 == e {
            return Some(i);
        }
        i = i + 1;
    }
    None
}

/// Whether `e` occurs in `v`.
pub fn contains_entity(v: &Vec<Ent>, e: Ent) -> (r: bool)
    ensures
        r == v@.contains(e),
{
    let mut i: usize = 0;
    while i < v.len()
        invariant
            0 <= i <= v@.len(),
            forall|k: int| 0 <= k < i ==> v@[k] != e,
        decreases v.len() - i,
    {
        if v[i] == e {
            return true;
        }
        i = i + 1;
    }
    false
}

} // verus!
