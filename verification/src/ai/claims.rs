use vstd::prelude::*;
use crate::components::Ent;

verus! {

/// A claim on a food: the creature that goes for it, how far it stood from it
/// (squared distance), and the square it stood on.
#[derive(Clone, Copy, PartialEq, Eq, Structural, Debug)]
pub struct Claim {
    pub food: Ent,
    pub predator: Ent,
    pub dist2: u128,
    pub from_x: i32,
    pub from_y: i32,
}

/// The claims made during a turn, at most one per food: a creature that
/// chooses a food replaces the claim another creature had on it, and the
/// creatures that choose after it see its claim as a competitor.
pub struct Claims {
    claims: Vec<Claim>,
}

pub open spec fn claim_entry(c: Claim) -> (Ent, u128, (i32, i32)) {
    (c.predator, c.dist2, (c.from_x, c.from_y))
}

impl View for Claims {
    type V = Map<Ent, (Ent, u128, (i32, i32))>;

    closed spec fn view(&self) -> Map<Ent, (Ent, u128, (i32, i32))> {
        Map::new(
            |f: Ent| exists|i: int| 0 <= i < self.claims@.len() && #[trigger] self.claims@[i].food == f,
            |f: Ent| claim_entry(self.claims@[choose|i: int| 0 <= i < self.claims@.len() && #[trigger] self.claims@[i].food == f]),
        )
    }
}

impl Claims {
    /// Each food is claimed once.
    pub closed spec fn wf(&self) -> bool {
        forall|i: int, j: int|
            0 <= i < j < self.claims@.len() ==> #[trigger] self.claims@[i].food != #[trigger] self.claims@[j].food
    }

    /// No claim yet.
    pub fn new() -> (r: Claims)
        ensures
            r.wf(),
            r@ == Map::<Ent, (Ent, u128, (i32, i32))>::empty(),
    {
        let r = Claims { claims: Vec::new() };
        assert(r@ =~= Map::<Ent, (Ent, u128, (i32, i32))>::empty());
        r
    }

    fn find(&self, food: Ent) -> (r: Option<usize>)
        ensures
            match r {
                Some(i) => i < self.claims@.len() && self.claims@[i as int].food == food,
                None => forall|i: int| 0 <= i < self.claims@.len() ==> #[trigger] self.claims@[i].food != food,
            },
    {
        let mut i: usize = 0;
        while i < self.claims.len()
            invariant
                0 <= i <= self.claims@.len(),
                forall|k: int| 0 <= k < i ==> #[trigger] self.claims@[k].food != food,
            decreases self.claims.len() - i,
        {
            if self.claims[i].food == food {
                return Some(i);
            }
            i = i + 1;
        }
        None
    }

    /// The claim on `food`, if any.
    pub fn claim_of(&self, food: Ent) -> (r: Option<Claim>)
        requires
            self.wf(),
        ensures
            match r {
                Some(c) => self@.contains_key(food) && c.food == food && self@[food] == claim_entry(c),
                None => !self@.contains_key(food),
            },
    {
        match self.find(food) {
            Some(i) => {
                let ghost c = choose|j: int| 0 <= j < self.claims@.len() && #[trigger] self.claims@[j].food == food;
                assert(c == i);
                Some(self.claims[i])
            },
            None => None,
        }
    }

    /// How far the creature that claimed `food` stood from it, if one did.
    pub fn competitor(&self, food: Ent) -> (r: Option<u128>)
        requires
            self.wf(),
        ensures
            match r {
                Some(d) => self@.contains_key(food) && self@[food].1 == d,
                None => !self@.contains_key(food),
            },
    {
        match self.claim_of(food) {
            Some(c) => Some(c.dist2),
            None => None,
        }
    }

    /// `predator`, standing on `from` at squared distance `dist2`, claims
    /// `food`, replacing any claim on it.
    pub fn claim(&mut self, food: Ent, predator: Ent, dist2: u128, from: (i32, i32))
        requires
            old(self).wf(),
        ensures
            final(self).wf(),
            final(self)@ == old(self)@.insert(food, (predator, dist2, from)),
    {
        let c = Claim { food, predator, dist2, from_x: from.0, from_y: from.1 };
        match self.find(food) {
            Some(i) => {
                self.claims.set(i, c);
                proof {
                    assert forall|f: Ent| #[trigger] self@.contains_key(f) <==> old(self)@.insert(food, (predator, dist2, from)).contains_key(f) by {
                        if old(self)@.contains_key(f) {
                            let j = choose|j: int| 0 <= j < old(self).claims@.len() && #[trigger] old(self).claims@[j].food == f;
                            assert(self.claims@[j].food == f);
                        }
                        if self@.contains_key(f) {
                            let j = choose|j: int| 0 <= j < self.claims@.len() && #[trigger] self.claims@[j].food == f;
                            if j != i {
                                assert(old(self).claims@[j].food == f);
                            }
                        }
                        assert(self.claims@[i as int].food == food);
                    }
                    assert forall|f: Ent| #[trigger] self@.contains_key(f) implies self@[f] == old(self)@.insert(food, (predator, dist2, from))[f] by {
                        let j = choose|j: int| 0 <= j < self.claims@.len() && #[trigger] self.claims@[j].food == f;
                        if f == food {
                            assert(j == i);
                        } else {
                            assert(old(self).claims@[j].food == f);
                            let k = choose|k: int| 0 <= k < old(self).claims@.len() && #[trigger] old(self).claims@[k].food == f;
                            assert(k == j);
                        }
                    }
                    assert(self@ =~= old(self)@.insert(food, (predator, dist2, from)));
                }
            },
            None => {
                self.claims.push(c);
                proof {
                    let n = old(self).claims@.len() as int;
                    assert forall|f: Ent| #[trigger] self@.contains_key(f) <==> old(self)@.insert(food, (predator, dist2, from)).contains_key(f) by {
                        if old(self)@.contains_key(f) {
                            let j = choose|j: int| 0 <= j < old(self).claims@.len() && #[trigger] old(self).claims@[j].food == f;
                            assert(self.claims@[j].food == f);
                        }
                        if self@.contains_key(f) {
                            let j = choose|j: int| 0 <= j < self.claims@.len() && #[trigger] self.claims@[j].food == f;
                            if j < n {
                                assert(old(self).claims@[j].food == f);
                            }
                        }
                        assert(self.claims@[n].food == food);
                    }
                    assert forall|f: Ent| #[trigger] self@.contains_key(f) implies self@[f] == old(self)@.insert(food, (predator, dist2, from))[f] by {
                        let j = choose|j: int| 0 <= j < self.claims@.len() && #[trigger] self.claims@[j].food == f;
                        if f == food {
                            assert(j == n);
                        } else {
                            assert(j < n);
                            assert(old(self).claims@[j].food == f);
                            let k = choose|k: int| 0 <= k < old(self).claims@.len() && #[trigger] old(self).claims@[k].food == f;
                            assert(k == j);
                        }
                    }
                    assert(self@ =~= old(self)@.insert(food, (predator, dist2, from)));
                }
            },
        }
    }

    /// Every claim, in the order first made.
    pub fn all(&self) -> (r: Vec<Claim>)
        requires
            self.wf(),
        ensures
            forall|i: int| 0 <= i < r@.len() ==> self@.contains_key(#[trigger] r@[i].food) && self@[r@[i].food] == claim_entry(r@[i]),
            forall|f: Ent| #[trigger] self@.contains_key(f) ==> exists|i: int| 0 <= i < r@.len() && #[trigger] r@[i].food == f,
    {
        let mut r: Vec<Claim> = Vec::new();
        let mut k: usize = 0;
        while k < self.claims.len()
            invariant
                0 <= k <= self.claims@.len(),
                r@ == self.claims@.take(k as int),
            decreases self.claims.len() - k,
        {
            r.push(self.claims[k]);
            assert(r@ =~= self.claims@.take(k + 1));
            k = k + 1;
        }
        assert(r@ =~= self.claims@);
        proof {
            assert forall|i: int| 0 <= i < r@.len() implies self@.contains_key(#[trigger] r@[i].food) && self@[r@[i].food] == claim_entry(r@[i]) by {
                let f = r@[i].food;
                assert(self.claims@[i].food == f);
                let j = choose|j: int| 0 <= j < self.claims@.len() && #[trigger] self.claims@[j].food == f;
                assert(j == i);
            }
            assert forall|f: Ent| #[trigger] self@.contains_key(f) implies exists|i: int| 0 <= i < r@.len() && #[trigger] r@[i].food == f by {
                let j = choose|j: int| 0 <= j < self.claims@.len() && #[trigger] self.claims@[j].food == f;
                assert(r@[j].food == f);
            }
        }
        r
    }
}

/// What a creature does with the food it chose this turn, if any: it claims it,
/// so that the creatures after it see the claim. Returns whether it chose.
pub fn claim_choice(claims: &mut Claims, predator: Ent, pos: (i32, i32), choice: Option<(Ent, u128)>) -> (r: bool)
    requires
        old(claims).wf(),
    ensures
        final(claims).wf(),
        r == choice is Some,
        choice matches Some((f, d)) ==> final(claims)@ == old(claims)@.insert(f, (predator, d, pos)),
        choice is None ==> final(claims)@ == old(claims)@,
{
    match choice {
        Some((food, dist2)) => {
            claims.claim(food, predator, dist2, pos);
            true
        },
        None => false,
    }
}

/// The square a claimed creature flees from: where its predator stood when it
/// claimed it; none for a creature no one claimed.
pub fn flee_from(claims: &Claims, prey: Ent) -> (r: Option<(i32, i32)>)
    requires
        claims.wf(),
    ensures
        r == (if claims@.contains_key(prey) { Some(claims@[prey].2) } else { None::<(i32, i32)> }),
{
    match claims.claim_of(prey) {
        Some(c) => Some((c.from_x, c.from_y)),
        None => None,
    }
}

} // verus!
