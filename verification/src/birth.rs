use vstd::prelude::*;
use crate::algo::{id_after, IdCounter};
use crate::components::{Date, Ent};
use crate::raws::rawmaster::{prop_in_bounds, prop_of, sexe_allowed, spawn_born, RawMaster, Sexe, SpawnType};
use crate::raws::spawn_parts::{born_plan, Part};

verus! {

/// The traits a newborn takes from its parent, changed a little, in place of
/// those of its kind's template. Each flag tells whether that trait is passed
/// on; the game keeps the values themselves.
#[derive(Clone, Copy, PartialEq, Eq, Structural, Debug)]
pub struct Mutations {
    pub solo_reproduction: bool,
    pub energy_reserve: bool,
    pub temp_sensi: bool,
    pub specie: bool,
    pub renderable: bool,
}

impl Mutations {
    /// Nothing passed on.
    pub fn new() -> (m: Mutations)
        ensures
            !m.solo_reproduction,
            !m.energy_reserve,
            !m.temp_sensi,
            !m.specie,
            !m.renderable,
    {
        Mutations { solo_reproduction: false, energy_reserve: false, temp_sensi: false, specie: false, renderable: false }
    }
}

/// What is known of a birth before it happens: the kind born, its parents, the
/// day and where.
#[derive(Debug)]
pub struct BirthForm {
    pub name: String,
    pub parent: Ent,
    pub parent_id: usize,
    pub male_parent: Option<Ent>,
    pub male_parent_id: Option<usize>,
    pub date: Date,
    pub position: (i32, i32),
}

/// The record of a birth: the form, with the entity born and its identifier.
#[derive(Debug)]
pub struct BirthCertificate {
    pub name: String,
    pub entity: Ent,
    pub id: usize,
    pub parent: Ent,
    pub parent_id: usize,
    pub male_parent: Option<Ent>,
    pub male_parent_id: Option<usize>,
    pub date: Date,
    pub position: (i32, i32),
}

/// A birth asked for, with the traits passed on.
#[derive(Debug)]
pub struct BirthRequest {
    pub form: BirthForm,
    pub mutations: Mutations,
}

/// The births asked for this turn.
pub struct BirthRequetList {
    requests: Vec<BirthRequest>,
}

impl View for BirthRequetList {
    type V = Seq<BirthRequest>;

    closed spec fn view(&self) -> Seq<BirthRequest> {
        self.requests@
    }
}

impl BirthRequetList {
    pub fn new() -> (r: BirthRequetList)
        ensures
            r@ == Seq::<BirthRequest>::empty(),
    {
        BirthRequetList { requests: Vec::new() }
    }

    /// Asks for a birth.
    pub fn request(&mut self, form: BirthForm, mutations: Mutations)
        ensures
            final(self)@ == old(self)@.push(BirthRequest { form, mutations }),
    {
        self.requests.push(BirthRequest { form, mutations });
    }
}

/// Every birth that ever happened, in order.
pub struct BirthRegistery {
    registery: Vec<BirthCertificate>,
}

impl View for BirthRegistery {
    type V = Seq<BirthCertificate>;

    closed spec fn view(&self) -> Seq<BirthCertificate> {
        self.registery@
    }
}

fn copy_certificate(c: &BirthCertificate) -> (r: BirthCertificate)
    ensures
        r == *c,
{
    BirthCertificate {
        name: c.name.clone(),
        entity: c.entity,
        id: c.id,
        parent: c.parent,
        parent_id: c.parent_id,
        male_parent: c.male_parent,
        male_parent_id: c.male_parent_id,
        date: c.date,
        position: c.position,
    }
}

impl BirthRegistery {
    pub fn new() -> (r: BirthRegistery)
        ensures
            r@ == Seq::<BirthCertificate>::empty(),
    {
        BirthRegistery { registery: Vec::new() }
    }

    /// Records a birth.
    pub fn insert(&mut self, certificate: BirthCertificate)
        ensures
            final(self)@ == old(self)@.push(certificate),
    {
        self.registery.push(certificate);
    }

    /// A copy of every record, in order.
    pub fn get(&self) -> (r: Vec<BirthCertificate>)
        ensures
            r@ == self@,
    {
        let mut out: Vec<BirthCertificate> = Vec::new();
        let mut i: usize = 0;
        while i < self.registery.len()
            invariant
                0 <= i <= self.registery@.len(),
                out@ == self.registery@.take(i as int),
            decreases self.registery.len() - i,
        {
            let c = copy_certificate(&self.registery[i]);
            out.push(c);
            assert(out@ =~= self.registery@.take(i + 1));
            i = i + 1;
        }
        assert(self.registery@.take(self.registery@.len() as int) =~= self.registery@);
        out
    }
}

/// The record of a birth asked for by `form`, of entity `entity` with
/// identifier `id`: the form's fields, with the entity and its identifier.
pub open spec fn record_of(form: BirthForm, entity: Ent, id: usize) -> BirthCertificate {
    BirthCertificate {
        name: form.name,
        entity,
        id,
        parent: form.parent,
        parent_id: form.parent_id,
        male_parent: form.male_parent,
        male_parent_id: form.male_parent_id,
        date: form.date,
        position: form.position,
    }
}

/// The certificate of a birth asked for by `form`, of entity `entity` with
/// identifier `id`.
pub fn certificate(form: BirthForm, entity: Ent, id: usize) -> (c: BirthCertificate)
    ensures
        c == record_of(form, entity, id),
{
    BirthCertificate {
        name: form.name,
        entity,
        id,
        parent: form.parent,
        parent_id: form.parent_id,
        male_parent: form.male_parent,
        male_parent_id: form.male_parent_id,
        date: form.date,
        position: form.position,
    }
}

/// The components of the creature a birth request brings, with its identifier
/// drawn from `counter`: none if its kind is not a known prop.
pub fn spawn_birth(raws: &RawMaster, request: &BirthRequest, counter: &mut IdCounter) -> (r: Option<Vec<Part>>)
    requires
        raws.wf(),
        prop_in_bounds(raws, request.form.name@),
    ensures
        r is Some <==> raws.prop_index@.contains_key(request.form.name@),
        r matches Some(v) ==> exists|s: Option<Sexe>|
            sexe_allowed(prop_of(raws, request.form.name@).sexe, true, s) && v@ == born_plan(
                prop_of(raws, request.form.name@),
                request.mutations,
                old(counter)@ as usize,
                request.form.position.0,
                request.form.position.1,
                s,
            ),
        r is Some ==> final(counter)@ == crate::algo::next_id(old(counter)@),
        r is None ==> final(counter)@ == old(counter)@,
{
    if raws.prop_index.contains_key(&request.form.name) {
        spawn_born(
            raws,
            &request.form.name,
            SpawnType::AtPosition { x: request.form.position.0, y: request.form.position.1 },
            request.mutations,
            counter,
        )
    } else {
        None
    }
}

/// The requests of `reqs` whose kind is a known prop, in order, each with the
/// entity of the same place in `ents` (the entity made for that request).
pub open spec fn born_pairs(raws: &RawMaster, reqs: Seq<BirthRequest>, ents: Seq<Ent>) -> Seq<(BirthRequest, Ent)>
    decreases reqs.len(),
{
    if reqs.len() == 0 {
        Seq::empty()
    } else {
        let rest = born_pairs(raws, reqs.drop_last(), ents.drop_last());
        if raws.prop_index@.contains_key(reqs.last().form.name@) {
            rest.push((reqs.last(), ents.last()))
        } else {
            rest
        }
    }
}

/// The certificates of the births `born`, in order, the `k`-th with the `k`-th
/// identifier drawn from a counter that stood at `start`.
pub open spec fn birth_records(born: Seq<(BirthRequest, Ent)>, start: nat) -> Seq<BirthCertificate> {
    Seq::new(born.len(), |k: int| record_of(born[k].0.form, born[k].1, id_after(start, k as nat) as usize))
}

/// The components of the `k`-th creature born, `req` being its request and
/// `start` the counter before the births.
pub open spec fn born_as(raws: &RawMaster, req: BirthRequest, start: nat, k: nat, parts: Seq<Part>) -> bool {
    exists|s: Option<Sexe>|
        sexe_allowed(prop_of(raws, req.form.name@).sexe, true, s) && parts == born_plan(
            prop_of(raws, req.form.name@),
            req.mutations,
            id_after(start, k) as usize,
            req.form.position.0,
            req.form.position.1,
            s,
        )
}

/// Brings about the births asked for, `entities` holding the entity made for
/// each request, in order. Every request is taken from the list; for each of a
/// known prop kind, in order, the newborn's identifier is drawn from `counter`,
/// its certificate is added to `registry`, and its entity, kind and components
/// come back.
pub fn give_birth(
    raws: &RawMaster,
    requests: &mut BirthRequetList,
    counter: &mut IdCounter,
    registry: &mut BirthRegistery,
    entities: &Vec<Ent>,
) -> (r: Vec<(Ent, String, Vec<Part>)>)
    requires
        raws.wf(),
        entities@.len() == old(requests)@.len(),
        forall|i: int| 0 <= i < old(requests)@.len() ==> prop_in_bounds(raws, #[trigger] old(requests)@[i].form.name@),
    ensures
        final(requests)@ == Seq::<BirthRequest>::empty(),
        r@.len() == born_pairs(raws, old(requests)@, entities@).len(),
        forall|k: int| 0 <= k < r@.len() ==> #[trigger] r@[k].0 == born_pairs(raws, old(requests)@, entities@)[k].1
            && r@[k].1@ == born_pairs(raws, old(requests)@, entities@)[k].0.form.name@,
        forall|k: int| 0 <= k < r@.len() ==> born_as(
            raws,
            born_pairs(raws, old(requests)@, entities@)[k].0,
            old(counter)@,
            k as nat,
            #[trigger] r@[k].2@,
        ),
        final(registry)@ == old(registry)@ + birth_records(born_pairs(raws, old(requests)@, entities@), old(counter)@),
        final(counter)@ == id_after(old(counter)@, r@.len() as nat),
{
    let ghost start = counter@;
    let ghost reqs = requests@;
    let ghost ents = entities@;
    let ghost reg0 = registry@;
    let mut taken: Vec<BirthRequest> = Vec::new();
    std::mem::swap(&mut taken, &mut requests.requests);
    assert(requests@ =~= Seq::<BirthRequest>::empty());
    let mut out: Vec<(Ent, String, Vec<Part>)> = Vec::new();
    let mut rest: Vec<BirthRequest> = Vec::new();
    // Requests are handled from the last one down; the list is turned first so
    // that they come out in the order asked.
    let n = taken.len();
    let mut i: usize = 0;
    while i < n
        invariant
            0 <= i <= n,
            n == reqs.len(),
            taken@ == reqs.take(n - i),
            rest@ == reqs.skip(n - i).reverse(),
        decreases n - i,
    {
        let q = taken.pop().unwrap();
        rest.push(q);
        assert(taken@ =~= reqs.take(n - i - 1));
        assert(rest@ =~= reqs.skip(n - i - 1).reverse());
        i = i + 1;
    }
    assert(reqs.skip(0) =~= reqs);
    let mut j: usize = 0;
    while j < n
        invariant
            0 <= j <= n,
            n == reqs.len(),
            ents == entities@,
            ents.len() == n,
            raws.wf(),
            forall|q: int| 0 <= q < reqs.len() ==> prop_in_bounds(raws, #[trigger] reqs[q].form.name@),
            rest@ == reqs.skip(j as int).reverse(),
            out@.len() == born_pairs(raws, reqs.take(j as int), ents.take(j as int)).len(),
            forall|k: int| 0 <= k < out@.len() ==> #[trigger] out@[k].0 == born_pairs(raws, reqs.take(j as int), ents.take(j as int))[k].1
                && out@[k].1@ == born_pairs(raws, reqs.take(j as int), ents.take(j as int))[k].0.form.name@,
            forall|k: int| 0 <= k < out@.len() ==> born_as(
                raws,
                born_pairs(raws, reqs.take(j as int), ents.take(j as int))[k].0,
                start,
                k as nat,
                #[trigger] out@[k].2@,
            ),
            registry@ == reg0 + birth_records(born_pairs(raws, reqs.take(j as int), ents.take(j as int)), start),
            counter@ == id_after(start, out@.len() as nat),
        decreases n - j,
    {
        let q = rest.pop().unwrap();
        assert(q == reqs[j as int]);
        assert(rest@ =~= reqs.skip(j + 1).reverse());
        assert(reqs.take(j + 1).drop_last() =~= reqs.take(j as int));
        assert(ents.take(j + 1).drop_last() =~= ents.take(j as int));
        assert(reqs.take(j + 1).last() == q);
        assert(ents.take(j + 1).last() == ents[j as int]);
        let ghost before = out@;
        let ghost pairs = born_pairs(raws, reqs.take(j as int), ents.take(j as int));
        let ghost qg = q;
        let id = counter.peek();
        match spawn_birth(raws, &q, counter) {
            Some(parts) => {
                let entity = entities[j];
                let name = q.form.name.clone();
                proof {
                    assert(born_as(raws, qg, start, before.len() as nat, parts@));
                    assert(born_pairs(raws, reqs.take(j + 1), ents.take(j + 1)) == pairs.push((qg, entity)));
                }
                let ghost reg_before = registry@;
                registry.insert(certificate(q.form, entity, id));
                proof {
                    assert(birth_records(pairs.push((qg, entity)), start) =~= birth_records(pairs, start).push(
                        record_of(qg.form, entity, id_after(start, pairs.len() as nat) as usize),
                    ));
                    assert(registry@ =~= reg0 + birth_records(born_pairs(raws, reqs.take(j + 1), ents.take(j + 1)), start));
                }
                out.push((entity, name, parts));
                assert(counter@ == id_after(start, out@.len() as nat));
            },
            None => {
                assert(born_pairs(raws, reqs.take(j + 1), ents.take(j + 1)) == pairs);
            },
        }
        j = j + 1;
    }
    assert(reqs.take(n as int) =~= reqs);
    assert(ents.take(n as int) =~= ents);
    out
}

} // verus!
