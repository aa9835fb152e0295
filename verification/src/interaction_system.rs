use vstd::prelude::*;
use crate::components::{Ent, Interaction};
use crate::raws::ingame_spawner::spawn_named_item_ingame;
use crate::raws::rawmaster::{item_in_bounds, item_of, RawMaster, SpawnType};
use crate::raws::spawn_parts::{ingame_item_plan, Part};

verus! {

/// A request to build an object of the named kind at `(x, y)`.
#[derive(Clone, Debug)]
pub struct ObjectRequest {
    pub x: i32,
    pub y: i32,
    pub name: String,
}

/// The queue of objects to build this turn.
pub struct ObjectBuilder {
    requests: Vec<ObjectRequest>,
}

pub open spec fn request_view(r: ObjectRequest) -> (i32, i32, Seq<char>) {
    (r.x, r.y, r.name@)
}

impl View for ObjectBuilder {
    type V = Seq<(i32, i32, Seq<char>)>;

    closed spec fn view(&self) -> Seq<(i32, i32, Seq<char>)> {
        self.requests@.map_values(|r: ObjectRequest| request_view(r))
    }
}

impl ObjectBuilder {
    pub fn new() -> (r: ObjectBuilder)
        ensures
            r@ == Seq::<(i32, i32, Seq<char>)>::empty(),
    {
        let r = ObjectBuilder { requests: Vec::new() };
        assert(r@ =~= Seq::<(i32, i32, Seq<char>)>::empty());
        r
    }

    /// Queues a request to build `name` at `(x, y)`.
    pub fn request(&mut self, x: i32, y: i32, name: String)
        ensures
            final(self)@ == old(self)@.push((x, y, name@)),
    {
        self.requests.push(ObjectRequest { x, y, name });
        assert(self@ =~= old(self)@.push((x, y, name@)));
    }

    /// The names asked for, in the order of the requests.
    pub fn requested_names(&self) -> (r: Vec<String>)
        ensures
            r@.len() == self@.len(),
            forall|i: int| 0 <= i < r@.len() ==> #[trigger] r@[i]@ == self@[i].2,
    {
        let mut out: Vec<String> = Vec::new();
        let mut i: usize = 0;
        while i < self.requests.len()
            invariant
                0 <= i <= self.requests@.len(),
                out@.len() == i,
                forall|j: int| 0 <= j < i ==> #[trigger] out@[j]@ == self.requests@[j].name@,
            decreases self.requests.len() - i,
        {
            out.push(self.requests[i].name.clone());
            i = i + 1;
        }
        out
    }

    /// Hands out the queued requests, in the order made, and empties the queue.
    pub fn drain_requests(&mut self) -> (r: Vec<ObjectRequest>)
        ensures
            r@.map_values(|q: ObjectRequest| request_view(q)) == old(self)@,
            final(self)@ == Seq::<(i32, i32, Seq<char>)>::empty(),
    {
        let mut out: Vec<ObjectRequest> = Vec::new();
        std::mem::swap(&mut out, &mut self.requests);
        assert(self@ =~= Seq::<(i32, i32, Seq<char>)>::empty());
        out
    }
}

/// The queue of interactions to resolve this turn: where, which interaction,
/// and with which entity.
pub struct InteractionResquest {
    requests: Vec<(i32, i32, Interaction, Ent)>,
}

pub open spec fn interaction_view(r: (i32, i32, Interaction, Ent)) -> (i32, i32, Seq<char>, Ent) {
    (r.0, r.1, r.2.name@, r.3)
}

impl View for InteractionResquest {
    type V = Seq<(i32, i32, Seq<char>, Ent)>;

    closed spec fn view(&self) -> Seq<(i32, i32, Seq<char>, Ent)> {
        self.requests@.map_values(|r: (i32, i32, Interaction, Ent)| interaction_view(r))
    }
}

impl InteractionResquest {
    pub fn new() -> (r: InteractionResquest)
        ensures
            r@ == Seq::<(i32, i32, Seq<char>, Ent)>::empty(),
    {
        let r = InteractionResquest { requests: Vec::new() };
        assert(r@ =~= Seq::<(i32, i32, Seq<char>, Ent)>::empty());
        r
    }

    /// Queues an interaction with `interacted_entity` at `(x, y)`.
    pub fn request(&mut self, x: i32, y: i32, interaction: Interaction, interacted_entity: Ent)
        ensures
            final(self)@ == old(self)@.push((x, y, interaction.name@, interacted_entity)),
    {
        self.requests.push((x, y, interaction, interacted_entity));
        assert(self@ =~= old(self)@.push((x, y, interaction.name@, interacted_entity)));
    }

    /// Hands out the queued interactions, in the order made, and empties the queue.
    pub fn drain_requests(&mut self) -> (r: Vec<(i32, i32, Interaction, Ent)>)
        ensures
            r@.map_values(|q: (i32, i32, Interaction, Ent)| interaction_view(q)) == old(self)@,
            final(self)@ == Seq::<(i32, i32, Seq<char>, Ent)>::empty(),
    {
        let mut out: Vec<(i32, i32, Interaction, Ent)> = Vec::new();
        std::mem::swap(&mut out, &mut self.requests);
        assert(self@ =~= Seq::<(i32, i32, Seq<char>, Ent)>::empty());
        out
    }
}

/// The items the requests `reqs` bring, in order: each request naming a known
/// item gives that request with the item's components at its square; the
/// others give nothing.
pub open spec fn object_plans(raws: &RawMaster, reqs: Seq<(i32, i32, Seq<char>)>) -> Seq<((i32, i32, Seq<char>), Seq<Part>)>
    decreases reqs.len(),
{
    if reqs.len() == 0 {
        Seq::empty()
    } else {
        let rest = object_plans(raws, reqs.drop_last());
        let q = reqs.last();
        if raws.item_index@.contains_key(q.2) {
            rest.push((q, ingame_item_plan(item_of(raws, q.2), q.0, q.1)))
        } else {
            rest
        }
    }
}

pub open spec fn built_view(v: Seq<(ObjectRequest, Vec<Part>)>) -> Seq<((i32, i32, Seq<char>), Seq<Part>)> {
    v.map_values(|p: (ObjectRequest, Vec<Part>)| (request_view(p.0), p.1@))
}

/// Builds the objects asked for this turn: every request is taken from the
/// queue, and each request naming a known item comes back, in order, with the
/// components of that item.
pub fn spawn_objects(raws: &RawMaster, builder: &mut ObjectBuilder) -> (r: Vec<(ObjectRequest, Vec<Part>)>)
    requires
        raws.wf(),
        forall|i: int| 0 <= i < old(builder)@.len() ==> item_in_bounds(raws, #[trigger] old(builder)@[i].2),
    ensures
        final(builder)@ == Seq::<(i32, i32, Seq<char>)>::empty(),
        built_view(r@) == object_plans(raws, old(builder)@),
{
    let ghost reqs = builder@;
    let requests = builder.drain_requests();
    assert(requests@.map_values(|q: ObjectRequest| request_view(q)) == reqs);
    let mut out: Vec<(ObjectRequest, Vec<Part>)> = Vec::new();
    let mut i: usize = 0;
    while i < requests.len()
        invariant
            0 <= i <= requests@.len(),
            raws.wf(),
            requests@.map_values(|q: ObjectRequest| request_view(q)) == reqs,
            forall|k: int| 0 <= k < reqs.len() ==> item_in_bounds(raws, #[trigger] reqs[k].2),
            built_view(out@) == object_plans(raws, reqs.take(i as int)),
        decreases requests.len() - i,
    {
        let q = &requests[i];
        assert(request_view(requests@[i as int]) == reqs[i as int]);
        assert(q.name@ == reqs[i as int].2);
        assert(item_in_bounds(raws, reqs[i as int].2));
        assert(reqs.take(i + 1).drop_last() =~= reqs.take(i as int));
        let ghost before = out@;
        match spawn_named_item_ingame(raws, &q.name, SpawnType::AtPosition { x: q.x, y: q.y }) {
            Some(parts) => {
                let copy = ObjectRequest { x: q.x, y: q.y, name: q.name.clone() };
                out.push((copy, parts));
                assert(built_view(out@) =~= built_view(before).push((reqs[i as int], parts@)));
            },
            None => {},
        }
        i = i + 1;
    }
    assert(reqs.take(requests@.len() as int) =~= reqs);
    out
}

} // verus!
