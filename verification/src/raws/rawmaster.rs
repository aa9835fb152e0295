use vstd::prelude::*;
use rltk::RandomNumberGenerator;
use crate::raws::item_structs::{Item, Mob, SexeChoice};
use crate::raws::prop_structs::Prop;
use crate::raws::spawn_parts::{born_parts, born_plan, item_parts, item_plan, mob_parts, mob_plan, prop_parts, prop_plan, Part};
use crate::birth::Mutations;
use crate::algo::{IdCounter, _unique_id, next_id};

verus! {

/// One line of the spawn table: what may spawn, how often, and at which depths.
#[derive(Clone, Debug)]
pub struct SpawnTableEntry {
    pub name: String,
    pub weight: i32,
    pub min_depth: i32,
    pub max_depth: i32,
    pub add_map_depth_to_weight: Option<bool>,
}

/// The raw templates (items, mobs, props) and the spawn table.
pub struct Raws {
    pub items: Vec<Item>,
    pub mobs: Vec<Mob>,
    pub props: Vec<Prop>,
    pub spawn_table: Vec<SpawnTableEntry>,
}

/// A map from names to template numbers.
pub struct NameIndex {
    entries: Vec<(String, usize)>,
}

pub open spec fn has_key(s: Seq<(String, usize)>, k: Seq<char>) -> bool {
    exists|i: int| 0 <= i < s.len() && #[trigger] s[i].0@ == k
}

impl View for NameIndex {
    type V = Map<Seq<char>, usize>;

    closed spec fn view(&self) -> Map<Seq<char>, usize> {
        Map::new(
            |k: Seq<char>| has_key(self.entries@, k),
            |k: Seq<char>| self.entries@[choose|i: int| 0 <= i < self.entries@.len() && #[trigger] self.entries@[i].0@ == k].1,
        )
    }
}

impl NameIndex {
    /// Each name occurs once.
    pub closed spec fn wf(&self) -> bool {
        forall|i: int, j: int|
            0 <= i < j < self.entries@.len() ==> #[trigger] self.entries@[i].0@ != #[trigger] self.entries@[j].0@
    }

    pub fn new() -> (r: NameIndex)
        ensures
            r.wf(),
            r@ == Map::<Seq<char>, usize>::empty(),
    {
        let r = NameIndex { entries: Vec::new() };
        assert(r@ =~= Map::<Seq<char>, usize>::empty());
        r
    }

    fn find(&self, key: &String) -> (r: Option<usize>)
        ensures
            match r {
                Some(i) => i < self.entries@.len() && self.entries@[i as int].0@ == key@,
                None => !has_key(self.entries@, key@),
            },
    {
        let mut i: usize = 0;
        while i < self.entries.len()
            invariant
                0 <= i <= self.entries@.len(),
                forall|k: int| 0 <= k < i ==> #[trigger] self.entries@[k].0@ != key@,
            decreases self.entries.len() - i,
        {
            if self.entries[i].0 == *key {
                return Some(i);
            }
            i = i + 1;
        }
        None
    }

    pub fn contains_key(&self, key: &String) -> (r: bool)
        ensures
            r == self@.contains_key(key@),
    {
        self.find(key).is_some()
    }

    pub fn get(&self, key: &String) -> (r: Option<usize>)
        requires
            self.wf(),
        ensures
            match r {
                Some(v) => self@.contains_key(key@) && self@[key@] == v,
                None => !self@.contains_key(key@),
            },
    {
        match self.find(key) {
            Some(i) => {
                let ghost c = choose|j: int| 0 <= j < self.entries@.len() && #[trigger] self.entries@[j].0@ == key@;
                assert(c == i);
                Some(self.entries[i].1)
            },
            None => None,
        }
    }

    /// Whether every name is mapped below `n`.
    pub fn all_below(&self, n: usize) -> (r: bool)
        requires
            self.wf(),
        ensures
            r == (forall|k: Seq<char>| #[trigger] self@.contains_key(k) ==> self@[k] < n),
    {
        let mut i: usize = 0;
        while i < self.entries.len()
            invariant
                0 <= i <= self.entries@.len(),
                self.wf(),
                forall|j: int| 0 <= j < i ==> #[trigger] self.entries@[j].1 < n,
            decreases self.entries.len() - i,
        {
            if self.entries[i].1 >= n {
                proof {
                    let k = self.entries@[i as int].0@;
                    assert(has_key(self.entries@, k));
                    let c = choose|j: int| 0 <= j < self.entries@.len() && #[trigger] self.entries@[j].0@ == k;
                    assert(c == i);
                    assert(self@.contains_key(k) && self@[k] >= n);
                }
                return false;
            }
            i = i + 1;
        }
        proof {
            assert forall|k: Seq<char>| #[trigger] self@.contains_key(k) implies self@[k] < n by {
                let c = choose|j: int| 0 <= j < self.entries@.len() && #[trigger] self.entries@[j].0@ == k;
                assert(self.entries@[c].1 < n);
            }
        }
        true
    }

    /// Maps `key` to `value`, replacing what it was mapped to.
    pub fn insert(&mut self, key: String, value: usize)
        requires
            old(self).wf(),
        ensures
            final(self).wf(),
            final(self)@ == old(self)@.insert(key@, value),
    {
        let ghost k = key@;
        match self.find(&key) {
            Some(i) => {
                self.entries.set(i, (key, value));
                proof {
                    assert forall|kk: Seq<char>| #[trigger] has_key(self.entries@, kk) <==> has_key(old(self).entries@, kk) by {
                        if has_key(old(self).entries@, kk) {
                            let j = choose|j: int| 0 <= j < old(self).entries@.len() && #[trigger] old(self).entries@[j].0@ == kk;
                            if j == i { assert(self.entries@[j].0@ == kk); } else { assert(self.entries@[j] == old(self).entries@[j]); }
                        }
                        if has_key(self.entries@, kk) {
                            let j = choose|j: int| 0 <= j < self.entries@.len() && #[trigger] self.entries@[j].0@ == kk;
                            if j == i { assert(old(self).entries@[j].0@ == kk); } else { assert(self.entries@[j] == old(self).entries@[j]); }
                        }
                    }
                    assert forall|kk: Seq<char>| has_key(self.entries@, kk) implies
                        self.entries@[choose|j: int| 0 <= j < self.entries@.len() && #[trigger] self.entries@[j].0@ == kk].1
                            == old(self)@.insert(k, value)[kk] by {
                        let j = choose|j: int| 0 <= j < self.entries@.len() && #[trigger] self.entries@[j].0@ == kk;
                        if kk == k {
                            assert(j == i);
                        } else {
                            assert(self.entries@[j] == old(self).entries@[j]);
                            let j2 = choose|j2: int| 0 <= j2 < old(self).entries@.len() && #[trigger] old(self).entries@[j2].0@ == kk;
                            assert(j2 == j);
                        }
                    }
                    assert(self@ =~= old(self)@.insert(k, value));
                }
            },
            None => {
                self.entries.push((key, value));
                proof {
                    let n = old(self).entries@.len() as int;
                    assert forall|kk: Seq<char>| #[trigger] has_key(self.entries@, kk) <==> (has_key(old(self).entries@, kk) || kk == k) by {
                        if has_key(old(self).entries@, kk) {
                            let j = choose|j: int| 0 <= j < old(self).entries@.len() && #[trigger] old(self).entries@[j].0@ == kk;
                            assert(self.entries@[j] == old(self).entries@[j]);
                        }
                        if kk == k { assert(self.entries@[n].0@ == kk); }
                        if has_key(self.entries@, kk) && kk != k {
                            let j = choose|j: int| 0 <= j < self.entries@.len() && #[trigger] self.entries@[j].0@ == kk;
                            assert(j < n);
                            assert(old(self).entries@[j] == self.entries@[j]);
                        }
                    }
                    assert forall|kk: Seq<char>| has_key(self.entries@, kk) implies
                        self.entries@[choose|j: int| 0 <= j < self.entries@.len() && #[trigger] self.entries@[j].0@ == kk].1
                            == old(self)@.insert(k, value)[kk] by {
                        let j = choose|j: int| 0 <= j < self.entries@.len() && #[trigger] self.entries@[j].0@ == kk;
                        if kk == k {
                            assert(j == n);
                        } else {
                            assert(j < n);
                            assert(self.entries@[j] == old(self).entries@[j]);
                            let j2 = choose|j2: int| 0 <= j2 < old(self).entries@.len() && #[trigger] old(self).entries@[j2].0@ == kk;
                            assert(j2 == j);
                        }
                    }
                    assert(self@ =~= old(self)@.insert(k, value));
                }
            },
        }
    }
}

/// The index `m` becomes after mapping each name to its place in `names`, in
/// order (a name listed twice ends up mapped to its last place).
pub open spec fn insert_names(m: Map<Seq<char>, usize>, names: Seq<Seq<char>>) -> Map<Seq<char>, usize>
    decreases names.len(),
{
    if names.len() == 0 {
        m
    } else {
        insert_names(m, names.drop_last()).insert(names.last(), (names.len() - 1) as usize)
    }
}

/// Looking a listed name up in the index gives back a template of that name:
/// its last place in the list.
pub proof fn lemma_name_lookup(m: Map<Seq<char>, usize>, names: Seq<Seq<char>>, k: int)
    requires
        0 <= k < names.len(),
        names.len() <= usize::MAX + 1,
    ensures
        insert_names(m, names).contains_key(names[k]),
        ({
            let v = insert_names(m, names)[names[k]] as int;
            &&& k <= v < names.len()
            &&& names[v] == names[k]
            &&& forall|j: int| v < j < names.len() ==> names[j] != names[k]
        }),
    decreases names.len(),
{
    let n = names.len() as int;
    if names.last() == names[k] {
    } else {
        lemma_name_lookup(m, names.drop_last(), k);
        assert forall|j: int| k <= j < n - 1 implies names.drop_last()[j] == names[j] by {}
    }
}

pub open spec fn names_of(v: Seq<String>) -> Seq<Seq<char>> {
    v.map_values(|s: String| s@)
}

pub open spec fn item_names(v: Seq<Item>) -> Seq<Seq<char>> {
    v.map_values(|t: Item| t.name@)
}

pub open spec fn mob_names(v: Seq<Mob>) -> Seq<Seq<char>> {
    v.map_values(|t: Mob| t.name@)
}

pub open spec fn prop_names(v: Seq<Prop>) -> Seq<Seq<char>> {
    v.map_values(|t: Prop| t.name@)
}

/// Why loading the raws reported a problem.
#[derive(Clone, Copy, PartialEq, Eq, Structural, Debug)]
pub enum RawWarningKind {
    DuplicateItem,
    DuplicateMob,
    DuplicateProp,
    /// the spawn table names no known template
    UnknownSpawn,
}

/// A problem found while loading the raws, with the name concerned.
#[derive(Clone, Debug)]
pub struct RawWarning {
    pub kind: RawWarningKind,
    pub name: String,
}

/// The duplicate names, in order: each name of `all` (items, then mobs, then
/// props) that an earlier name already used.
pub open spec fn duplicate_warnings(all: Seq<Seq<char>>, n_items: int, n_mobs: int, upto: int) -> Seq<(RawWarningKind, Seq<char>)>
    decreases upto,
{
    if upto <= 0 {
        Seq::empty()
    } else {
        let rest = duplicate_warnings(all, n_items, n_mobs, upto - 1);
        let k = upto - 1;
        if all.take(k).contains(all[k]) {
            let kind = if k < n_items {
                RawWarningKind::DuplicateItem
            } else if k < n_items + n_mobs {
                RawWarningKind::DuplicateMob
            } else {
                RawWarningKind::DuplicateProp
            };
            rest.push((kind, all[k]))
        } else {
            rest
        }
    }
}

/// The spawn table lines, in order, that name no template of `all`.
pub open spec fn unknown_spawn_warnings(all: Seq<Seq<char>>, table: Seq<SpawnTableEntry>) -> Seq<(RawWarningKind, Seq<char>)>
    decreases table.len(),
{
    if table.len() == 0 {
        Seq::empty()
    } else {
        let rest = unknown_spawn_warnings(all, table.drop_last());
        if all.contains(table.last().name@) {
            rest
        } else {
            rest.push((RawWarningKind::UnknownSpawn, table.last().name@))
        }
    }
}

pub open spec fn warnings_view(w: Seq<RawWarning>) -> Seq<(RawWarningKind, Seq<char>)> {
    w.map_values(|x: RawWarning| (x.kind, x.name@))
}

/// The template a name refers to: item, mob or prop, with its number.
#[derive(Clone, Copy, PartialEq, Eq, Structural, Debug)]
pub enum SpawnKind {
    Item(usize),
    Mob(usize),
    Prop(usize),
}

/// The raw templates, and for each kind an index from names to templates.
pub struct RawMaster {
    pub raws: Raws,
    pub item_index: NameIndex,
    pub mob_index: NameIndex,
    pub prop_index: NameIndex,
}

pub open spec fn all_names(r: &Raws) -> Seq<Seq<char>> {
    item_names(r.items@) + mob_names(r.mobs@) + prop_names(r.props@)
}

fn names_contain(used: &Vec<String>, name: &String) -> (r: bool)
    ensures
        r == names_of(used@).contains(name@),
{
    let mut i: usize = 0;
    while i < used.len()
        invariant
            0 <= i <= used@.len(),
            forall|k: int| 0 <= k < i ==> #[trigger] used@[k]@ != name@,
        decreases used.len() - i,
    {
        if used[i] == *name {
            assert(names_of(used@)[i as int] == name@);
            return true;
        }
        i = i + 1;
    }
    proof {
        if names_of(used@).contains(name@) {
            let k = choose|k: int| 0 <= k < names_of(used@).len() && names_of(used@)[k] == name@;
            assert(used@[k]@ == name@);
        }
    }
    false
}

impl RawMaster {
    pub open spec fn wf(&self) -> bool {
        self.item_index.wf() && self.mob_index.wf() && self.prop_index.wf()
    }

    /// No templates and empty indexes.
    pub fn empty() -> (r: RawMaster)
        ensures
            r.wf(),
            r.raws.items@.len() == 0,
            r.raws.mobs@.len() == 0,
            r.raws.props@.len() == 0,
            r.raws.spawn_table@.len() == 0,
            r.item_index@ == Map::<Seq<char>, usize>::empty(),
            r.mob_index@ == Map::<Seq<char>, usize>::empty(),
            r.prop_index@ == Map::<Seq<char>, usize>::empty(),
    {
        RawMaster {
            raws: Raws {
                items: Vec::new(),
                mobs: Vec::new(),
                props: Vec::new(),
                spawn_table: Vec::new(),
            },
            item_index: NameIndex::new(),
            mob_index: NameIndex::new(),
            prop_index: NameIndex::new(),
        }
    }

    /// Takes new raws: the item index is rebuilt from scratch, while each mob
    /// and prop name is added to the mob and prop indexes (which are not
    /// cleared); every name maps to its last place in its list. Returns the
    /// problems found: names used more than once (across all three lists), then
    /// spawn table lines naming no template.
    pub fn load(&mut self, raws: Raws) -> (warnings: Vec<RawWarning>)
        requires
            old(self).wf(),
        ensures
            final(self).wf(),
            final(self).raws == raws,
            final(self).item_index@ == insert_names(Map::empty(), item_names(raws.items@)),
            final(self).mob_index@ == insert_names(old(self).mob_index@, mob_names(raws.mobs@)),
            final(self).prop_index@ == insert_names(old(self).prop_index@, prop_names(raws.props@)),
            warnings_view(warnings@) == duplicate_warnings(
                all_names(&raws),
                raws.items@.len() as int,
                raws.mobs@.len() as int,
                all_names(&raws).len() as int,
            ) + unknown_spawn_warnings(all_names(&raws), raws.spawn_table@),
    {
        let ghost all = all_names(&raws);
        let ghost ni = raws.items@.len() as int;
        let ghost nm = raws.mobs@.len() as int;
        let ghost np = raws.props@.len() as int;
        self.raws = raws;
        self.item_index = NameIndex::new();
        let mut used_names: Vec<String> = Vec::new();
        let mut warnings: Vec<RawWarning> = Vec::new();
        let ghost old_mob = self.mob_index@;
        let ghost old_prop = self.prop_index@;
        assert(all == item_names(self.raws.items@) + mob_names(self.raws.mobs@) + prop_names(self.raws.props@));
        let mut i: usize = 0;
        assert(item_names(self.raws.items@).take(0) =~= Seq::<Seq<char>>::empty());
        while i < self.raws.items.len()
            invariant
                0 <= i <= ni,
                ni == self.raws.items@.len(),
                self.raws == raws,
                all == all_names(&raws),
                self.wf(),
                self.mob_index@ == old_mob,
                self.prop_index@ == old_prop,
                names_of(used_names@) == all.take(i as int),
                self.item_index@ == insert_names(Map::empty(), item_names(self.raws.items@).take(i as int)),
                warnings_view(warnings@) == duplicate_warnings(all, ni, nm, i as int),
            decreases ni - i,
        {
            let name = self.raws.items[i].name.clone();
            proof { lemma_all_at(&raws, i as int); }
            if names_contain(&used_names, &name) {
                let ghost before = warnings@;
                warnings.push(RawWarning { kind: RawWarningKind::DuplicateItem, name: name.clone() });
                assert(warnings_view(warnings@) =~= warnings_view(before).push((RawWarningKind::DuplicateItem, name@)));
            }
            proof {
                assert(item_names(self.raws.items@).take(i + 1).drop_last() =~= item_names(self.raws.items@).take(i as int));
            }
            self.item_index.insert(name.clone(), i);
            let ghost ub = used_names@;
            used_names.push(name);
            assert(names_of(used_names@) =~= names_of(ub).push(all[i as int]));
            assert(all.take(i + 1) =~= all.take(i as int).push(all[i as int]));
            i = i + 1;
        }
        assert(item_names(self.raws.items@).take(ni) =~= item_names(self.raws.items@));
        let mut j: usize = 0;
        assert(mob_names(self.raws.mobs@).take(0) =~= Seq::<Seq<char>>::empty());
        while j < self.raws.mobs.len()
            invariant
                0 <= j <= nm,
                ni == self.raws.items@.len(),
                nm == self.raws.mobs@.len(),
                self.raws == raws,
                all == all_names(&raws),
                self.wf(),
                self.item_index@ == insert_names(Map::empty(), item_names(self.raws.items@)),
                self.prop_index@ == old_prop,
                names_of(used_names@) == all.take(ni + j),
                self.mob_index@ == insert_names(old_mob, mob_names(self.raws.mobs@).take(j as int)),
                warnings_view(warnings@) == duplicate_warnings(all, ni, nm, ni + j),
            decreases nm - j,
        {
            let name = self.raws.mobs[j].name.clone();
            proof { lemma_all_at(&raws, ni + j); }
            if names_contain(&used_names, &name) {
                let ghost before = warnings@;
                warnings.push(RawWarning { kind: RawWarningKind::DuplicateMob, name: name.clone() });
                assert(warnings_view(warnings@) =~= warnings_view(before).push((RawWarningKind::DuplicateMob, name@)));
            }
            proof {
                assert(mob_names(self.raws.mobs@).take(j + 1).drop_last() =~= mob_names(self.raws.mobs@).take(j as int));
            }
            self.mob_index.insert(name.clone(), j);
            let ghost ub = used_names@;
            used_names.push(name);
            assert(names_of(used_names@) =~= names_of(ub).push(all[ni + j]));
            assert(all.take(ni + j + 1) =~= all.take(ni + j).push(all[ni + j]));
            j = j + 1;
        }
        assert(mob_names(self.raws.mobs@).take(nm) =~= mob_names(self.raws.mobs@));
        let mut k: usize = 0;
        assert(prop_names(self.raws.props@).take(0) =~= Seq::<Seq<char>>::empty());
        while k < self.raws.props.len()
            invariant
                0 <= k <= np,
                ni == self.raws.items@.len(),
                nm == self.raws.mobs@.len(),
                np == self.raws.props@.len(),
                self.raws == raws,
                all == all_names(&raws),
                self.wf(),
                self.item_index@ == insert_names(Map::empty(), item_names(self.raws.items@)),
                self.mob_index@ == insert_names(old_mob, mob_names(self.raws.mobs@)),
                names_of(used_names@) == all.take(ni + nm + k),
                self.prop_index@ == insert_names(old_prop, prop_names(self.raws.props@).take(k as int)),
                warnings_view(warnings@) == duplicate_warnings(all, ni, nm, ni + nm + k),
            decreases np - k,
        {
            let name = self.raws.props[k].name.clone();
            proof { lemma_all_at(&raws, ni + nm + k); }
            if names_contain(&used_names, &name) {
                let ghost before = warnings@;
                warnings.push(RawWarning { kind: RawWarningKind::DuplicateProp, name: name.clone() });
                assert(warnings_view(warnings@) =~= warnings_view(before).push((RawWarningKind::DuplicateProp, name@)));
            }
            proof {
                assert(prop_names(self.raws.props@).take(k + 1).drop_last() =~= prop_names(self.raws.props@).take(k as int));
            }
            self.prop_index.insert(name.clone(), k);
            let ghost ub = used_names@;
            used_names.push(name);
            assert(names_of(used_names@) =~= names_of(ub).push(all[ni + nm + k]));
            assert(all.take(ni + nm + k + 1) =~= all.take(ni + nm + k).push(all[ni + nm + k]));
            k = k + 1;
        }
        assert(prop_names(self.raws.props@).take(np) =~= prop_names(self.raws.props@));
        assert(all.take(ni + nm + np) =~= all);
        let ghost dups = warnings_view(warnings@);
        let mut s: usize = 0;
        assert(self.raws.spawn_table@.take(0) =~= Seq::<SpawnTableEntry>::empty());
        while s < self.raws.spawn_table.len()
            invariant
                0 <= s <= self.raws.spawn_table@.len(),
                self.raws == raws,
                all == all_names(&raws),
                names_of(used_names@) == all,
                warnings_view(warnings@) == dups + unknown_spawn_warnings(all, self.raws.spawn_table@.take(s as int)),
            decreases self.raws.spawn_table.len() - s,
        {
            assert(self.raws.spawn_table@.take(s + 1).drop_last() =~= self.raws.spawn_table@.take(s as int));
            if !names_contain(&used_names, &self.raws.spawn_table[s].name) {
                let ghost before = warnings@;
                warnings.push(RawWarning { kind: RawWarningKind::UnknownSpawn, name: self.raws.spawn_table[s].name.clone() });
                assert(warnings_view(warnings@) =~= warnings_view(before).push((RawWarningKind::UnknownSpawn, self.raws.spawn_table@[s as int].name@)));
            }
            s = s + 1;
        }
        assert(self.raws.spawn_table@.take(self.raws.spawn_table@.len() as int) =~= self.raws.spawn_table@);
        warnings
    }

    /// Whether the item index, where it maps `key`, leads within the item list.
    pub fn item_key_in_bounds(&self, key: &String) -> (r: bool)
        requires
            self.wf(),
        ensures
            r == item_in_bounds(self, key@),
    {
        match self.item_index.get(key) {
            Some(i) => i < self.raws.items.len(),
            None => true,
        }
    }

    /// Whether the prop index, where it maps `key`, leads within the prop list.
    pub fn prop_key_in_bounds(&self, key: &String) -> (r: bool)
        requires
            self.wf(),
        ensures
            r == prop_in_bounds(self, key@),
    {
        match self.prop_index.get(key) {
            Some(i) => i < self.raws.props.len(),
            None => true,
        }
    }

    /// Whether every name of the item index leads within the item list.
    pub fn items_in_bounds(&self) -> (r: bool)
        requires
            self.wf(),
        ensures
            r == (forall|k: Seq<char>| #[trigger] item_in_bounds(self, k)),
    {
        let r = self.item_index.all_below(self.raws.items.len());
        proof {
            if !r {
                let k = choose|k: Seq<char>| !(self.item_index@.contains_key(k) ==> self.item_index@[k] < self.raws.items@.len());
                assert(!item_in_bounds(self, k));
            }
        }
        r
    }

    /// Whether every name of the monster index leads within the monster list.
    pub fn mobs_in_bounds(&self) -> (r: bool)
        requires
            self.wf(),
        ensures
            r == (forall|k: Seq<char>| #[trigger] mob_in_bounds(self, k)),
    {
        let r = self.mob_index.all_below(self.raws.mobs.len());
        proof {
            if !r {
                let k = choose|k: Seq<char>| !(self.mob_index@.contains_key(k) ==> self.mob_index@[k] < self.raws.mobs@.len());
                assert(!mob_in_bounds(self, k));
            }
        }
        r
    }

    /// Whether every name of the prop index leads within the prop list.
    pub fn props_in_bounds(&self) -> (r: bool)
        requires
            self.wf(),
        ensures
            r == (forall|k: Seq<char>| #[trigger] prop_in_bounds(self, k)),
    {
        let r = self.prop_index.all_below(self.raws.props.len());
        proof {
            if !r {
                let k = choose|k: Seq<char>| !(self.prop_index@.contains_key(k) ==> self.prop_index@[k] < self.raws.props@.len());
                assert(!prop_in_bounds(self, k));
            }
        }
        r
    }

    /// Which template a name refers to: an item first, else a mob, else a prop.
    pub fn spawn_kind(&self, key: &String) -> (r: Option<SpawnKind>)
        requires
            self.wf(),
        ensures
            r == if self.item_index@.contains_key(key@) {
                Some(SpawnKind::Item(self.item_index@[key@]))
            } else if self.mob_index@.contains_key(key@) {
                Some(SpawnKind::Mob(self.mob_index@[key@]))
            } else if self.prop_index@.contains_key(key@) {
                Some(SpawnKind::Prop(self.prop_index@[key@]))
            } else {
                None
            },
    {
        if let Some(i) = self.item_index.get(key) {
            Some(SpawnKind::Item(i))
        } else if let Some(i) = self.mob_index.get(key) {
            Some(SpawnKind::Mob(i))
        } else if let Some(i) = self.prop_index.get(key) {
            Some(SpawnKind::Prop(i))
        } else {
            None
        }
    }
}

proof fn lemma_all_at(r: &Raws, k: int)
    requires
        0 <= k < all_names(r).len(),
    ensures
        k < r.items@.len() ==> all_names(r)[k] == r.items@[k].name@,
        r.items@.len() <= k < r.items@.len() + r.mobs@.len() ==> all_names(r)[k] == r.mobs@[k - r.items@.len()].name@,
        r.items@.len() + r.mobs@.len() <= k ==> all_names(r)[k] == r.props@[k - r.items@.len() - r.mobs@.len()].name@,
{
}

/// A spawn table line applies at `depth`.
pub open spec fn applies_at(e: SpawnTableEntry, depth: i32) -> bool {
    e.min_depth <= depth <= e.max_depth
}

/// The weight a line gets at `depth`: the depth is added when the line asks for it.
pub open spec fn weight_at(e: SpawnTableEntry, depth: i32) -> int {
    if e.add_map_depth_to_weight is Some {
        e.weight + depth
    } else {
        e.weight as int
    }
}

/// The (name, weight) pairs the spawn table for `depth` is made of, in table order.
pub open spec fn spawn_table_for_depth(table: Seq<SpawnTableEntry>, depth: i32) -> Seq<(Seq<char>, int)>
    decreases table.len(),
{
    if table.len() == 0 {
        Seq::empty()
    } else {
        let rest = spawn_table_for_depth(table.drop_last(), depth);
        let e = table.last();
        if applies_at(e, depth) {
            rest.push((e.name@, weight_at(e, depth)))
        } else {
            rest
        }
    }
}

pub open spec fn weights_view(v: Seq<(String, i32)>) -> Seq<(Seq<char>, int)> {
    v.map_values(|p: (String, i32)| (p.0@, p.1 as int))
}

/// The names and weights for the random spawn table at `depth`: the lines
/// whose depth range holds `depth`, with the depth added to the weight when
/// the line asks for it.
pub fn get_spawn_table_for_depth(raws: &RawMaster, depth: i32) -> (r: Vec<(String, i32)>)
    requires
        forall|i: int| 0 <= i < raws.raws.spawn_table@.len() && applies_at(#[trigger] raws.raws.spawn_table@[i], depth)
            ==> i32::MIN <= weight_at(raws.raws.spawn_table@[i], depth) <= i32::MAX,
    ensures
        weights_view(r@) == spawn_table_for_depth(raws.raws.spawn_table@, depth),
{
    let table = &raws.raws.spawn_table;
    let mut rt: Vec<(String, i32)> = Vec::new();
    let mut i: usize = 0;
    assert(table@.take(0) =~= Seq::<SpawnTableEntry>::empty());
    while i < table.len()
        invariant
            0 <= i <= table@.len(),
            forall|q: int| 0 <= q < table@.len() && applies_at(#[trigger] table@[q], depth)
                ==> i32::MIN <= weight_at(table@[q], depth) <= i32::MAX,
            weights_view(rt@) == spawn_table_for_depth(table@.take(i as int), depth),
        decreases table.len() - i,
    {
        let e = &table[i];
        assert(table@.take(i + 1).drop_last() =~= table@.take(i as int));
        if depth >= e.min_depth && depth <= e.max_depth {
            proof { assert(applies_at(table@[i as int], depth)); }
            let mut weight = e.weight;
            if e.add_map_depth_to_weight.is_some() {
                weight += depth;
            }
            let ghost before = rt@;
            rt.push((e.name.clone(), weight));
            assert(weights_view(rt@) =~= weights_view(before).push((e.name@, weight as int)));
        }
        i = i + 1;
    }
    assert(table@.take(table@.len() as int) =~= table@);
    rt
}


#[verifier::external_type_specification]
#[verifier::external_body]
pub struct ExRandomNumberGenerator(RandomNumberGenerator);

/// Calls `rltk::RandomNumberGenerator::new`, a generator seeded from entropy.
/// Nothing is claimed of its state.
#[verifier::external_body]
fn rng_new() -> RandomNumberGenerator {
    RandomNumberGenerator::new()
}

/// Calls `rltk::RandomNumberGenerator::roll_dice`: the sum of `n` draws, each
/// between 1 and `die_type` (its source draws each with `range(1, die_type + 1)`,
/// which panics unless `die_type >= 1`). Which sum comes out is left open.
#[verifier::external_body]
fn roll_dice(rng: &mut RandomNumberGenerator, n: i32, die_type: i32) -> (r: i32)
    requires
        0 <= n,
        1 <= die_type < i32::MAX,
        n * die_type <= i32::MAX,
    ensures
        n <= r <= n * die_type,
{
    rng.roll_dice(n, die_type)
}

/// The sex a creature is given.
#[derive(Clone, Copy, PartialEq, Eq, Structural, Debug)]
pub enum Sexe {
    Male,
    Female,
}

/// The sex fixed by the choice, if it fixes one. When a kind is first spawned,
/// the "start" choices fix the sex; for a creature born of a parent, only the
/// "only" choices do.
pub open spec fn fixed_sexe(choice: SexeChoice, at_birth: bool) -> Option<Sexe> {
    match choice {
        SexeChoice::MaleOnly => Some(Sexe::Male),
        SexeChoice::FemaleOnly => Some(Sexe::Female),
        SexeChoice::MaleStart => if at_birth { None } else { Some(Sexe::Male) },
        SexeChoice::FemaleStart => if at_birth { None } else { Some(Sexe::Female) },
        SexeChoice::Random => None,
    }
}

/// The sex given where the choice leaves it open to a roll of a two-sided die:
/// 1 gives a male, 2 a female, any other number none.
pub open spec fn sexe_of_roll(choice: SexeChoice, at_birth: bool, roll: i32) -> Option<Sexe> {
    match fixed_sexe(choice, at_birth) {
        Some(s) => Some(s),
        None => if roll == 1 {
            Some(Sexe::Male)
        } else if roll == 2 {
            Some(Sexe::Female)
        } else {
            None
        },
    }
}

/// The sex of a spawned creature, given the die roll made for it.
pub fn sexe_from_roll(choice: SexeChoice, at_birth: bool, roll: i32) -> (r: Option<Sexe>)
    ensures
        r == sexe_of_roll(choice, at_birth, roll),
{
    match fixed_sexe_exec(choice, at_birth) {
        Some(s) => Some(s),
        None => if roll == 1 {
            Some(Sexe::Male)
        } else if roll == 2 {
            Some(Sexe::Female)
        } else {
            None
        },
    }
}

/// The sex of a spawned creature: the one the choice fixes, else male or
/// female at random (one roll of a two-sided die).
pub fn pick_sexe(choice: SexeChoice, at_birth: bool) -> (r: Option<Sexe>)
    ensures
        r is Some,
        fixed_sexe(choice, at_birth) matches Some(s) ==> r == Some(s),
{
    match fixed_sexe_exec(choice, at_birth) {
        Some(s) => Some(s),
        None => {
            let mut rng = rng_new();
            let roll = roll_dice(&mut rng, 1, 2);
            sexe_from_roll(choice, at_birth, roll)
        },
    }
}

/// A sex that a template's choice allows: none where it has no choice; where
/// it has one, some sex, the one it fixes if it fixes one.
pub open spec fn sexe_allowed(choice: Option<SexeChoice>, at_birth: bool, s: Option<Sexe>) -> bool {
    match choice {
        None => s is None,
        Some(c) => s is Some && (fixed_sexe(c, at_birth) matches Some(f) ==> s == Some(f)),
    }
}

fn sexe_for(choice: Option<SexeChoice>, at_birth: bool) -> (r: Option<Sexe>)
    ensures
        sexe_allowed(choice, at_birth, r),
{
    match choice {
        Some(c) => pick_sexe(c, at_birth),
        None => None,
    }
}

fn fixed_sexe_exec(choice: SexeChoice, at_birth: bool) -> (r: Option<Sexe>)
    ensures
        r == fixed_sexe(choice, at_birth),
{
    match choice {
        SexeChoice::MaleOnly => Some(Sexe::Male),
        SexeChoice::FemaleOnly => Some(Sexe::Female),
        SexeChoice::MaleStart => if at_birth { None } else { Some(Sexe::Male) },
        SexeChoice::FemaleStart => if at_birth { None } else { Some(Sexe::Female) },
        SexeChoice::Random => None,
    }
}

/// Where a spawned entity is put.
#[derive(Clone, Copy, PartialEq, Eq, Structural, Debug)]
pub enum SpawnType {
    AtPosition { x: i32, y: i32 },
}

/// The square a spawn place names.
pub open spec fn spawn_square(pos: SpawnType) -> (i32, i32) {
    match pos {
        SpawnType::AtPosition { x, y } => (x, y),
    }
}

fn square_of(pos: SpawnType) -> (r: (i32, i32))
    ensures
        r == spawn_square(pos),
{
    match pos {
        SpawnType::AtPosition { x, y } => (x, y),
    }
}

/// The item template a name refers to.
pub open spec fn item_of(raws: &RawMaster, key: Seq<char>) -> Item {
    raws.raws.items@[raws.item_index@[key] as int]
}

/// The monster template a name refers to.
pub open spec fn mob_of(raws: &RawMaster, key: Seq<char>) -> Mob {
    raws.raws.mobs@[raws.mob_index@[key] as int]
}

/// The prop template a name refers to.
pub open spec fn prop_of(raws: &RawMaster, key: Seq<char>) -> Prop {
    raws.raws.props@[raws.prop_index@[key] as int]
}

/// Where the item index maps `key`, it gives a number within the item list.
pub open spec fn item_in_bounds(raws: &RawMaster, key: Seq<char>) -> bool {
    raws.item_index@.contains_key(key) ==> raws.item_index@[key] < raws.raws.items@.len()
}

/// Where the monster index maps `key`, it gives a number within the monster list.
pub open spec fn mob_in_bounds(raws: &RawMaster, key: Seq<char>) -> bool {
    raws.mob_index@.contains_key(key) ==> raws.mob_index@[key] < raws.raws.mobs@.len()
}

/// Where the prop index maps `key`, it gives a number within the prop list.
pub open spec fn prop_in_bounds(raws: &RawMaster, key: Seq<char>) -> bool {
    raws.prop_index@.contains_key(key) ==> raws.prop_index@[key] < raws.raws.props@.len()
}

/// Where the indexes map `key`, they give a template number within the list.
pub open spec fn key_in_bounds(raws: &RawMaster, key: Seq<char>) -> bool {
    &&& item_in_bounds(raws, key)
    &&& mob_in_bounds(raws, key)
    &&& prop_in_bounds(raws, key)
}

/// The bound of the one index that spawning `key` by name reads: the item
/// index, else (for a name no item has) the monster index, else the prop index.
pub open spec fn entity_in_bounds(raws: &RawMaster, key: Seq<char>) -> bool {
    &&& item_in_bounds(raws, key)
    &&& !raws.item_index@.contains_key(key) ==> mob_in_bounds(raws, key)
    &&& !raws.item_index@.contains_key(key) && !raws.mob_index@.contains_key(key) ==> prop_in_bounds(raws, key)
}

/// Spawns the item named `key` at `pos`: none if no item has that name;
/// else its components, and the square is recorded as dirty.
pub fn spawn_named_item(raws: &RawMaster, key: &String, pos: SpawnType, dirty: &mut Vec<(i32, i32)>) -> (r: Option<Vec<Part>>)
    requires
        raws.wf(),
        item_in_bounds(raws, key@),
    ensures
        r is Some <==> raws.item_index@.contains_key(key@),
        r matches Some(v) ==> v@ == item_plan(item_of(raws, key@), spawn_square(pos).0, spawn_square(pos).1),
        r is Some ==> final(dirty)@ == old(dirty)@.push(spawn_square(pos)),
        r is None ==> final(dirty)@ == old(dirty)@,
{
    match raws.item_index.get(key) {
        Some(i) => {
            let t = &raws.raws.items[i];
            let (x, y) = square_of(pos);
            dirty.push((x, y));
            Some(item_parts(t, x, y))
        },
        None => None,
    }
}

/// Spawns the monster named `key` at `pos`: none if no monster has that
/// name; else its components, and the square is recorded as dirty.
pub fn spawn_named_mob(raws: &RawMaster, key: &String, pos: SpawnType, dirty: &mut Vec<(i32, i32)>) -> (r: Option<Vec<Part>>)
    requires
        raws.wf(),
        mob_in_bounds(raws, key@),
    ensures
        r is Some <==> raws.mob_index@.contains_key(key@),
        r matches Some(v) ==> v@ == mob_plan(mob_of(raws, key@), spawn_square(pos).0, spawn_square(pos).1),
        r is Some ==> final(dirty)@ == old(dirty)@.push(spawn_square(pos)),
        r is None ==> final(dirty)@ == old(dirty)@,
{
    match raws.mob_index.get(key) {
        Some(i) => {
            let t = &raws.raws.mobs[i];
            let (x, y) = square_of(pos);
            dirty.push((x, y));
            Some(mob_parts(t, x, y))
        },
        None => None,
    }
}

/// Spawns the prop named `key` at `pos`: none if no prop has that name;
/// else its components, with a fresh identifier drawn from `counter` and a sex
/// the template allows; the square is recorded as dirty.
pub fn spawn_named_prop(
    raws: &RawMaster,
    key: &String,
    pos: SpawnType,
    dirty: &mut Vec<(i32, i32)>,
    counter: &mut IdCounter,
) -> (r: Option<Vec<Part>>)
    requires
        raws.wf(),
        prop_in_bounds(raws, key@),
    ensures
        r is Some <==> raws.prop_index@.contains_key(key@),
        r matches Some(v) ==> exists|s: Option<Sexe>|
            sexe_allowed(prop_of(raws, key@).sexe, false, s)
                && v@ == prop_plan(prop_of(raws, key@), old(counter)@ as usize, spawn_square(pos).0, spawn_square(pos).1, s),
        r is Some ==> final(dirty)@ == old(dirty)@.push(spawn_square(pos)) && final(counter)@ == next_id(old(counter)@),
        r is None ==> final(dirty)@ == old(dirty)@ && final(counter)@ == old(counter)@,
{
    match raws.prop_index.get(key) {
        Some(i) => {
            let t = &raws.raws.props[i];
            let id = _unique_id(counter);
            let (x, y) = square_of(pos);
            dirty.push((x, y));
            let s = sexe_for(t.sexe, false);
            Some(prop_parts(t, id, x, y, s))
        },
        None => None,
    }
}

/// Spawns whatever `key` names at `pos`: an item if an item has that name,
/// else a monster, else a prop; none if nothing has that name.
pub fn spawn_named_entity(
    raws: &RawMaster,
    key: &String,
    pos: SpawnType,
    dirty: &mut Vec<(i32, i32)>,
    counter: &mut IdCounter,
) -> (r: Option<Vec<Part>>)
    requires
        raws.wf(),
        entity_in_bounds(raws, key@),
    ensures
        raws.item_index@.contains_key(key@) ==> {
            &&& r matches Some(v) && v@ == item_plan(item_of(raws, key@), spawn_square(pos).0, spawn_square(pos).1)
            &&& final(dirty)@ == old(dirty)@.push(spawn_square(pos))
            &&& final(counter)@ == old(counter)@
        },
        !raws.item_index@.contains_key(key@) && raws.mob_index@.contains_key(key@) ==> {
            &&& r matches Some(v) && v@ == mob_plan(mob_of(raws, key@), spawn_square(pos).0, spawn_square(pos).1)
            &&& final(dirty)@ == old(dirty)@.push(spawn_square(pos))
            &&& final(counter)@ == old(counter)@
        },
        !raws.item_index@.contains_key(key@) && !raws.mob_index@.contains_key(key@)
            && raws.prop_index@.contains_key(key@) ==> {
            &&& r matches Some(v) && exists|s: Option<Sexe>|
                sexe_allowed(prop_of(raws, key@).sexe, false, s)
                    && v@ == prop_plan(prop_of(raws, key@), old(counter)@ as usize, spawn_square(pos).0, spawn_square(pos).1, s)
            &&& final(dirty)@ == old(dirty)@.push(spawn_square(pos))
            &&& final(counter)@ == next_id(old(counter)@)
        },
        !raws.item_index@.contains_key(key@) && !raws.mob_index@.contains_key(key@)
            && !raws.prop_index@.contains_key(key@) ==> {
            &&& r is None
            &&& final(dirty)@ == old(dirty)@
            &&& final(counter)@ == old(counter)@
        },
{
    if raws.item_index.contains_key(key) {
        spawn_named_item(raws, key, pos, dirty)
    } else if raws.mob_index.contains_key(key) {
        spawn_named_mob(raws, key, pos, dirty)
    } else if raws.prop_index.contains_key(key) {
        spawn_named_prop(raws, key, pos, dirty, counter)
    } else {
        None
    }
}

/// A creature of the prop kind `name` is born at `pos`, taking the traits
/// `mutations` from its parent: none if no prop has that name; else its
/// components, with a fresh identifier drawn from `counter` and a sex the
/// template allows at birth.
pub fn spawn_born(
    raws: &RawMaster,
    name: &String,
    pos: SpawnType,
    mutations: Mutations,
    counter: &mut IdCounter,
) -> (r: Option<Vec<Part>>)
    requires
        raws.wf(),
        prop_in_bounds(raws, name@),
    ensures
        r is Some <==> raws.prop_index@.contains_key(name@),
        r matches Some(v) ==> exists|s: Option<Sexe>|
            sexe_allowed(prop_of(raws, name@).sexe, true, s)
                && v@ == born_plan(prop_of(raws, name@), mutations, old(counter)@ as usize, spawn_square(pos).0, spawn_square(pos).1, s),
        r is Some ==> final(counter)@ == next_id(old(counter)@),
        r is None ==> final(counter)@ == old(counter)@,
{
    match raws.prop_index.get(name) {
        Some(i) => {
            let t = &raws.raws.props[i];
            let id = _unique_id(counter);
            let (x, y) = square_of(pos);
            let s = sexe_for(t.sexe, true);
            Some(born_parts(t, mutations, id, x, y, s))
        },
        None => None,
    }
}

/// In an index built from an empty one, each name maps to a place of the list
/// that holds that very name.
pub proof fn lemma_fresh_index_sound(names: Seq<Seq<char>>, key: Seq<char>)
    requires
        names.len() <= usize::MAX + 1,
    ensures
        insert_names(Map::empty(), names).contains_key(key) ==> {
            let v = insert_names(Map::empty(), names)[key] as int;
            0 <= v < names.len() && names[v] == key
        },
    decreases names.len(),
{
    if names.len() > 0 {
        lemma_fresh_index_sound(names.drop_last(), key);
    }
}

/// Once raws are loaded into an empty master, every name its indexes know
/// leads to a template of its list, and that template bears the name: what is
/// spawned by name is what that name describes.
pub proof fn lemma_loaded_names_lead_to_templates(r: &RawMaster, key: Seq<char>)
    requires
        r.item_index@ == insert_names(Map::empty(), item_names(r.raws.items@)),
        r.mob_index@ == insert_names(Map::empty(), mob_names(r.raws.mobs@)),
        r.prop_index@ == insert_names(Map::empty(), prop_names(r.raws.props@)),
        r.raws.items@.len() <= usize::MAX,
        r.raws.mobs@.len() <= usize::MAX,
        r.raws.props@.len() <= usize::MAX,
    ensures
        key_in_bounds(r, key),
        r.item_index@.contains_key(key) ==> item_of(r, key).name@ == key,
        r.mob_index@.contains_key(key) ==> mob_of(r, key).name@ == key,
        r.prop_index@.contains_key(key) ==> prop_of(r, key).name@ == key,
{
    lemma_fresh_index_sound(item_names(r.raws.items@), key);
    lemma_fresh_index_sound(mob_names(r.raws.mobs@), key);
    lemma_fresh_index_sound(prop_names(r.raws.props@), key);
}

} // verus!
