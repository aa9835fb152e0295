use vstd::prelude::*;
use std::collections::HashMap;
use crate::components::Ent;
use crate::rect::Rect;

verus! {

broadcast use vstd::std_specs::hash::group_hash_axioms;

pub const MAPWIDTH: usize = 1000;

pub const MAPHEIGHT: usize = 1000;

pub const MAPCOUNT: usize = MAPHEIGHT * MAPWIDTH;

/// Cost of a step to a side neighbour, in hundredths of a move.
pub const CARDINAL_COST: u32 = 100;

/// Cost of a diagonal step, in hundredths of a move.
pub const DIAGONAL_COST: u32 = 145;

/// The world map: its size, the blocked squares and, for each square, the
/// entities that stand on it. Squares are numbered row by row.
pub struct WorldMap {
    pub rooms: Vec<Rect>,
    pub width: i32,
    pub height: i32,
    pub revealed_tiles: HashMap<usize, bool>,
    pub visible_tiles: HashMap<usize, bool>,
    pub blocked: HashMap<usize, bool>,
    pub depth: i32,
    /// squares (x, y) whose content must be indexed again
    pub dirty: Vec<(i32, i32)>,
    pub tile_content: HashMap<usize, Vec<Ent>>,
}

/// Whether a square is blocked: a square with no entry is free.
pub open spec fn blocked_in(blocked: Map<usize, bool>, idx: usize) -> bool {
    blocked.contains_key(idx) && blocked[idx]
}

/// What `v as usize` gives for an `i32`: the value itself, or for a negative
/// one that value plus the word size.
pub open spec fn usize_of(v: i32) -> int {
    if v >= 0 {
        v as int
    } else {
        v + usize::MAX + 1
    }
}

/// The number `xy_idx` gives square `(x, y)` on a map `width` wide, computed on
/// `usize`.
pub open spec fn square_number(width: i32, x: i32, y: i32) -> int {
    usize_of(y) * usize_of(width) + usize_of(x)
}

/// The squares `xy_idx` can number: those whose number fits a `usize`.
pub open spec fn numberable(width: i32, x: i32, y: i32) -> bool {
    square_number(width, x, y) <= usize::MAX
}

/// `v as usize`.
fn as_usize(v: i32) -> (r: usize)
    ensures
        r == usize_of(v),
{
    if v >= 0 {
        v as usize
    } else {
        let m: usize = (-(v as i64) - 1) as usize;
        usize::MAX - m
    }
}

/// The number of square `(x, y)` on a map `width` wide.
pub open spec fn square_index(width: int, x: int, y: int) -> int {
    y * width + x
}

/// Whether a creature may step onto `(x, y)`: strictly inside the border, and free.
pub open spec fn exit_valid(m: &WorldMap, x: int, y: int) -> bool {
    &&& 1 <= x <= m.width - 1
    &&& 1 <= y <= m.height - 1
    &&& !blocked_in(m.blocked@, square_index(m.width as int, x, y) as usize)
}

pub open spec fn exit_if(ok: bool, dest: int, cost: u32) -> Seq<(i32, u32)> {
    if ok {
        seq![(dest as i32, cost)]
    } else {
        seq![]
    }
}

/// The squares reachable in one step from square `idx`, with their cost: the
/// four side neighbours, then the four diagonal ones, each if it is a valid exit.
pub open spec fn spec_exits(m: &WorldMap, idx: int) -> Seq<(i32, u32)> {
    let w = m.width as int;
    let x = idx % w;
    let y = idx / w;
    exit_if(exit_valid(m, x - 1, y), idx - 1, CARDINAL_COST) + exit_if(
        exit_valid(m, x + 1, y),
        idx + 1,
        CARDINAL_COST,
    ) + exit_if(exit_valid(m, x, y - 1), idx - w, CARDINAL_COST) + exit_if(
        exit_valid(m, x, y + 1),
        idx + w,
        CARDINAL_COST,
    ) + exit_if(exit_valid(m, x - 1, y - 1), idx - w - 1, DIAGONAL_COST) + exit_if(
        exit_valid(m, x + 1, y - 1),
        idx - w + 1,
        DIAGONAL_COST,
    ) + exit_if(exit_valid(m, x - 1, y + 1), idx + w - 1, DIAGONAL_COST) + exit_if(
        exit_valid(m, x + 1, y + 1),
        idx + w + 1,
        DIAGONAL_COST,
    )
}

/// Everything but the blocked squares is the same in both maps.
pub open spec fn same_but_blocked(a: &WorldMap, b: &WorldMap) -> bool {
    &&& a.rooms@ == b.rooms@
    &&& a.width == b.width
    &&& a.height == b.height
    &&& a.revealed_tiles@ == b.revealed_tiles@
    &&& a.visible_tiles@ == b.visible_tiles@
    &&& a.depth == b.depth
    &&& a.dirty@ == b.dirty@
    &&& a.tile_content@ == b.tile_content@
}

impl WorldMap {
    /// A usable map: positive sizes, and every square number fits an `i32`.
    pub open spec fn wf(&self) -> bool {
        &&& 0 < self.width
        &&& 0 < self.height
        &&& self.width * self.height <= i32::MAX
    }

    /// The number of square `(x, y)`, computed on `usize` (a negative
    /// coordinate is read as `usize` reads it, modulo the word size).
    pub fn xy_idx(&self, x: i32, y: i32) -> (r: usize)
        requires
            numberable(self.width, x, y),
        ensures
            r == square_number(self.width, x, y),
    {
        let yy: usize = as_usize(y);
        let ww: usize = as_usize(self.width);
        let xx: usize = as_usize(x);
        assert(yy * ww <= usize::MAX) by (nonlinear_arith)
            requires
                yy * ww + xx <= usize::MAX,
                0 <= xx,
        ;
        (yy * ww) + xx
    }

    pub fn is_blocked(&self, idx: usize) -> (r: bool)
        ensures
            r == blocked_in(self.blocked@, idx),
    {
        if let Some(blocked) = self.blocked.get(&idx) {
            if *blocked {
                true
            } else {
                false
            }
        } else {
            false
        }
    }

    pub fn set_blocked(&mut self, idx: usize, is_blocked: bool)
        ensures
            final(self).blocked@ == old(self).blocked@.insert(idx, is_blocked),
            same_but_blocked(old(self), final(self)),
    {
        self.blocked.insert(idx, is_blocked);
    }

    /// The coordinates `(x, y)` of square `idx`.
    pub fn idx_xy(&self, idx: usize) -> (r: (i32, i32))
        requires
            0 < self.width,
            idx <= i32::MAX,
        ensures
            r.0 == idx as int % self.width as int,
            r.1 == idx as int / self.width as int,
    {
        let i: u32 = idx as u32;
        let w: u32 = self.width as u32;
        ((i % w) as i32, (i / w) as i32)
    }

    fn apply_room_to_map(&mut self, room: &Rect)
        requires
            0 <= room.x1 < room.x2 < i32::MAX || room.x2 <= room.x1,
            0 <= room.y1 < room.y2 < i32::MAX || room.y2 <= room.y1,
            0 <= room.x1,
            0 <= room.y1,
            0 <= old(self).width,
            square_index(old(self).width as int, room.x2 as int, room.y2 as int) <= usize::MAX,
        ensures
            *final(self) == *old(self),
    {
        let mut y: i32 = room.y1;
        while y < room.y2
            invariant
                0 <= room.y1 <= y,
                y < room.y2 ==> y + 1 <= room.y2,
                room.y2 <= room.y1 || y <= room.y2,
                0 <= room.x1 < room.x2 < i32::MAX || room.x2 <= room.x1,
                0 <= room.x1,
                0 <= self.width,
                square_index(self.width as int, room.x2 as int, room.y2 as int) <= usize::MAX,
            decreases room.y2 - y,
        {
            y = y + 1;
            let mut x: i32 = room.x1;
            while x < room.x2
                invariant
                    0 <= room.x1 <= x,
                    room.x2 <= room.x1 || x <= room.x2,
                    1 <= y <= room.y2,
                    0 <= self.width,
                    square_index(self.width as int, room.x2 as int, room.y2 as int) <= usize::MAX,
                decreases room.x2 - x,
            {
                x = x + 1;
                proof {
                    lemma_index_monotone(self.width as int, x as int, y as int, room.x2 as int, room.y2 as int);
                }
                let _idx = self.xy_idx(x, y);
            }
        }
    }

    fn is_exit_valid(&self, x: i32, y: i32) -> (r: bool)
        requires
            self.wf(),
        ensures
            r == exit_valid(self, x as int, y as int),
    {
        if x < 1 || x > self.width - 1 || y < 1 || y > self.height - 1 {
            return false;
        }
        proof {
            lemma_square_in_map(self.width as int, self.height as int, x as int, y as int);
        }
        let idx = self.xy_idx(x, y);
        !self.is_blocked(idx)
    }

    pub fn clear_content_index(&mut self)
        ensures
            final(self).tile_content@ == Map::<usize, Vec<Ent>>::empty(),
            final(self).rooms@ == old(self).rooms@,
            final(self).width == old(self).width,
            final(self).height == old(self).height,
            final(self).blocked@ == old(self).blocked@,
            final(self).revealed_tiles@ == old(self).revealed_tiles@,
            final(self).visible_tiles@ == old(self).visible_tiles@,
            final(self).depth == old(self).depth,
            final(self).dirty@ == old(self).dirty@,
    {
        self.tile_content.clear()
    }

    /// A new map, `MAPWIDTH` by `MAPHEIGHT`, with one room covering all but its edge.
    pub fn new_map() -> (map: WorldMap)
        ensures
            map.wf(),
            map.width == MAPWIDTH,
            map.height == MAPHEIGHT,
            map.rooms@ == seq![Rect { x1: 1, y1: 1, x2: (MAPWIDTH - 3) as i32, y2: (MAPHEIGHT - 3) as i32 }],
            map.revealed_tiles@ == Map::<usize, bool>::empty(),
            map.visible_tiles@ == Map::<usize, bool>::empty(),
            map.blocked@ == Map::<usize, bool>::empty(),
            map.tile_content@ == Map::<usize, Vec<Ent>>::empty(),
            map.depth == 0,
            map.dirty@ == Seq::<(i32, i32)>::empty(),
    {
        let mut map = WorldMap {
            rooms: Vec::new(),
            width: MAPWIDTH as i32,
            height: MAPHEIGHT as i32,
            revealed_tiles: HashMap::new(),
            visible_tiles: HashMap::new(),
            blocked: HashMap::new(),
            tile_content: HashMap::new(),
            depth: 0,
            dirty: Vec::new(),
        };
        let new_room = Rect::new(1, 1, map.width - 4, map.height - 4);
        map.apply_room_to_map(&new_room);
        map.rooms.push(new_room);
        map
    }

    /// The squares reachable in one step from square `idx`, each with the cost of
    /// the step in hundredths of a move (`CARDINAL_COST` or `DIAGONAL_COST`).
    #[verifier::rlimit(60)]
    pub fn get_available_exits(&self, idx: i32) -> (exits: Vec<(i32, u32)>)
        requires
            self.wf(),
            0 <= idx < self.width * self.height,
        ensures
            exits@ == spec_exits(self, idx as int),
    {
        let w = self.width;
        let x = idx % w;
        let y = idx / w;
        proof {
            lemma_split_index(w as int, self.height as int, idx as int);
        }
        let ghost g = spec_exits(self, idx as int);
        let mut exits: Vec<(i32, u32)> = Vec::new();
        if self.is_exit_valid(x - 1, y) {
            exits.push((idx - 1, CARDINAL_COST));
        }
        if self.is_exit_valid(x + 1, y) {
            proof { lemma_square_in_map(w as int, self.height as int, x + 1, y as int); }
            exits.push((idx + 1, CARDINAL_COST));
        }
        if self.is_exit_valid(x, y - 1) {
            exits.push((idx - w, CARDINAL_COST));
        }
        if self.is_exit_valid(x, y + 1) {
            proof { lemma_square_in_map(w as int, self.height as int, x as int, y + 1); }
            exits.push((idx + w, CARDINAL_COST));
        }
        if self.is_exit_valid(x - 1, y - 1) {
            exits.push((idx - w - 1, DIAGONAL_COST));
        }
        if self.is_exit_valid(x + 1, y - 1) {
            exits.push((idx - w + 1, DIAGONAL_COST));
        }
        if self.is_exit_valid(x - 1, y + 1) {
            proof { lemma_square_in_map(w as int, self.height as int, x - 1, y + 1); }
            exits.push((idx + w - 1, DIAGONAL_COST));
        }
        if self.is_exit_valid(x + 1, y + 1) {
            proof { lemma_square_in_map(w as int, self.height as int, x + 1, y + 1); }
            exits.push((idx + w + 1, DIAGONAL_COST));
        }
        assert(exits@ =~= g);
        exits
    }

    /// Whether a point lies strictly inside the border of the map.
    pub fn in_bounds(&self, pos: (i32, i32)) -> (r: bool)
        requires
            self.wf(),
        ensures
            r == (0 < pos.0 < self.width - 1 && 0 < pos.1 < self.height - 1),
    {
        pos.0 > 0 && pos.0 < self.width - 1 && pos.1 > 0 && pos.1 < self.height - 1
    }

    /// The square number of a point.
    pub fn point2d_to_index(&self, pt: (i32, i32)) -> (r: i32)
        requires
            i32::MIN <= square_index(self.width as int, pt.0 as int, pt.1 as int) <= i32::MAX,
        ensures
            r == square_index(self.width as int, pt.0 as int, pt.1 as int),
    {
        let p: i64 = pt.1 as i64 * self.width as i64;
        (p + pt.0 as i64) as i32
    }

    /// The point of a square number.
    pub fn index_to_point2d(&self, idx: i32) -> (r: (i32, i32))
        requires
            0 < self.width,
            0 <= idx,
        ensures
            r.0 == idx as int % self.width as int,
            r.1 == idx as int / self.width as int,
    {
        let i: u32 = idx as u32;
        let w: u32 = self.width as u32;
        ((i % w) as i32, (i / w) as i32)
    }
}


/// What the map index needs to know of an entity that has a position: where it
/// stands, whether it blocks its square, and whether it moves at a finer scale
/// than squares (such entities never block).
#[derive(Clone, Copy, Debug)]
pub struct IndexEntry {
    pub entity: Ent,
    pub x: i32,
    pub y: i32,
    pub blocks: bool,
    pub precise: bool,
}

/// The first entry of `located` about entity `e`.
pub open spec fn find_entry(located: Seq<IndexEntry>, e: Ent) -> Option<IndexEntry>
    decreases located.len(),
{
    if located.len() == 0 {
        None
    } else if located[0].entity == e {
        Some(located[0])
    } else {
        find_entry(located.drop_first(), e)
    }
}

/// Entity `e` stands on square `t`.
pub open spec fn lands_at(width: i32, located: Seq<IndexEntry>, e: Ent, t: int) -> bool {
    match find_entry(located, e) {
        Some(en) => square_number(width, en.x, en.y) == t,
        None => false,
    }
}

/// Entity `e` stands on square `t` and makes it blocked.
pub open spec fn blocks_at(width: i32, located: Seq<IndexEntry>, e: Ent, t: int) -> bool {
    match find_entry(located, e) {
        Some(en) => square_number(width, en.x, en.y) == t && en.blocks && !en.precise,
        None => false,
    }
}

/// The index lists entity `e` on square `t`.
pub open spec fn listed(content: Map<usize, Vec<Ent>>, t: int, e: Ent) -> bool {
    0 <= t <= usize::MAX && content.contains_key(t as usize) && content[t as usize]@.contains(e)
}

/// No square lists an entity twice.
pub open spec fn tiles_without_repeats(content: Map<usize, Vec<Ent>>) -> bool {
    forall|t: usize| #[trigger] content.contains_key(t) ==> content[t]@.no_duplicates()
}

/// No entity is listed on two squares.
pub open spec fn listed_once(content: Map<usize, Vec<Ent>>) -> bool {
    forall|t1: int, t2: int, e: Ent| #[trigger] listed(content, t1, e) && #[trigger] listed(content, t2, e) ==> t1 == t2
}

/// Every entity the index lists is listed once: on one square, and once there.
pub open spec fn index_consistent(content: Map<usize, Vec<Ent>>) -> bool {
    tiles_without_repeats(content) && listed_once(content)
}

/// Square `t` is one of the squares marked dirty.
pub open spec fn dirty_square(width: i32, dirty: Seq<(i32, i32)>, t: int) -> bool {
    exists|i: int| 0 <= i < dirty.len() && #[trigger] square_number(width, dirty[i].0, dirty[i].1) == t
}

/// Entity `e` was listed on a dirty square.
pub open spec fn dirty_entity(width: i32, dirty: Seq<(i32, i32)>, content: Map<usize, Vec<Ent>>, e: Ent) -> bool {
    exists|t: int| dirty_square(width, dirty, t) && #[trigger] listed(content, t, e)
}

fn find_located(located: &Vec<IndexEntry>, e: Ent) -> (r: Option<IndexEntry>)
    ensures
        r == find_entry(located@, e),
{
    let mut i: usize = 0;
    assert(located@.skip(0) =~= located@);
    while i < located.len()
        invariant
            0 <= i <= located@.len(),
            find_entry(located@, e) == find_entry(located@.skip(i as int), e),
        decreases located.len() - i,
    {
        assert(located@.skip(i as int).drop_first() =~= located@.skip(i + 1));
        if located[i].entity == e {
            return Some(located[i]);
        }
        i = i + 1;
    }
    None
}

fn contains_ent(v: &Vec<Ent>, e: Ent) -> (r: bool)
    ensures
        r == v@.contains(e),
{
    let mut i: usize = 0;
    while i < v.len()
        invariant
            0 <= i <= v@.len(),
            forall|k: int| 0 <= k < i ==> v@[k] != e,
        decreases v.len() - i,
    {
        if v[i] == e {
            return true;
        }
        i = i + 1;
    }
    false
}

impl WorldMap {
    /// Indexes again the entities of the dirty squares: each dirty square loses
    /// its content and its blocked mark; every entity that was listed there is
    /// listed again on the square where it stands (if it has a position), and
    /// marks that square blocked if it blocks and is not precise. The dirty list
    /// is emptied afterwards. An index in which every entity is listed once
    /// stays so.
    pub fn index_dirty_tiles(&mut self, located: &Vec<IndexEntry>)
        requires
            forall|i: int|
                0 <= i < old(self).dirty@.len() ==> numberable(old(self).width, #[trigger] old(self).dirty@[i].0, old(self).dirty@[i].1),
            forall|e: Ent|
                #[trigger] dirty_entity(old(self).width, old(self).dirty@, old(self).tile_content@, e)
                    && find_entry(located@, e) is Some ==> numberable(
                    old(self).width,
                    find_entry(located@, e)->0.x,
                    find_entry(located@, e)->0.y,
                ),
        ensures
            final(self).dirty@ == Seq::<(i32, i32)>::empty(),
            final(self).width == old(self).width,
            final(self).height == old(self).height,
            final(self).rooms@ == old(self).rooms@,
            final(self).depth == old(self).depth,
            final(self).revealed_tiles@ == old(self).revealed_tiles@,
            final(self).visible_tiles@ == old(self).visible_tiles@,
            forall|t: int, e: Ent|
                #![trigger listed(final(self).tile_content@, t, e)]
                listed(final(self).tile_content@, t, e) <==> (
                (!dirty_square(old(self).width, old(self).dirty@, t) && listed(old(self).tile_content@, t, e))
                || (dirty_entity(old(self).width, old(self).dirty@, old(self).tile_content@, e)
                    && lands_at(old(self).width, located@, e, t))),
            forall|t: usize|
                #![trigger blocked_in(final(self).blocked@, t)]
                blocked_in(final(self).blocked@, t) <==> (
                (!dirty_square(old(self).width, old(self).dirty@, t as int) && blocked_in(old(self).blocked@, t))
                || exists|e: Ent| dirty_entity(old(self).width, old(self).dirty@, old(self).tile_content@, e)
                    && #[trigger] blocks_at(old(self).width, located@, e, t as int)),
            index_consistent(old(self).tile_content@) ==> index_consistent(final(self).tile_content@),
    {
        let ghost w = self.width;
        let ghost old_content = self.tile_content@;
        let ghost old_blocked = self.blocked@;
        let ghost ds = self.dirty@;
        let ghost h = index_consistent(old_content);
        let n = self.dirty.len();
        let mut dirty_entities: Vec<Ent> = Vec::new();
        let mut i: usize = 0;
        assert(ds.take(0) =~= Seq::<(i32, i32)>::empty());
        while i < n
            invariant
                0 <= i <= n,
                n == ds.len(),
                w == self.width,
                self.dirty@ == ds,
                self.rooms@ == old(self).rooms@,
                self.width == old(self).width,
                self.height == old(self).height,
                self.depth == old(self).depth,
                self.revealed_tiles@ == old(self).revealed_tiles@,
                self.visible_tiles@ == old(self).visible_tiles@,
                forall|k: int| 0 <= k < ds.len() ==> numberable(w, #[trigger] ds[k].0, ds[k].1),
                forall|t: int, e: Ent| #![trigger listed(self.tile_content@, t, e)]
                    listed(self.tile_content@, t, e) <==> (listed(old_content, t, e) && !dirty_square(w, ds.take(i as int), t)),
                forall|t: usize| #![trigger blocked_in(self.blocked@, t)]
                    blocked_in(self.blocked@, t) <==> (blocked_in(old_blocked, t) && !dirty_square(w, ds.take(i as int), t as int)),
                forall|e: Ent| #![trigger dirty_entities@.contains(e)]
                    dirty_entities@.contains(e) <==> dirty_entity(w, ds.take(i as int), old_content, e),
                dirty_entities@.no_duplicates(),
                forall|t: usize| #[trigger] self.tile_content@.contains_key(t)
                    ==> old_content.contains_key(t) && self.tile_content@[t] == old_content[t],
            decreases n - i,
        {
            let (x, y) = self.dirty[i];
            proof { assert(numberable(w, ds[i as int].0, ds[i as int].1)); }
            let idx = self.xy_idx(x, y);
            assert(idx as int == square_number(w, x, y));
            proof { lemma_dirty_step(w, ds, i as int, idx as int); }
            let ghost before = dirty_entities@;
            let ghost content_before = self.tile_content@;
            let ghost blocked_before = self.blocked@;
            self.blocked.remove(&idx);
            let removed = self.tile_content.remove(&idx);
            proof {
                assert forall|t: int, e: Ent| #![trigger listed(self.tile_content@, t, e)]
                    listed(self.tile_content@, t, e) <==> (listed(content_before, t, e) && t != idx as int) by {}
                assert forall|t: usize| #![trigger blocked_in(self.blocked@, t)]
                    blocked_in(self.blocked@, t) <==> (blocked_in(blocked_before, t) && t != idx) by {}
            }
            if let Some(in_tile) = removed {
                let mut j: usize = 0;
                while j < in_tile.len()
                    invariant
                        0 <= j <= in_tile@.len(),
                        content_before.contains_key(idx) && content_before[idx] == in_tile,
                        forall|e: Ent| #![trigger dirty_entities@.contains(e)]
                            dirty_entities@.contains(e) <==> (before.contains(e) || in_tile@.take(j as int).contains(e)),
                        dirty_entities@.no_duplicates(),
                    decreases in_tile.len() - j,
                {
                    let e = in_tile[j];
                    proof { lemma_take_step(in_tile@, j as int); }
                    let ghost mid = dirty_entities@;
                    if !contains_ent(&dirty_entities, e) {
                        dirty_entities.push(e);
                        proof {
                            lemma_push_contains(mid, e);
                            lemma_push_no_duplicates(mid, e);
                        }
                    }
                    j = j + 1;
                }
                assert(in_tile@.take(in_tile@.len() as int) =~= in_tile@);
            } else {
                assert(!content_before.contains_key(idx));
            }
            proof {
                assert forall|e: Ent| #![trigger dirty_entities@.contains(e)]
                    dirty_entities@.contains(e) <==> dirty_entity(w, ds.take(i + 1), old_content, e) by {
                    if dirty_entities@.contains(e) {
                        if before.contains(e) {
                            let t = choose|t: int| dirty_square(w, ds.take(i as int), t) && #[trigger] listed(old_content, t, e);
                            assert(dirty_square(w, ds.take(i + 1), t));
                        } else {
                            assert(listed(content_before, idx as int, e));
                            assert(listed(old_content, idx as int, e));
                            assert(dirty_square(w, ds.take(i + 1), idx as int));
                        }
                    }
                    if dirty_entity(w, ds.take(i + 1), old_content, e) {
                        let t = choose|t: int| dirty_square(w, ds.take(i + 1), t) && #[trigger] listed(old_content, t, e);
                        if !dirty_square(w, ds.take(i as int), t) {
                            assert(t == idx as int);
                            assert(listed(content_before, t, e));
                        } else {
                            assert(before.contains(e));
                        }
                    }
                }
            }
            i = i + 1;
        }
        assert(ds.take(ds.len() as int) =~= ds);
        let ghost base_content = self.tile_content@;
        let ghost base_blocked = self.blocked@;
        proof {
            if h {
                assert forall|t: usize| #[trigger] base_content.contains_key(t) implies base_content[t]@.no_duplicates() by {
                    assert(old_content.contains_key(t));
                }
                assert forall|t1: int, t2: int, e: Ent|
                    #[trigger] listed(base_content, t1, e) && #[trigger] listed(base_content, t2, e) implies t1 == t2 by {
                    assert(listed(old_content, t1, e) && listed(old_content, t2, e));
                }
                assert forall|j: int, t: int|
                    #![trigger listed(base_content, t, dirty_entities@[j])]
                    0 <= j < dirty_entities@.len() implies !listed(base_content, t, dirty_entities@[j]) by {
                    let e = dirty_entities@[j];
                    assert(dirty_entities@.contains(e));
                    let d = choose|d: int| dirty_square(w, ds, d) && #[trigger] listed(old_content, d, e);
                    if listed(base_content, t, e) {
                        assert(listed(old_content, t, e));
                        assert(t == d);
                    }
                }
            }
        }
        let mut k: usize = 0;
        assert(dirty_entities@.take(0) =~= Seq::<Ent>::empty());
        while k < dirty_entities.len()
            invariant
                0 <= k <= dirty_entities@.len(),
                w == self.width,
                self.dirty@ == ds,
                self.rooms@ == old(self).rooms@,
                self.width == old(self).width,
                self.height == old(self).height,
                self.depth == old(self).depth,
                self.revealed_tiles@ == old(self).revealed_tiles@,
                self.visible_tiles@ == old(self).visible_tiles@,
                forall|f: Ent| #[trigger] dirty_entity(w, ds, old_content, f) && find_entry(located@, f) is Some
                    ==> numberable(w, find_entry(located@, f)->0.x, find_entry(located@, f)->0.y),
                forall|f: Ent| #![trigger dirty_entities@.contains(f)] dirty_entities@.contains(f) ==> dirty_entity(w, ds, old_content, f),
                forall|t: int, e: Ent| #![trigger listed(self.tile_content@, t, e)]
                    listed(self.tile_content@, t, e) <==> (listed(base_content, t, e)
                        || (dirty_entities@.take(k as int).contains(e) && lands_at(w, located@, e, t))),
                forall|t: usize| #![trigger blocked_in(self.blocked@, t)]
                    blocked_in(self.blocked@, t) <==> (blocked_in(base_blocked, t)
                        || exists|e: Ent| dirty_entities@.take(k as int).contains(e) && #[trigger] blocks_at(w, located@, e, t as int)),
                dirty_entities@.no_duplicates(),
                h ==> index_consistent(self.tile_content@),
                h ==> forall|j: int, t: int|
                    #![trigger listed(self.tile_content@, t, dirty_entities@[j])]
                    k <= j < dirty_entities@.len() ==> !listed(self.tile_content@, t, dirty_entities@[j]),
            decreases dirty_entities.len() - k,
        {
            let e = dirty_entities[k];
            proof { lemma_take_step(dirty_entities@, k as int); }
            let found = find_located(located, e);
            let ghost content_before = self.tile_content@;
            let ghost blocked_before = self.blocked@;
            match found {
                Some(entry) => {
                    proof {
                        assert(dirty_entities@.contains(e));
                        assert(dirty_entity(w, ds, old_content, e));
                        assert(numberable(w, entry.x, entry.y));
                    }
                    let idx = self.xy_idx(entry.x, entry.y);
                    assert(idx as int == square_number(w, entry.x, entry.y));
                    let removed = self.tile_content.remove(&idx);
                    let mut v: Vec<Ent> = match removed {
                        Some(v) => v,
                        None => Vec::new(),
                    };
                    proof {
                        if content_before.contains_key(idx) {
                            assert(v@ == content_before[idx]@);
                        } else {
                            assert(v@ == Seq::<Ent>::empty());
                        }
                    }
                    let ghost v_before = v@;
                    v.push(e);
                    self.tile_content.insert(idx, v);
                    proof {
                        lemma_push_contains(v_before, e);
                        assert forall|t: int, f: Ent| #![trigger listed(self.tile_content@, t, f)]
                            listed(self.tile_content@, t, f) <==> (listed(content_before, t, f) || (t == idx as int && f == e)) by {
                            if t == idx as int {
                                assert(self.tile_content@[idx]@ == v_before.push(e));
                                if content_before.contains_key(idx) {
                                    assert(content_before[idx]@ == v_before);
                                }
                            }
                        }
                        assert forall|t: int, f: Ent| #![trigger listed(self.tile_content@, t, f)]
                            listed(self.tile_content@, t, f) <==> (listed(base_content, t, f)
                                || (dirty_entities@.take(k + 1).contains(f) && lands_at(w, located@, f, t))) by {
                            if t == idx as int && f == e {
                                assert(lands_at(w, located@, f, t));
                            }
                        }
                    }
                    proof {
                        if h {
                            let nc = self.tile_content@;
                            assert(!listed(content_before, idx as int, e));
                            if content_before.contains_key(idx) {
                                assert(content_before[idx]@ == v_before);
                                assert(v_before.no_duplicates());
                            }
                            assert(!v_before.contains(e));
                            lemma_push_no_duplicates(v_before, e);
                            assert(nc[idx]@ == v_before.push(e));
                            assert forall|t: usize| #[trigger] nc.contains_key(t) implies nc[t]@.no_duplicates() by {
                                if t != idx {
                                    assert(content_before.contains_key(t) && nc[t] == content_before[t]);
                                }
                            }
                            assert forall|t1: int, t2: int, f: Ent|
                                #[trigger] listed(nc, t1, f) && #[trigger] listed(nc, t2, f) implies t1 == t2 by {
                                if f == e {
                                    if t1 != idx as int {
                                        assert(listed(content_before, t1, f));
                                    }
                                    if t2 != idx as int {
                                        assert(listed(content_before, t2, f));
                                    }
                                } else {
                                    assert(listed(content_before, t1, f) && listed(content_before, t2, f));
                                }
                            }
                            assert forall|j: int, t: int|
                                #![trigger listed(nc, t, dirty_entities@[j])]
                                k + 1 <= j < dirty_entities@.len() implies !listed(nc, t, dirty_entities@[j]) by {
                                assert(dirty_entities@[j] != dirty_entities@[k as int]);
                                assert(!listed(content_before, t, dirty_entities@[j]));
                            }
                        }
                    }
                    if entry.blocks && !entry.precise {
                        self.set_blocked(idx, true);
                    }
                    proof {
                        if entry.blocks && !entry.precise {
                            assert(self.blocked@ == blocked_before.insert(idx, true));
                        } else {
                            assert(self.blocked@ == blocked_before);
                        }
                        assert forall|t: usize| #![trigger blocked_in(self.blocked@, t)]
                            blocked_in(self.blocked@, t) <==> (blocked_in(base_blocked, t)
                                || exists|g: Ent| dirty_entities@.take(k + 1).contains(g) && #[trigger] blocks_at(w, located@, g, t as int)) by {
                            if blocked_in(blocked_before, t) && !blocked_in(base_blocked, t) {
                                let g = choose|g: Ent| dirty_entities@.take(k as int).contains(g) && #[trigger] blocks_at(w, located@, g, t as int);
                                assert(dirty_entities@.take(k + 1).contains(g));
                            }
                            if blocked_in(self.blocked@, t) && !blocked_in(blocked_before, t) {
                                assert(t == idx);
                                assert(dirty_entities@.take(k + 1).contains(e) && blocks_at(w, located@, e, t as int));
                            }
                            if exists|g: Ent| dirty_entities@.take(k + 1).contains(g) && #[trigger] blocks_at(w, located@, g, t as int) {
                                let g = choose|g: Ent| dirty_entities@.take(k + 1).contains(g) && #[trigger] blocks_at(w, located@, g, t as int);
                                if g != e {
                                    assert(dirty_entities@.take(k as int).contains(g));
                                } else {
                                    assert(find_entry(located@, e) == Some(entry));
                                    assert(square_number(w, entry.x, entry.y) == t as int);
                                    assert(t == idx);
                                }
                            }
                        }
                    }
                }
                None => {
                    proof {
                        assert forall|t: int, f: Ent| #![trigger listed(self.tile_content@, t, f)]
                            listed(self.tile_content@, t, f) <==> (listed(base_content, t, f)
                                || (dirty_entities@.take(k + 1).contains(f) && lands_at(w, located@, f, t))) by {
                        }
                        assert forall|t: usize| #![trigger blocked_in(self.blocked@, t)]
                            blocked_in(self.blocked@, t) <==> (blocked_in(base_blocked, t)
                                || exists|g: Ent| dirty_entities@.take(k + 1).contains(g) && #[trigger] blocks_at(w, located@, g, t as int)) by {
                            if exists|g: Ent| dirty_entities@.take(k + 1).contains(g) && #[trigger] blocks_at(w, located@, g, t as int) {
                                let g = choose|g: Ent| dirty_entities@.take(k + 1).contains(g) && #[trigger] blocks_at(w, located@, g, t as int);
                                if g != e {
                                    assert(dirty_entities@.take(k as int).contains(g));
                                }
                            }
                            if blocked_in(blocked_before, t) && !blocked_in(base_blocked, t) {
                                let g = choose|g: Ent| dirty_entities@.take(k as int).contains(g) && #[trigger] blocks_at(w, located@, g, t as int);
                                assert(dirty_entities@.take(k + 1).contains(g));
                            }
                        }
                    }
                }
            }
            k = k + 1;
        }
        assert(dirty_entities@.take(dirty_entities@.len() as int) =~= dirty_entities@);
        self.dirty.clear();
    }
}

proof fn lemma_take_step<A>(s: Seq<A>, j: int)
    requires
        0 <= j < s.len(),
    ensures
        forall|f: A| #[trigger] s.take(j + 1).contains(f) <==> (s.take(j).contains(f) || f == s[j]),
{
    assert forall|f: A| #[trigger] s.take(j + 1).contains(f) <==> (s.take(j).contains(f) || f == s[j]) by {
        if s.take(j + 1).contains(f) {
            let k = choose|k: int| 0 <= k < j + 1 && #[trigger] s.take(j + 1)[k] == f;
            if k < j {
                assert(s.take(j)[k] == f);
            }
        }
        if s.take(j).contains(f) {
            let k = choose|k: int| 0 <= k < j && #[trigger] s.take(j)[k] == f;
            assert(s.take(j + 1)[k] == f);
        }
        if f == s[j] {
            assert(s.take(j + 1)[j] == f);
        }
    }
}

proof fn lemma_push_no_duplicates<A>(s: Seq<A>, e: A)
    requires
        s.no_duplicates(),
        !s.contains(e),
    ensures
        s.push(e).no_duplicates(),
{
    let p = s.push(e);
    assert forall|i: int, j: int| 0 <= i < p.len() && 0 <= j < p.len() && i != j implies p[i] != p[j] by {
        if i < s.len() && j < s.len() {
            assert(p[i] == s[i] && p[j] == s[j]);
        } else if i < s.len() {
            assert(p[i] == s[i]);
        } else {
            assert(p[j] == s[j]);
        }
    }
}

proof fn lemma_push_contains<A>(s: Seq<A>, e: A)
    ensures
        forall|f: A| #[trigger] s.push(e).contains(f) <==> (s.contains(f) || f == e),
{
    assert forall|f: A| #[trigger] s.push(e).contains(f) <==> (s.contains(f) || f == e) by {
        if s.push(e).contains(f) {
            let k = choose|k: int| 0 <= k < s.len() + 1 && #[trigger] s.push(e)[k] == f;
            if k < s.len() {
                assert(s[k] == f);
            }
        }
        if s.contains(f) {
            let k = choose|k: int| 0 <= k < s.len() && #[trigger] s[k] == f;
            assert(s.push(e)[k] == f);
        }
        if f == e {
            assert(s.push(e)[s.len() as int] == f);
        }
    }
}

proof fn lemma_dirty_step(w: i32, ds: Seq<(i32, i32)>, i: int, idx: int)
    requires
        0 <= i < ds.len(),
        idx == square_number(w, ds[i].0, ds[i].1),
    ensures
        forall|t: int| #[trigger] dirty_square(w, ds.take(i + 1), t) <==> (dirty_square(w, ds.take(i), t) || t == idx),
{
    assert forall|t: int| #[trigger] dirty_square(w, ds.take(i + 1), t) <==> (dirty_square(w, ds.take(i), t) || t == idx) by {
        if dirty_square(w, ds.take(i + 1), t) {
            let k = choose|k: int| 0 <= k < ds.take(i + 1).len() && #[trigger] square_number(w, ds.take(i + 1)[k].0, ds.take(i + 1)[k].1) == t;
            if k < i {
                assert(ds.take(i)[k] == ds.take(i + 1)[k]);
            }
        }
        if dirty_square(w, ds.take(i), t) {
            let k = choose|k: int| 0 <= k < ds.take(i).len() && #[trigger] square_number(w, ds.take(i)[k].0, ds.take(i)[k].1) == t;
            assert(ds.take(i + 1)[k] == ds.take(i)[k]);
        }
        if t == idx {
            assert(ds.take(i + 1)[i] == ds[i]);
        }
    }
}

proof fn lemma_find_entry_in(located: Seq<IndexEntry>, e: Ent)
    requires
        find_entry(located, e) is Some,
    ensures
        exists|i: int| 0 <= i < located.len() && located[i] == find_entry(located, e)->0,
        find_entry(located, e)->0.entity == e,
    decreases located.len(),
{
    if located[0].entity != e {
        lemma_find_entry_in(located.drop_first(), e);
        let i = choose|i: int| 0 <= i < located.drop_first().len() && #[trigger] located.drop_first()[i] == find_entry(located.drop_first(), e)->0;
        assert(located[i + 1] == located.drop_first()[i]);
    } else {
        assert(located[0] == find_entry(located, e)->0);
    }
}

proof fn lemma_index_monotone(w: int, x: int, y: int, x2: int, y2: int)
    requires
        0 <= w,
        0 <= x <= x2,
        0 <= y <= y2,
    ensures
        square_index(w, x, y) <= square_index(w, x2, y2),
{
    assert(y * w <= y2 * w) by (nonlinear_arith)
        requires 0 <= w, y <= y2;
}

proof fn lemma_square_in_map(w: int, h: int, x: int, y: int)
    requires
        0 < w,
        0 <= x < w,
        0 <= y < h,
    ensures
        0 <= square_index(w, x, y) < w * h,
        square_index(w, x, y + 1) == square_index(w, x, y) + w,
{
    assert(0 <= y * w + x < w * h) by (nonlinear_arith)
        requires 0 < w, 0 <= x < w, 0 <= y < h;
    assert((y + 1) * w == y * w + w) by (nonlinear_arith);
}

proof fn lemma_split_index(w: int, h: int, idx: int)
    requires
        0 < w,
        0 < h,
        0 <= idx < w * h,
    ensures
        0 <= idx % w < w,
        0 <= idx / w < h,
        idx == square_index(w, idx % w, idx / w),
        square_index(w, idx % w, idx / w + 1) == idx + w,
{
    vstd::arithmetic::div_mod::lemma_fundamental_div_mod(idx, w);
    assert(w * (idx / w) == (idx / w) * w) by (nonlinear_arith);
    assert(0 <= idx / w < h) by (nonlinear_arith)
        requires 0 < w, idx == (idx / w) * w + idx % w, 0 <= idx % w < w, 0 <= idx < w * h;
    assert((idx / w + 1) * w == (idx / w) * w + w) by (nonlinear_arith);
}

/// A square number read back as a point and numbered again gives the same square.
pub proof fn lemma_index_point_roundtrip(width: int, idx: int)
    requires
        0 < width,
        0 <= idx,
    ensures
        square_index(width, idx % width, idx / width) == idx,
{
    vstd::arithmetic::div_mod::lemma_fundamental_div_mod(idx, width);
    assert(width * (idx / width) == (idx / width) * width) by (nonlinear_arith);
}

/// A point inside a row, numbered and read back, gives the same point.
pub proof fn lemma_point_index_roundtrip(width: int, x: int, y: int)
    requires
        0 < width,
        0 <= x < width,
        0 <= y,
    ensures
        square_index(width, x, y) % width == x,
        square_index(width, x, y) / width == y,
{
    vstd::arithmetic::div_mod::lemma_fundamental_div_mod_converse(y * width + x, width, y, x);
}

/// Blocking a square and reading it back gives what was written; the other
/// squares keep their state.
pub proof fn lemma_blocked_read_after_write(blocked: Map<usize, bool>, idx: usize, b: bool, other: usize)
    ensures
        blocked_in(blocked.insert(idx, b), idx) == b,
        other != idx ==> blocked_in(blocked.insert(idx, b), other) == blocked_in(blocked, other),
{
}

} // verus!
