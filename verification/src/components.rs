use vstd::prelude::*;
use crate::algo::{IdCounter, _unique_id, next_id};

verus! {

/// A handle on a world entity: its index and its generation.
#[derive(Clone, Copy, PartialEq, Eq, Structural, Debug)]
pub struct Ent {
    pub id: u32,
    pub gen: i32,
}

/// Where an entity stands on the map. Every placement is recorded in a list of
/// "dirty" squares, so that the map index can be refreshed.
#[derive(Clone, Debug)]
pub struct Position {
    x: i32,
    y: i32,
}

impl View for Position {
    type V = (i32, i32);

    closed spec fn view(&self) -> (i32, i32) {
        (self.x, self.y)
    }
}

impl Position {
    /// Moves to `(x, y)`; the square left and the square reached are both
    /// appended, in that order, to `dirty`.
    pub fn moving(&mut self, x: i32, y: i32, dirty: &mut Vec<(i32, i32)>)
        ensures
            final(self)@ == (x, y),
            final(dirty)@ == old(dirty)@.push(old(self)@).push((x, y)),
    {
        dirty.push((self.x, self.y));
        dirty.push((x, y));
        self.x = x;
        self.y = y;
    }

    pub fn x(&self) -> (r: i32)
        ensures
            r == self@.0,
    {
        self.x
    }

    pub fn y(&self) -> (r: i32)
        ensures
            r == self@.1,
    {
        self.y
    }

    /// A position at `(x, y)`; the square is appended to `dirty`.
    pub fn new(x: i32, y: i32, dirty: &mut Vec<(i32, i32)>) -> (p: Self)
        ensures
            p@ == (x, y),
            final(dirty)@ == old(dirty)@.push((x, y)),
    {
        dirty.push((x, y));
        Position { x, y }
    }
}

#[derive(Clone, Copy, PartialEq, Eq, Structural, Debug)]
pub struct CombatStats {
    pub max_hp: i32,
    pub hp: i32,
    pub defense: i32,
    pub power: i32,
}

/// How much energy a creature needs and spends to give birth.
#[derive(Clone, Copy, Debug)]
pub struct Reproduction {
    /// energy of the new born
    pub birth_energy: u32,
    /// energy spent by the birth on top of the new born's
    pub offset_cost: u32,
    /// energy the parent must still have after the birth
    pub offset_threshold: u32,
}

impl Reproduction {
    /// The least energy a creature must hold to reproduce.
    pub fn threshold(&self) -> (r: u32)
        requires
            self.birth_energy + self.offset_cost + self.offset_threshold <= u32::MAX,
        ensures
            r == self.birth_energy + self.offset_cost + self.offset_threshold,
    {
        self.birth_energy + self.offset_cost + self.offset_threshold
    }

    /// The energy a birth costs.
    pub fn cost(&self) -> (r: u32)
        requires
            self.birth_energy + self.offset_cost <= u32::MAX,
        ensures
            r == self.birth_energy + self.offset_cost,
    {
        self.birth_energy + self.offset_cost
    }
}

/// Reproducing costs what the threshold asks for, less what the parent keeps.
pub proof fn lemma_threshold_is_cost_plus_reserve(r: Reproduction)
    ensures
        r.birth_energy + r.offset_cost + r.offset_threshold == (r.birth_energy + r.offset_cost)
            + r.offset_threshold,
        r.birth_energy + r.offset_cost <= r.birth_energy + r.offset_cost + r.offset_threshold,
{
}

/// A permanent identifier of a creature.
#[derive(Clone, Debug)]
pub struct UniqueId {
    _id: usize,
}

impl View for UniqueId {
    type V = usize;

    closed spec fn view(&self) -> usize {
        self._id
    }
}

impl UniqueId {
    pub fn get(&self) -> (r: usize)
        ensures
            r == self@,
    {
        self._id
    }

    /// A new identifier, drawn from `counter`.
    pub fn new(counter: &mut IdCounter) -> (u: Self)
        ensures
            u@ == old(counter)@,
            final(counter)@ == next_id(old(counter)@),
    {
        UniqueId { _id: _unique_id(counter) }
    }
}

/// A day of the world's calendar.
#[derive(Clone, Copy, PartialEq, Eq, Structural, Debug)]
pub struct Date {
    pub day: u32,
    pub year: u32,
}

impl Date {
    pub fn get_day(&self) -> (r: u32)
        ensures
            r == self.day,
    {
        self.day
    }

    pub fn get_year(&self) -> (r: u32)
        ensures
            r == self.year,
    {
        self.year
    }
}

/// Movement points: each turn adds points, up to a ceiling.
#[derive(Clone, Copy, Debug)]
pub struct Speed {
    pub move_point: i32,
    pub point_per_turn: i32,
    pub base_point_per_turn: i32,
    pub max_point: i32,
}

impl Speed {
    /// Adds points, stopping at `max_point`.
    pub fn add_move_point(&mut self, new_point: i32)
        requires
            i32::MIN <= old(self).move_point + new_point <= i32::MAX,
        ensures
            final(self).move_point == if old(self).move_point + new_point > old(self).max_point {
                old(self).max_point as int
            } else {
                old(self).move_point + new_point
            },
            final(self).point_per_turn == old(self).point_per_turn,
            final(self).base_point_per_turn == old(self).base_point_per_turn,
            final(self).max_point == old(self).max_point,
    {
        if (self.move_point + new_point) > self.max_point {
            self.move_point = self.max_point;
        } else {
            self.move_point += new_point;
        }
    }
}

/// Adding movement points never takes a creature above its ceiling, once it
/// is at or below it.
pub proof fn lemma_move_points_capped(move_point: int, new_point: int, max_point: int)
    requires
        move_point <= max_point,
    ensures
        (if move_point + new_point > max_point {
            max_point
        } else {
            move_point + new_point
        }) <= max_point,
{
}

#[derive(Clone, Debug)]
pub struct Interaction {
    pub name: String,
}

impl Interaction {
    pub fn new(name: String) -> (r: Interaction)
        ensures
            r.name@ == name@,
    {
        Interaction { name: name }
    }
}

/// The species a creature belongs to.
#[derive(Clone, Debug)]
pub struct Specie {
    pub name: String,
    pub id: i32,
}

#[derive(Clone, Copy, PartialEq, Eq, Structural, Debug)]
pub enum Hunger {
    Full,
    Hungry,
}

/// How far a path search may look.
#[derive(Clone, Copy, PartialEq, Eq, Structural, Debug)]
pub enum SearchScope {
    Small,
    Big,
}

/// A request to move by a small offset.
#[derive(Clone, Copy, PartialEq, Eq, Structural, Debug)]
pub struct WantToMove {
    pub delta_x: i32,
    pub delta_y: i32,
}

#[derive(Clone, Copy, PartialEq, Eq, Structural, Debug)]
pub enum LocalClientRunstate {
    BaseState,
    Inventory,
    Interaction,
    Build,
}

/// What the local (on-server) player's interface is showing.
#[derive(Clone, Copy, Debug)]
pub struct LocalClientInfo {
    pub local_runstate: LocalClientRunstate,
}

impl LocalClientInfo {
    pub fn new() -> (r: Self)
        ensures
            r.local_runstate == LocalClientRunstate::BaseState,
    {
        LocalClientInfo { local_runstate: LocalClientRunstate::BaseState }
    }
}

/// An order of a player.
#[derive(Clone, Debug)]
pub enum PlayerInput {
    NONE,
    UP,
    DOWN,
    LEFT,
    RIGHT,
    INVENTORY,
    PICKUP(Ent),
    INTERACT(i32, i32, String, Ent),
    BUILD(i32, i32, String),
}

} // verus!
