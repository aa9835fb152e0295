use vstd::prelude::*;
use crate::components::CombatStats;

verus! {

/// How the sex of spawned creatures of a kind is chosen.
#[derive(Clone, Copy, PartialEq, Eq, Structural, Debug)]
pub enum SexeChoice {
    MaleOnly,
    FemaleOnly,
    /// first entity is a male, but the rest is random
    MaleStart,
    /// first entity is a female, but the rest is random
    FemaleStart,
    Random,
}

/// How a template is drawn: a glyph, colours written in hex, and a drawing order.
#[derive(Clone, Debug)]
pub struct Renderable {
    pub glyph: String,
    pub fg: String,
    pub bg: String,
    pub order: i32,
}

/// An item template. `consumable` tells whether it carries a consumable
/// component (whose effects the game keeps).
#[derive(Clone, Debug)]
pub struct Item {
    pub name: String,
    pub renderable: Option<Renderable>,
    pub consumable: bool,
    pub weapon: Option<Weapon>,
    pub shield: Option<Shield>,
}

/// A creature template.
#[derive(Clone, Debug)]
pub struct Mob {
    pub name: String,
    pub renderable: Option<Renderable>,
    pub blocks_tile: bool,
    pub stats: CombatStats,
    pub vision_range: i32,
}

#[derive(Clone, Debug)]
pub struct Weapon {
    pub range: String,
    pub power_bonus: i32,
}

#[derive(Clone, Copy, Debug)]
pub struct Shield {
    pub defense_bonus: i32,
}

#[derive(Clone, Copy, Debug)]
pub struct RawViewshed {
    pub range: i32,
}

} // verus!
