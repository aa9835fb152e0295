use vstd::prelude::*;
use crate::birth::Mutations;
use crate::components::CombatStats;
use crate::raws::item_structs::{Item, Mob, RawViewshed, Shield, Weapon};
use crate::raws::prop_structs::Prop;
use crate::raws::rawmaster::Sexe;

verus! {

#[derive(Clone, Copy, PartialEq, Eq, Structural, Debug)]
pub enum EquipmentSlot {
    Melee,
    Shield,
}

/// The components a newborn may take from its parent rather than from its template.
#[derive(Clone, Copy, PartialEq, Eq, Structural, Debug)]
pub enum Heritable {
    Renderable,
    EnergyReserve,
    Reproduction,
    TemperatureSensitive,
    HumiditySensitive,
    Specie,
    Carnivore,
    Speed,
    Herbivore,
    CombatStats,
}

/// One component given to a spawned entity. Where the value is a plain one
/// that the spawner sets, the part carries it; `FromTemplate` and
/// `FromMutation` say where a component's value is copied from.
#[derive(Clone, Copy, PartialEq, Eq, Structural, Debug)]
pub enum Part {
    /// the save marker
    Marked,
    UniqueId(usize),
    Position(i32, i32),
    Name,
    Item,
    Monster,
    BlocksTile,
    Interactable,
    InteractableObject,
    /// a leaf, with its nutriments
    Leaf(i32),
    Tree,
    /// a field of view, with its range
    Viewshed(i32),
    Aging,
    Animal,
    Male,
    Female,
    BuildingChoice,
    OnlinePlayer,
    FacingDirection,
    Equippable(EquipmentSlot),
    MeleePowerBonus(i32),
    DefenseBonus(i32),
    Consumable,
    Stats(CombatStats),
    FromTemplate(Heritable),
    FromMutation(Heritable),
}

/// The nutriments of a leaf a template asks for.
pub const LEAF_NUTRIMENTS: i32 = 100;

/// The part, if present.
#[verifier::opaque]
pub open spec fn part_if(present: bool, p: Part) -> Seq<Part> {
    if present {
        seq![p]
    } else {
        Seq::empty()
    }
}

/// A template flag that is given and set.
pub open spec fn is_set(flag: Option<bool>) -> bool {
    flag == Some(true)
}

pub open spec fn sexe_parts(s: Option<Sexe>) -> Seq<Part> {
    match s {
        Some(Sexe::Male) => seq![Part::Male],
        Some(Sexe::Female) => seq![Part::Female],
        None => Seq::empty(),
    }
}

pub open spec fn viewshed_parts(v: Option<RawViewshed>) -> Seq<Part> {
    match v {
        Some(v) => seq![Part::Viewshed(v.range)],
        None => Seq::empty(),
    }
}

pub open spec fn weapon_parts(w: Option<Weapon>) -> Seq<Part> {
    match w {
        Some(w) => seq![Part::Equippable(EquipmentSlot::Melee), Part::MeleePowerBonus(w.power_bonus)],
        None => Seq::empty(),
    }
}

pub open spec fn shield_parts(s: Option<Shield>) -> Seq<Part> {
    match s {
        Some(s) => seq![Part::Equippable(EquipmentSlot::Shield), Part::DefenseBonus(s.defense_bonus)],
        None => Seq::empty(),
    }
}

/// A heritable component: the parent's, when passed on, else the template's, if it has one.
pub open spec fn inherited(h: Heritable, mutated: bool, in_template: bool) -> Seq<Part> {
    if mutated {
        seq![Part::FromMutation(h)]
    } else {
        part_if(in_template, Part::FromTemplate(h))
    }
}

/// The components of an item spawned from template `t` at `(x, y)`, in order.
pub open spec fn item_plan(t: Item, x: i32, y: i32) -> Seq<Part> {
    seq![Part::Position(x, y)]
        + part_if(t.renderable is Some, Part::FromTemplate(Heritable::Renderable))
        + seq![Part::Name, Part::Item]
        + weapon_parts(t.weapon)
        + shield_parts(t.shield)
        + part_if(t.consumable, Part::Consumable)
}

/// The components of a monster spawned from template `t` at `(x, y)`, in order.
pub open spec fn mob_plan(t: Mob, x: i32, y: i32) -> Seq<Part> {
    seq![Part::Position(x, y)]
        + part_if(t.renderable is Some, Part::FromTemplate(Heritable::Renderable))
        + seq![Part::Name, Part::Monster]
        + part_if(t.blocks_tile, Part::BlocksTile)
        + seq![Part::Stats(t.stats), Part::Viewshed(t.vision_range)]
}

/// The first components of a prop: identifier, place, looks, name, and what
/// it is made of.
pub open spec fn prop_head(t: Prop, id: usize, x: i32, y: i32) -> Seq<Part> {
    seq![Part::UniqueId(id), Part::Position(x, y)]
        + part_if(t.renderable is Some, Part::FromTemplate(Heritable::Renderable))
        + seq![Part::Name]
        + part_if(is_set(t.blocks_tile), Part::BlocksTile)
        + part_if(is_set(t.interactable), Part::Interactable)
        + part_if(t.interactable_object, Part::InteractableObject)
        + part_if(is_set(t.leaf), Part::Leaf(LEAF_NUTRIMENTS))
        + part_if(is_set(t.tree), Part::Tree)
}

/// The living components of a prop: energy, sight, diet, growth and kind.
pub open spec fn prop_life(t: Prop) -> Seq<Part> {
    part_if(t.energy_reserve, Part::FromTemplate(Heritable::EnergyReserve))
        + viewshed_parts(t.viewshed)
        + part_if(t.herbivore, Part::FromTemplate(Heritable::Herbivore))
        + part_if(t.reproduction, Part::FromTemplate(Heritable::Reproduction))
        + part_if(t.aging, Part::Aging)
        + part_if(t.temp_sensi, Part::FromTemplate(Heritable::TemperatureSensitive))
        + part_if(t.hum_sensi, Part::FromTemplate(Heritable::HumiditySensitive))
        + part_if(t.specie, Part::FromTemplate(Heritable::Specie))
        + part_if(t.carnivore, Part::FromTemplate(Heritable::Carnivore))
        + part_if(t.speed, Part::FromTemplate(Heritable::Speed))
        + part_if(t.animal, Part::Animal)
}

/// The components a player's body may carry.
pub open spec fn player_parts(t: Prop) -> Seq<Part> {
    part_if(t.building_choice, Part::BuildingChoice)
        + part_if(t.online_player, Part::OnlinePlayer)
        + part_if(t.facing_direction, Part::FacingDirection)
}

/// The components of a prop spawned from template `t` at `(x, y)`, with
/// identifier `id` and sex `s`, in order.
pub open spec fn prop_plan(t: Prop, id: usize, x: i32, y: i32, s: Option<Sexe>) -> Seq<Part> {
    prop_head(t, id, x, y)
        + prop_life(t)
        + sexe_parts(s)
        + part_if(t.combat, Part::FromTemplate(Heritable::CombatStats))
        + player_parts(t)
}

/// The first components of a newborn: identifier, place, name, and the traits
/// it may take from its parent.
pub open spec fn born_head(t: Prop, m: Mutations, id: usize, x: i32, y: i32) -> Seq<Part> {
    seq![Part::UniqueId(id), Part::Position(x, y), Part::Name]
        + inherited(Heritable::Renderable, m.renderable, t.renderable is Some)
        + inherited(Heritable::EnergyReserve, m.energy_reserve, t.energy_reserve)
        + inherited(Heritable::Reproduction, m.solo_reproduction, t.reproduction)
        + inherited(Heritable::TemperatureSensitive, m.temp_sensi, t.temp_sensi)
}

/// The traits of a newborn that come from its template, save its species (which
/// may come from its parent).
pub open spec fn born_traits(t: Prop, m: Mutations) -> Seq<Part> {
    part_if(t.hum_sensi, Part::FromTemplate(Heritable::HumiditySensitive))
        + inherited(Heritable::Specie, m.specie, t.specie)
        + part_if(t.carnivore, Part::FromTemplate(Heritable::Carnivore))
        + part_if(t.speed, Part::FromTemplate(Heritable::Speed))
        + part_if(t.herbivore, Part::FromTemplate(Heritable::Herbivore))
        + part_if(t.combat, Part::FromTemplate(Heritable::CombatStats))
}

/// The rest of a newborn's template components, before its sex.
pub open spec fn born_body(t: Prop) -> Seq<Part> {
    part_if(is_set(t.blocks_tile), Part::BlocksTile)
        + part_if(is_set(t.interactable), Part::Interactable)
        + part_if(t.interactable_object, Part::InteractableObject)
        + part_if(is_set(t.leaf), Part::Leaf(LEAF_NUTRIMENTS))
        + part_if(is_set(t.tree), Part::Tree)
        + viewshed_parts(t.viewshed)
        + part_if(t.aging, Part::Aging)
        + part_if(t.animal, Part::Animal)
}

/// The components of a creature of template `t` born at `(x, y)`, with
/// identifier `id` and sex `s`, taking the traits `m` from its parent; in order.
pub open spec fn born_plan(t: Prop, m: Mutations, id: usize, x: i32, y: i32, s: Option<Sexe>) -> Seq<Part> {
    born_head(t, m, id, x, y)
        + born_traits(t, m)
        + born_body(t)
        + player_parts(t)
        + sexe_parts(s)
}

/// The components of a prop spawned during a turn (marked for saving, with no
/// identifier), in order.
pub open spec fn ingame_prop_plan(t: Prop, x: i32, y: i32) -> Seq<Part> {
    seq![Part::Marked, Part::Position(x, y)]
        + part_if(t.renderable is Some, Part::FromTemplate(Heritable::Renderable))
        + seq![Part::Name]
        + part_if(is_set(t.interactable), Part::Interactable)
        + part_if(t.interactable_object, Part::InteractableObject)
        + part_if(is_set(t.leaf), Part::Leaf(LEAF_NUTRIMENTS))
        + part_if(is_set(t.tree), Part::Tree)
        + part_if(t.energy_reserve, Part::FromTemplate(Heritable::EnergyReserve))
        + part_if(is_set(t.blocks_tile), Part::BlocksTile)
        + viewshed_parts(t.viewshed)
        + part_if(t.herbivore, Part::FromTemplate(Heritable::Herbivore))
        + part_if(t.reproduction, Part::FromTemplate(Heritable::Reproduction))
}

/// The components of an item spawned during a turn, in order.
pub open spec fn ingame_item_plan(t: Item, x: i32, y: i32) -> Seq<Part> {
    seq![Part::Position(x, y)]
        + part_if(t.renderable is Some, Part::FromTemplate(Heritable::Renderable))
        + seq![Part::Name, Part::Item]
}

proof fn lemma_concat_contains(a: Seq<Part>, b: Seq<Part>, x: Part)
    ensures
        (a + b).contains(x) <==> a.contains(x) || b.contains(x),
{
    if a.contains(x) {
        let i = choose|i: int| 0 <= i < a.len() && a[i] == x;
        assert((a + b)[i] == x);
    }
    if b.contains(x) {
        let j = choose|j: int| 0 <= j < b.len() && b[j] == x;
        assert((a + b)[a.len() + j] == x);
    }
    if (a + b).contains(x) {
        let k = choose|k: int| 0 <= k < (a + b).len() && (a + b)[k] == x;
        if k < a.len() {
            assert(a[k] == x);
        } else {
            assert(b[k - a.len()] == x);
        }
    }
}

proof fn lemma_part_if_contains(present: bool, p: Part, x: Part)
    ensures
        part_if(present, p).contains(x) <==> present && p == x,
{
    reveal(part_if);
    if present {
        assert(seq![p][0] == p);
    }
}

proof fn lemma_extras_hold(s: Option<Sexe>, v: Option<RawViewshed>, q: Part)
    ensures
        sexe_parts(s).contains(q) ==> q == Part::Male || q == Part::Female,
        viewshed_parts(v).contains(q) ==> q is Viewshed,
{
    match s {
        Some(Sexe::Male) => assert(seq![Part::Male][0] == Part::Male),
        Some(Sexe::Female) => assert(seq![Part::Female][0] == Part::Female),
        None => {},
    }
    match v {
        Some(r) => assert(seq![Part::Viewshed(r.range)][0] == Part::Viewshed(r.range)),
        None => {},
    }
}

proof fn lemma_literal_contains(a: Part, b: Part, c: Part, x: Part)
    ensures
        seq![a].contains(x) <==> a == x,
        seq![a, b].contains(x) <==> a == x || b == x,
        seq![a, b, c].contains(x) <==> a == x || b == x || c == x,
{
    assert(seq![a][0] == a);
    assert(seq![a, b][0] == a && seq![a, b][1] == b);
    assert(seq![a, b, c][0] == a && seq![a, b, c][1] == b && seq![a, b, c][2] == c);
}

/// What the first components of a prop hold.
proof fn lemma_prop_head_has(t: Prop, id: usize, x: i32, y: i32, q: Part)
    ensures
        prop_head(t, id, x, y).contains(q) <==> (q == Part::UniqueId(id) || q == Part::Position(x, y)) || (t.renderable is Some && q == Part::FromTemplate(Heritable::Renderable)) || (q == Part::Name) || (is_set(t.blocks_tile) && q == Part::BlocksTile) || (is_set(t.interactable) && q == Part::Interactable) || (t.interactable_object && q == Part::InteractableObject) || (is_set(t.leaf) && q == Part::Leaf(LEAF_NUTRIMENTS)) || (is_set(t.tree) && q == Part::Tree),
{
    lemma_literal_contains(Part::UniqueId(id), Part::Position(x, y), Part::Position(x, y), q);
    lemma_part_if_contains(t.renderable is Some, Part::FromTemplate(Heritable::Renderable), q);
    lemma_literal_contains(Part::Name, Part::Name, Part::Name, q);
    lemma_part_if_contains(is_set(t.blocks_tile), Part::BlocksTile, q);
    lemma_part_if_contains(is_set(t.interactable), Part::Interactable, q);
    lemma_part_if_contains(t.interactable_object, Part::InteractableObject, q);
    lemma_part_if_contains(is_set(t.leaf), Part::Leaf(LEAF_NUTRIMENTS), q);
    lemma_part_if_contains(is_set(t.tree), Part::Tree, q);
    lemma_concat_contains(seq![Part::UniqueId(id), Part::Position(x, y)], part_if(t.renderable is Some, Part::FromTemplate(Heritable::Renderable)), q);
    lemma_concat_contains(seq![Part::UniqueId(id), Part::Position(x, y)] + part_if(t.renderable is Some, Part::FromTemplate(Heritable::Renderable)), seq![Part::Name], q);
    lemma_concat_contains(seq![Part::UniqueId(id), Part::Position(x, y)] + part_if(t.renderable is Some, Part::FromTemplate(Heritable::Renderable)) + seq![Part::Name], part_if(is_set(t.blocks_tile), Part::BlocksTile), q);
    lemma_concat_contains(seq![Part::UniqueId(id), Part::Position(x, y)] + part_if(t.renderable is Some, Part::FromTemplate(Heritable::Renderable)) + seq![Part::Name] + part_if(is_set(t.blocks_tile), Part::BlocksTile), part_if(is_set(t.interactable), Part::Interactable), q);
    lemma_concat_contains(seq![Part::UniqueId(id), Part::Position(x, y)] + part_if(t.renderable is Some, Part::FromTemplate(Heritable::Renderable)) + seq![Part::Name] + part_if(is_set(t.blocks_tile), Part::BlocksTile) + part_if(is_set(t.interactable), Part::Interactable), part_if(t.interactable_object, Part::InteractableObject), q);
    lemma_concat_contains(seq![Part::UniqueId(id), Part::Position(x, y)] + part_if(t.renderable is Some, Part::FromTemplate(Heritable::Renderable)) + seq![Part::Name] + part_if(is_set(t.blocks_tile), Part::BlocksTile) + part_if(is_set(t.interactable), Part::Interactable) + part_if(t.interactable_object, Part::InteractableObject), part_if(is_set(t.leaf), Part::Leaf(LEAF_NUTRIMENTS)), q);
    lemma_concat_contains(seq![Part::UniqueId(id), Part::Position(x, y)] + part_if(t.renderable is Some, Part::FromTemplate(Heritable::Renderable)) + seq![Part::Name] + part_if(is_set(t.blocks_tile), Part::BlocksTile) + part_if(is_set(t.interactable), Part::Interactable) + part_if(t.interactable_object, Part::InteractableObject) + part_if(is_set(t.leaf), Part::Leaf(LEAF_NUTRIMENTS)), part_if(is_set(t.tree), Part::Tree), q);
}

/// What the living components of a prop hold.
proof fn lemma_prop_life_has(t: Prop, q: Part)
    ensures
        prop_life(t).contains(q) <==> (t.energy_reserve && q == Part::FromTemplate(Heritable::EnergyReserve)) || viewshed_parts(t.viewshed).contains(q) || (t.herbivore && q == Part::FromTemplate(Heritable::Herbivore)) || (t.reproduction && q == Part::FromTemplate(Heritable::Reproduction)) || (t.aging && q == Part::Aging) || (t.temp_sensi && q == Part::FromTemplate(Heritable::TemperatureSensitive)) || (t.hum_sensi && q == Part::FromTemplate(Heritable::HumiditySensitive)) || (t.specie && q == Part::FromTemplate(Heritable::Specie)) || (t.carnivore && q == Part::FromTemplate(Heritable::Carnivore)) || (t.speed && q == Part::FromTemplate(Heritable::Speed)) || (t.animal && q == Part::Animal),
{
    lemma_part_if_contains(t.energy_reserve, Part::FromTemplate(Heritable::EnergyReserve), q);
    lemma_part_if_contains(t.herbivore, Part::FromTemplate(Heritable::Herbivore), q);
    lemma_part_if_contains(t.reproduction, Part::FromTemplate(Heritable::Reproduction), q);
    lemma_part_if_contains(t.aging, Part::Aging, q);
    lemma_part_if_contains(t.temp_sensi, Part::FromTemplate(Heritable::TemperatureSensitive), q);
    lemma_part_if_contains(t.hum_sensi, Part::FromTemplate(Heritable::HumiditySensitive), q);
    lemma_part_if_contains(t.specie, Part::FromTemplate(Heritable::Specie), q);
    lemma_part_if_contains(t.carnivore, Part::FromTemplate(Heritable::Carnivore), q);
    lemma_part_if_contains(t.speed, Part::FromTemplate(Heritable::Speed), q);
    lemma_part_if_contains(t.animal, Part::Animal, q);
    lemma_concat_contains(part_if(t.energy_reserve, Part::FromTemplate(Heritable::EnergyReserve)), viewshed_parts(t.viewshed), q);
    lemma_concat_contains(part_if(t.energy_reserve, Part::FromTemplate(Heritable::EnergyReserve)) + viewshed_parts(t.viewshed), part_if(t.herbivore, Part::FromTemplate(Heritable::Herbivore)), q);
    lemma_concat_contains(part_if(t.energy_reserve, Part::FromTemplate(Heritable::EnergyReserve)) + viewshed_parts(t.viewshed) + part_if(t.herbivore, Part::FromTemplate(Heritable::Herbivore)), part_if(t.reproduction, Part::FromTemplate(Heritable::Reproduction)), q);
    lemma_concat_contains(part_if(t.energy_reserve, Part::FromTemplate(Heritable::EnergyReserve)) + viewshed_parts(t.viewshed) + part_if(t.herbivore, Part::FromTemplate(Heritable::Herbivore)) + part_if(t.reproduction, Part::FromTemplate(Heritable::Reproduction)), part_if(t.aging, Part::Aging), q);
    lemma_concat_contains(part_if(t.energy_reserve, Part::FromTemplate(Heritable::EnergyReserve)) + viewshed_parts(t.viewshed) + part_if(t.herbivore, Part::FromTemplate(Heritable::Herbivore)) + part_if(t.reproduction, Part::FromTemplate(Heritable::Reproduction)) + part_if(t.aging, Part::Aging), part_if(t.temp_sensi, Part::FromTemplate(Heritable::TemperatureSensitive)), q);
    lemma_concat_contains(part_if(t.energy_reserve, Part::FromTemplate(Heritable::EnergyReserve)) + viewshed_parts(t.viewshed) + part_if(t.herbivore, Part::FromTemplate(Heritable::Herbivore)) + part_if(t.reproduction, Part::FromTemplate(Heritable::Reproduction)) + part_if(t.aging, Part::Aging) + part_if(t.temp_sensi, Part::FromTemplate(Heritable::TemperatureSensitive)), part_if(t.hum_sensi, Part::FromTemplate(Heritable::HumiditySensitive)), q);
    lemma_concat_contains(part_if(t.energy_reserve, Part::FromTemplate(Heritable::EnergyReserve)) + viewshed_parts(t.viewshed) + part_if(t.herbivore, Part::FromTemplate(Heritable::Herbivore)) + part_if(t.reproduction, Part::FromTemplate(Heritable::Reproduction)) + part_if(t.aging, Part::Aging) + part_if(t.temp_sensi, Part::FromTemplate(Heritable::TemperatureSensitive)) + part_if(t.hum_sensi, Part::FromTemplate(Heritable::HumiditySensitive)), part_if(t.specie, Part::FromTemplate(Heritable::Specie)), q);
    lemma_concat_contains(part_if(t.energy_reserve, Part::FromTemplate(Heritable::EnergyReserve)) + viewshed_parts(t.viewshed) + part_if(t.herbivore, Part::FromTemplate(Heritable::Herbivore)) + part_if(t.reproduction, Part::FromTemplate(Heritable::Reproduction)) + part_if(t.aging, Part::Aging) + part_if(t.temp_sensi, Part::FromTemplate(Heritable::TemperatureSensitive)) + part_if(t.hum_sensi, Part::FromTemplate(Heritable::HumiditySensitive)) + part_if(t.specie, Part::FromTemplate(Heritable::Specie)), part_if(t.carnivore, Part::FromTemplate(Heritable::Carnivore)), q);
    lemma_concat_contains(part_if(t.energy_reserve, Part::FromTemplate(Heritable::EnergyReserve)) + viewshed_parts(t.viewshed) + part_if(t.herbivore, Part::FromTemplate(Heritable::Herbivore)) + part_if(t.reproduction, Part::FromTemplate(Heritable::Reproduction)) + part_if(t.aging, Part::Aging) + part_if(t.temp_sensi, Part::FromTemplate(Heritable::TemperatureSensitive)) + part_if(t.hum_sensi, Part::FromTemplate(Heritable::HumiditySensitive)) + part_if(t.specie, Part::FromTemplate(Heritable::Specie)) + part_if(t.carnivore, Part::FromTemplate(Heritable::Carnivore)), part_if(t.speed, Part::FromTemplate(Heritable::Speed)), q);
    lemma_concat_contains(part_if(t.energy_reserve, Part::FromTemplate(Heritable::EnergyReserve)) + viewshed_parts(t.viewshed) + part_if(t.herbivore, Part::FromTemplate(Heritable::Herbivore)) + part_if(t.reproduction, Part::FromTemplate(Heritable::Reproduction)) + part_if(t.aging, Part::Aging) + part_if(t.temp_sensi, Part::FromTemplate(Heritable::TemperatureSensitive)) + part_if(t.hum_sensi, Part::FromTemplate(Heritable::HumiditySensitive)) + part_if(t.specie, Part::FromTemplate(Heritable::Specie)) + part_if(t.carnivore, Part::FromTemplate(Heritable::Carnivore)) + part_if(t.speed, Part::FromTemplate(Heritable::Speed)), part_if(t.animal, Part::Animal), q);
}

/// What a player's components hold.
proof fn lemma_player_parts_has(t: Prop, q: Part)
    ensures
        player_parts(t).contains(q) <==> (t.building_choice && q == Part::BuildingChoice) || (t.online_player && q == Part::OnlinePlayer) || (t.facing_direction && q == Part::FacingDirection),
{
    lemma_part_if_contains(t.building_choice, Part::BuildingChoice, q);
    lemma_part_if_contains(t.online_player, Part::OnlinePlayer, q);
    lemma_part_if_contains(t.facing_direction, Part::FacingDirection, q);
    lemma_concat_contains(part_if(t.building_choice, Part::BuildingChoice), part_if(t.online_player, Part::OnlinePlayer), q);
    lemma_concat_contains(part_if(t.building_choice, Part::BuildingChoice) + part_if(t.online_player, Part::OnlinePlayer), part_if(t.facing_direction, Part::FacingDirection), q);
}

/// What a spawned prop's components hold, by group.
proof fn lemma_prop_plan_has(t: Prop, id: usize, x: i32, y: i32, s: Option<Sexe>, q: Part)
    ensures
        prop_plan(t, id, x, y, s).contains(q) <==> prop_head(t, id, x, y).contains(q) || prop_life(t).contains(q) || sexe_parts(s).contains(q) || (t.combat && q == Part::FromTemplate(Heritable::CombatStats)) || player_parts(t).contains(q),
{
    lemma_part_if_contains(t.combat, Part::FromTemplate(Heritable::CombatStats), q);
    lemma_concat_contains(prop_head(t, id, x, y), prop_life(t), q);
    lemma_concat_contains(prop_head(t, id, x, y) + prop_life(t), sexe_parts(s), q);
    lemma_concat_contains(prop_head(t, id, x, y) + prop_life(t) + sexe_parts(s), part_if(t.combat, Part::FromTemplate(Heritable::CombatStats)), q);
    lemma_concat_contains(prop_head(t, id, x, y) + prop_life(t) + sexe_parts(s) + part_if(t.combat, Part::FromTemplate(Heritable::CombatStats)), player_parts(t), q);
}

/// A prop spawned from a template carries each template component exactly when
/// the template has it: looks, energy reserve, diet (herbivore, carnivore),
/// reproduction, sensitivities, species, speed and combat statistics each as a
/// component of its own kind; and it ages and is an animal exactly when its
/// template says so.
pub proof fn lemma_prop_template_components(t: Prop, id: usize, x: i32, y: i32, s: Option<Sexe>)
    ensures
        prop_plan(t, id, x, y, s).contains(Part::FromTemplate(Heritable::Renderable)) <==> t.renderable is Some,
        prop_plan(t, id, x, y, s).contains(Part::FromTemplate(Heritable::EnergyReserve)) <==> t.energy_reserve,
        prop_plan(t, id, x, y, s).contains(Part::FromTemplate(Heritable::Herbivore)) <==> t.herbivore,
        prop_plan(t, id, x, y, s).contains(Part::FromTemplate(Heritable::Carnivore)) <==> t.carnivore,
        prop_plan(t, id, x, y, s).contains(Part::FromTemplate(Heritable::Reproduction)) <==> t.reproduction,
        prop_plan(t, id, x, y, s).contains(Part::FromTemplate(Heritable::TemperatureSensitive)) <==> t.temp_sensi,
        prop_plan(t, id, x, y, s).contains(Part::FromTemplate(Heritable::HumiditySensitive)) <==> t.hum_sensi,
        prop_plan(t, id, x, y, s).contains(Part::FromTemplate(Heritable::Specie)) <==> t.specie,
        prop_plan(t, id, x, y, s).contains(Part::FromTemplate(Heritable::Speed)) <==> t.speed,
        prop_plan(t, id, x, y, s).contains(Part::FromTemplate(Heritable::CombatStats)) <==> t.combat,
        prop_plan(t, id, x, y, s).contains(Part::Aging) <==> t.aging,
        prop_plan(t, id, x, y, s).contains(Part::Animal) <==> t.animal,
{
    lemma_prop_template_component(t, id, x, y, s, Part::FromTemplate(Heritable::Renderable));
    lemma_prop_template_component(t, id, x, y, s, Part::FromTemplate(Heritable::EnergyReserve));
    lemma_prop_template_component(t, id, x, y, s, Part::FromTemplate(Heritable::Herbivore));
    lemma_prop_template_component(t, id, x, y, s, Part::FromTemplate(Heritable::Carnivore));
    lemma_prop_template_component(t, id, x, y, s, Part::FromTemplate(Heritable::Reproduction));
    lemma_prop_template_component(t, id, x, y, s, Part::FromTemplate(Heritable::TemperatureSensitive));
    lemma_prop_template_component(t, id, x, y, s, Part::FromTemplate(Heritable::HumiditySensitive));
    lemma_prop_template_component(t, id, x, y, s, Part::FromTemplate(Heritable::Specie));
    lemma_prop_template_component(t, id, x, y, s, Part::FromTemplate(Heritable::Speed));
    lemma_prop_template_component(t, id, x, y, s, Part::FromTemplate(Heritable::CombatStats));
    lemma_prop_template_component(t, id, x, y, s, Part::Aging);
    lemma_prop_template_component(t, id, x, y, s, Part::Animal);
}

proof fn lemma_prop_template_component(t: Prop, id: usize, x: i32, y: i32, s: Option<Sexe>, q: Part)
    requires
        q is FromTemplate || q is Aging || q is Animal,
    ensures
        prop_plan(t, id, x, y, s).contains(q) <==> prop_life(t).contains(q)
            || (t.renderable is Some && q == Part::FromTemplate(Heritable::Renderable))
            || (t.combat && q == Part::FromTemplate(Heritable::CombatStats)),
        prop_life(t).contains(q) <==> (t.energy_reserve && q == Part::FromTemplate(Heritable::EnergyReserve))
            || (t.herbivore && q == Part::FromTemplate(Heritable::Herbivore))
            || (t.reproduction && q == Part::FromTemplate(Heritable::Reproduction))
            || (t.aging && q == Part::Aging)
            || (t.temp_sensi && q == Part::FromTemplate(Heritable::TemperatureSensitive))
            || (t.hum_sensi && q == Part::FromTemplate(Heritable::HumiditySensitive))
            || (t.specie && q == Part::FromTemplate(Heritable::Specie))
            || (t.carnivore && q == Part::FromTemplate(Heritable::Carnivore))
            || (t.speed && q == Part::FromTemplate(Heritable::Speed))
            || (t.animal && q == Part::Animal),
{
    lemma_prop_plan_has(t, id, x, y, s, q);
    lemma_prop_head_has(t, id, x, y, q);
    lemma_prop_life_has(t, q);
    lemma_player_parts_has(t, q);
    lemma_extras_hold(s, t.viewshed, q);
}

proof fn lemma_inherited_contains(h: Heritable, mutated: bool, in_template: bool, q: Part)
    ensures
        inherited(h, mutated, in_template).contains(q) <==> (mutated && q == Part::FromMutation(h))
            || (!mutated && in_template && q == Part::FromTemplate(h)),
{
    lemma_part_if_contains(in_template, Part::FromTemplate(h), q);
    if mutated {
        assert(seq![Part::FromMutation(h)][0] == Part::FromMutation(h));
    }
}

/// What the first components of a newborn hold.
proof fn lemma_born_head_has(t: Prop, m: Mutations, id: usize, x: i32, y: i32, q: Part)
    ensures
        born_head(t, m, id, x, y).contains(q) <==> (q == Part::UniqueId(id) || q == Part::Position(x, y) || q == Part::Name) || (m.renderable && q == Part::FromMutation(Heritable::Renderable)) || (!m.renderable && t.renderable is Some && q == Part::FromTemplate(Heritable::Renderable)) || (m.energy_reserve && q == Part::FromMutation(Heritable::EnergyReserve)) || (!m.energy_reserve && t.energy_reserve && q == Part::FromTemplate(Heritable::EnergyReserve)) || (m.solo_reproduction && q == Part::FromMutation(Heritable::Reproduction)) || (!m.solo_reproduction && t.reproduction && q == Part::FromTemplate(Heritable::Reproduction)) || (m.temp_sensi && q == Part::FromMutation(Heritable::TemperatureSensitive)) || (!m.temp_sensi && t.temp_sensi && q == Part::FromTemplate(Heritable::TemperatureSensitive)),
{
    lemma_literal_contains(Part::UniqueId(id), Part::Position(x, y), Part::Name, q);
    lemma_inherited_contains(Heritable::Renderable, m.renderable, t.renderable is Some, q);
    lemma_inherited_contains(Heritable::EnergyReserve, m.energy_reserve, t.energy_reserve, q);
    lemma_inherited_contains(Heritable::Reproduction, m.solo_reproduction, t.reproduction, q);
    lemma_inherited_contains(Heritable::TemperatureSensitive, m.temp_sensi, t.temp_sensi, q);
    lemma_concat_contains(seq![Part::UniqueId(id), Part::Position(x, y), Part::Name], inherited(Heritable::Renderable, m.renderable, t.renderable is Some), q);
    lemma_concat_contains(seq![Part::UniqueId(id), Part::Position(x, y), Part::Name] + inherited(Heritable::Renderable, m.renderable, t.renderable is Some), inherited(Heritable::EnergyReserve, m.energy_reserve, t.energy_reserve), q);
    lemma_concat_contains(seq![Part::UniqueId(id), Part::Position(x, y), Part::Name] + inherited(Heritable::Renderable, m.renderable, t.renderable is Some) + inherited(Heritable::EnergyReserve, m.energy_reserve, t.energy_reserve), inherited(Heritable::Reproduction, m.solo_reproduction, t.reproduction), q);
    lemma_concat_contains(seq![Part::UniqueId(id), Part::Position(x, y), Part::Name] + inherited(Heritable::Renderable, m.renderable, t.renderable is Some) + inherited(Heritable::EnergyReserve, m.energy_reserve, t.energy_reserve) + inherited(Heritable::Reproduction, m.solo_reproduction, t.reproduction), inherited(Heritable::TemperatureSensitive, m.temp_sensi, t.temp_sensi), q);
}

/// What a newborn's traits hold.
proof fn lemma_born_traits_has(t: Prop, m: Mutations, q: Part)
    ensures
        born_traits(t, m).contains(q) <==> (t.hum_sensi && q == Part::FromTemplate(Heritable::HumiditySensitive)) || (m.specie && q == Part::FromMutation(Heritable::Specie)) || (!m.specie && t.specie && q == Part::FromTemplate(Heritable::Specie)) || (t.carnivore && q == Part::FromTemplate(Heritable::Carnivore)) || (t.speed && q == Part::FromTemplate(Heritable::Speed)) || (t.herbivore && q == Part::FromTemplate(Heritable::Herbivore)) || (t.combat && q == Part::FromTemplate(Heritable::CombatStats)),
{
    lemma_part_if_contains(t.hum_sensi, Part::FromTemplate(Heritable::HumiditySensitive), q);
    lemma_inherited_contains(Heritable::Specie, m.specie, t.specie, q);
    lemma_part_if_contains(t.carnivore, Part::FromTemplate(Heritable::Carnivore), q);
    lemma_part_if_contains(t.speed, Part::FromTemplate(Heritable::Speed), q);
    lemma_part_if_contains(t.herbivore, Part::FromTemplate(Heritable::Herbivore), q);
    lemma_part_if_contains(t.combat, Part::FromTemplate(Heritable::CombatStats), q);
    lemma_concat_contains(part_if(t.hum_sensi, Part::FromTemplate(Heritable::HumiditySensitive)), inherited(Heritable::Specie, m.specie, t.specie), q);
    lemma_concat_contains(part_if(t.hum_sensi, Part::FromTemplate(Heritable::HumiditySensitive)) + inherited(Heritable::Specie, m.specie, t.specie), part_if(t.carnivore, Part::FromTemplate(Heritable::Carnivore)), q);
    lemma_concat_contains(part_if(t.hum_sensi, Part::FromTemplate(Heritable::HumiditySensitive)) + inherited(Heritable::Specie, m.specie, t.specie) + part_if(t.carnivore, Part::FromTemplate(Heritable::Carnivore)), part_if(t.speed, Part::FromTemplate(Heritable::Speed)), q);
    lemma_concat_contains(part_if(t.hum_sensi, Part::FromTemplate(Heritable::HumiditySensitive)) + inherited(Heritable::Specie, m.specie, t.specie) + part_if(t.carnivore, Part::FromTemplate(Heritable::Carnivore)) + part_if(t.speed, Part::FromTemplate(Heritable::Speed)), part_if(t.herbivore, Part::FromTemplate(Heritable::Herbivore)), q);
    lemma_concat_contains(part_if(t.hum_sensi, Part::FromTemplate(Heritable::HumiditySensitive)) + inherited(Heritable::Specie, m.specie, t.specie) + part_if(t.carnivore, Part::FromTemplate(Heritable::Carnivore)) + part_if(t.speed, Part::FromTemplate(Heritable::Speed)) + part_if(t.herbivore, Part::FromTemplate(Heritable::Herbivore)), part_if(t.combat, Part::FromTemplate(Heritable::CombatStats)), q);
}

/// What the rest of a newborn's template components hold.
proof fn lemma_born_body_has(t: Prop, q: Part)
    ensures
        born_body(t).contains(q) <==> (is_set(t.blocks_tile) && q == Part::BlocksTile) || (is_set(t.interactable) && q == Part::Interactable) || (t.interactable_object && q == Part::InteractableObject) || (is_set(t.leaf) && q == Part::Leaf(LEAF_NUTRIMENTS)) || (is_set(t.tree) && q == Part::Tree) || viewshed_parts(t.viewshed).contains(q) || (t.aging && q == Part::Aging) || (t.animal && q == Part::Animal),
{
    lemma_part_if_contains(is_set(t.blocks_tile), Part::BlocksTile, q);
    lemma_part_if_contains(is_set(t.interactable), Part::Interactable, q);
    lemma_part_if_contains(t.interactable_object, Part::InteractableObject, q);
    lemma_part_if_contains(is_set(t.leaf), Part::Leaf(LEAF_NUTRIMENTS), q);
    lemma_part_if_contains(is_set(t.tree), Part::Tree, q);
    lemma_part_if_contains(t.aging, Part::Aging, q);
    lemma_part_if_contains(t.animal, Part::Animal, q);
    lemma_concat_contains(part_if(is_set(t.blocks_tile), Part::BlocksTile), part_if(is_set(t.interactable), Part::Interactable), q);
    lemma_concat_contains(part_if(is_set(t.blocks_tile), Part::BlocksTile) + part_if(is_set(t.interactable), Part::Interactable), part_if(t.interactable_object, Part::InteractableObject), q);
    lemma_concat_contains(part_if(is_set(t.blocks_tile), Part::BlocksTile) + part_if(is_set(t.interactable), Part::Interactable) + part_if(t.interactable_object, Part::InteractableObject), part_if(is_set(t.leaf), Part::Leaf(LEAF_NUTRIMENTS)), q);
    lemma_concat_contains(part_if(is_set(t.blocks_tile), Part::BlocksTile) + part_if(is_set(t.interactable), Part::Interactable) + part_if(t.interactable_object, Part::InteractableObject) + part_if(is_set(t.leaf), Part::Leaf(LEAF_NUTRIMENTS)), part_if(is_set(t.tree), Part::Tree), q);
    lemma_concat_contains(part_if(is_set(t.blocks_tile), Part::BlocksTile) + part_if(is_set(t.interactable), Part::Interactable) + part_if(t.interactable_object, Part::InteractableObject) + part_if(is_set(t.leaf), Part::Leaf(LEAF_NUTRIMENTS)) + part_if(is_set(t.tree), Part::Tree), viewshed_parts(t.viewshed), q);
    lemma_concat_contains(part_if(is_set(t.blocks_tile), Part::BlocksTile) + part_if(is_set(t.interactable), Part::Interactable) + part_if(t.interactable_object, Part::InteractableObject) + part_if(is_set(t.leaf), Part::Leaf(LEAF_NUTRIMENTS)) + part_if(is_set(t.tree), Part::Tree) + viewshed_parts(t.viewshed), part_if(t.aging, Part::Aging), q);
    lemma_concat_contains(part_if(is_set(t.blocks_tile), Part::BlocksTile) + part_if(is_set(t.interactable), Part::Interactable) + part_if(t.interactable_object, Part::InteractableObject) + part_if(is_set(t.leaf), Part::Leaf(LEAF_NUTRIMENTS)) + part_if(is_set(t.tree), Part::Tree) + viewshed_parts(t.viewshed) + part_if(t.aging, Part::Aging), part_if(t.animal, Part::Animal), q);
}

/// What a newborn's components hold, by group.
proof fn lemma_born_plan_has(t: Prop, m: Mutations, id: usize, x: i32, y: i32, s: Option<Sexe>, q: Part)
    ensures
        born_plan(t, m, id, x, y, s).contains(q) <==> born_head(t, m, id, x, y).contains(q) || born_traits(t, m).contains(q) || born_body(t).contains(q) || player_parts(t).contains(q) || sexe_parts(s).contains(q),
{
    lemma_concat_contains(born_head(t, m, id, x, y), born_traits(t, m), q);
    lemma_concat_contains(born_head(t, m, id, x, y) + born_traits(t, m), born_body(t), q);
    lemma_concat_contains(born_head(t, m, id, x, y) + born_traits(t, m) + born_body(t), player_parts(t), q);
    lemma_concat_contains(born_head(t, m, id, x, y) + born_traits(t, m) + born_body(t) + player_parts(t), sexe_parts(s), q);
}

/// A newborn carries each trait it may take from its parent from that parent
/// when passed on, and else from its template when the template has it; its
/// diet (herbivore, carnivore), humidity sensitivity, speed and combat
/// statistics come from its template exactly when the template has them.
pub proof fn lemma_born_template_components(t: Prop, m: Mutations, id: usize, x: i32, y: i32, s: Option<Sexe>)
    ensures
        born_plan(t, m, id, x, y, s).contains(Part::FromTemplate(Heritable::Herbivore)) <==> t.herbivore,
        born_plan(t, m, id, x, y, s).contains(Part::FromTemplate(Heritable::Carnivore)) <==> t.carnivore,
        born_plan(t, m, id, x, y, s).contains(Part::FromTemplate(Heritable::HumiditySensitive)) <==> t.hum_sensi,
        born_plan(t, m, id, x, y, s).contains(Part::FromTemplate(Heritable::Speed)) <==> t.speed,
        born_plan(t, m, id, x, y, s).contains(Part::FromTemplate(Heritable::CombatStats)) <==> t.combat,
        born_plan(t, m, id, x, y, s).contains(Part::FromMutation(Heritable::Specie)) <==> m.specie,
        born_plan(t, m, id, x, y, s).contains(Part::FromTemplate(Heritable::Specie)) <==> !m.specie && t.specie,
        born_plan(t, m, id, x, y, s).contains(Part::FromMutation(Heritable::Renderable)) <==> m.renderable,
        born_plan(t, m, id, x, y, s).contains(Part::FromTemplate(Heritable::Renderable)) <==> !m.renderable && t.renderable is Some,
        born_plan(t, m, id, x, y, s).contains(Part::FromMutation(Heritable::EnergyReserve)) <==> m.energy_reserve,
        born_plan(t, m, id, x, y, s).contains(Part::FromTemplate(Heritable::EnergyReserve)) <==> !m.energy_reserve && t.energy_reserve,
        born_plan(t, m, id, x, y, s).contains(Part::FromMutation(Heritable::Reproduction)) <==> m.solo_reproduction,
        born_plan(t, m, id, x, y, s).contains(Part::FromTemplate(Heritable::Reproduction)) <==> !m.solo_reproduction && t.reproduction,
        born_plan(t, m, id, x, y, s).contains(Part::FromMutation(Heritable::TemperatureSensitive)) <==> m.temp_sensi,
        born_plan(t, m, id, x, y, s).contains(Part::FromTemplate(Heritable::TemperatureSensitive)) <==> !m.temp_sensi && t.temp_sensi,
{
    lemma_born_component(t, m, id, x, y, s, Part::FromTemplate(Heritable::Herbivore));
    lemma_born_component(t, m, id, x, y, s, Part::FromTemplate(Heritable::Carnivore));
    lemma_born_component(t, m, id, x, y, s, Part::FromTemplate(Heritable::HumiditySensitive));
    lemma_born_component(t, m, id, x, y, s, Part::FromTemplate(Heritable::Speed));
    lemma_born_component(t, m, id, x, y, s, Part::FromTemplate(Heritable::CombatStats));
    lemma_born_component(t, m, id, x, y, s, Part::FromMutation(Heritable::Specie));
    lemma_born_component(t, m, id, x, y, s, Part::FromTemplate(Heritable::Specie));
    lemma_born_component(t, m, id, x, y, s, Part::FromMutation(Heritable::Renderable));
    lemma_born_component(t, m, id, x, y, s, Part::FromTemplate(Heritable::Renderable));
    lemma_born_component(t, m, id, x, y, s, Part::FromMutation(Heritable::EnergyReserve));
    lemma_born_component(t, m, id, x, y, s, Part::FromTemplate(Heritable::EnergyReserve));
    lemma_born_component(t, m, id, x, y, s, Part::FromMutation(Heritable::Reproduction));
    lemma_born_component(t, m, id, x, y, s, Part::FromTemplate(Heritable::Reproduction));
    lemma_born_component(t, m, id, x, y, s, Part::FromMutation(Heritable::TemperatureSensitive));
    lemma_born_component(t, m, id, x, y, s, Part::FromTemplate(Heritable::TemperatureSensitive));
}

proof fn lemma_born_component(t: Prop, m: Mutations, id: usize, x: i32, y: i32, s: Option<Sexe>, q: Part)
    requires
        q is FromTemplate || q is FromMutation,
    ensures
        born_plan(t, m, id, x, y, s).contains(q) <==> ((m.renderable && q == Part::FromMutation(Heritable::Renderable)) || (!m.renderable && t.renderable is Some && q == Part::FromTemplate(Heritable::Renderable)))
            || ((m.energy_reserve && q == Part::FromMutation(Heritable::EnergyReserve)) || (!m.energy_reserve && t.energy_reserve && q == Part::FromTemplate(Heritable::EnergyReserve)))
            || ((m.solo_reproduction && q == Part::FromMutation(Heritable::Reproduction)) || (!m.solo_reproduction && t.reproduction && q == Part::FromTemplate(Heritable::Reproduction)))
            || ((m.temp_sensi && q == Part::FromMutation(Heritable::TemperatureSensitive)) || (!m.temp_sensi && t.temp_sensi && q == Part::FromTemplate(Heritable::TemperatureSensitive)))
            || (t.hum_sensi && q == Part::FromTemplate(Heritable::HumiditySensitive))
            || ((m.specie && q == Part::FromMutation(Heritable::Specie)) || (!m.specie && t.specie && q == Part::FromTemplate(Heritable::Specie)))
            || (t.carnivore && q == Part::FromTemplate(Heritable::Carnivore))
            || (t.speed && q == Part::FromTemplate(Heritable::Speed))
            || (t.herbivore && q == Part::FromTemplate(Heritable::Herbivore))
            || (t.combat && q == Part::FromTemplate(Heritable::CombatStats)),
{
    lemma_born_plan_has(t, m, id, x, y, s, q);
    lemma_born_head_has(t, m, id, x, y, q);
    lemma_born_traits_has(t, m, q);
    lemma_born_body_has(t, q);
    lemma_player_parts_has(t, q);
    lemma_extras_hold(s, t.viewshed, q);
}

proof fn lemma_ingame_prop_has(t: Prop, x: i32, y: i32, q: Part)
    ensures
        ingame_prop_plan(t, x, y).contains(q) <==> (q == Part::Marked || q == Part::Position(x, y)) || (t.renderable is Some && q == Part::FromTemplate(Heritable::Renderable)) || (q == Part::Name) || (is_set(t.interactable) && q == Part::Interactable) || (t.interactable_object && q == Part::InteractableObject) || (is_set(t.leaf) && q == Part::Leaf(LEAF_NUTRIMENTS)) || (is_set(t.tree) && q == Part::Tree) || (t.energy_reserve && q == Part::FromTemplate(Heritable::EnergyReserve)) || (is_set(t.blocks_tile) && q == Part::BlocksTile) || viewshed_parts(t.viewshed).contains(q) || (t.herbivore && q == Part::FromTemplate(Heritable::Herbivore)) || (t.reproduction && q == Part::FromTemplate(Heritable::Reproduction)),
        viewshed_parts(t.viewshed).contains(q) ==> q is Viewshed,
{
    lemma_literal_contains(Part::Marked, Part::Position(x, y), Part::Position(x, y), q);
    lemma_part_if_contains(t.renderable is Some, Part::FromTemplate(Heritable::Renderable), q);
    lemma_literal_contains(Part::Name, Part::Name, Part::Name, q);
    lemma_part_if_contains(is_set(t.interactable), Part::Interactable, q);
    lemma_part_if_contains(t.interactable_object, Part::InteractableObject, q);
    lemma_part_if_contains(is_set(t.leaf), Part::Leaf(LEAF_NUTRIMENTS), q);
    lemma_part_if_contains(is_set(t.tree), Part::Tree, q);
    lemma_part_if_contains(t.energy_reserve, Part::FromTemplate(Heritable::EnergyReserve), q);
    lemma_part_if_contains(is_set(t.blocks_tile), Part::BlocksTile, q);
    lemma_part_if_contains(t.herbivore, Part::FromTemplate(Heritable::Herbivore), q);
    lemma_part_if_contains(t.reproduction, Part::FromTemplate(Heritable::Reproduction), q);
    lemma_concat_contains(seq![Part::Marked, Part::Position(x, y)], part_if(t.renderable is Some, Part::FromTemplate(Heritable::Renderable)), q);
    lemma_concat_contains(seq![Part::Marked, Part::Position(x, y)] + part_if(t.renderable is Some, Part::FromTemplate(Heritable::Renderable)), seq![Part::Name], q);
    lemma_concat_contains(seq![Part::Marked, Part::Position(x, y)] + part_if(t.renderable is Some, Part::FromTemplate(Heritable::Renderable)) + seq![Part::Name], part_if(is_set(t.interactable), Part::Interactable), q);
    lemma_concat_contains(seq![Part::Marked, Part::Position(x, y)] + part_if(t.renderable is Some, Part::FromTemplate(Heritable::Renderable)) + seq![Part::Name] + part_if(is_set(t.interactable), Part::Interactable), part_if(t.interactable_object, Part::InteractableObject), q);
    lemma_concat_contains(seq![Part::Marked, Part::Position(x, y)] + part_if(t.renderable is Some, Part::FromTemplate(Heritable::Renderable)) + seq![Part::Name] + part_if(is_set(t.interactable), Part::Interactable) + part_if(t.interactable_object, Part::InteractableObject), part_if(is_set(t.leaf), Part::Leaf(LEAF_NUTRIMENTS)), q);
    lemma_concat_contains(seq![Part::Marked, Part::Position(x, y)] + part_if(t.renderable is Some, Part::FromTemplate(Heritable::Renderable)) + seq![Part::Name] + part_if(is_set(t.interactable), Part::Interactable) + part_if(t.interactable_object, Part::InteractableObject) + part_if(is_set(t.leaf), Part::Leaf(LEAF_NUTRIMENTS)), part_if(is_set(t.tree), Part::Tree), q);
    lemma_concat_contains(seq![Part::Marked, Part::Position(x, y)] + part_if(t.renderable is Some, Part::FromTemplate(Heritable::Renderable)) + seq![Part::Name] + part_if(is_set(t.interactable), Part::Interactable) + part_if(t.interactable_object, Part::InteractableObject) + part_if(is_set(t.leaf), Part::Leaf(LEAF_NUTRIMENTS)) + part_if(is_set(t.tree), Part::Tree), part_if(t.energy_reserve, Part::FromTemplate(Heritable::EnergyReserve)), q);
    lemma_concat_contains(seq![Part::Marked, Part::Position(x, y)] + part_if(t.renderable is Some, Part::FromTemplate(Heritable::Renderable)) + seq![Part::Name] + part_if(is_set(t.interactable), Part::Interactable) + part_if(t.interactable_object, Part::InteractableObject) + part_if(is_set(t.leaf), Part::Leaf(LEAF_NUTRIMENTS)) + part_if(is_set(t.tree), Part::Tree) + part_if(t.energy_reserve, Part::FromTemplate(Heritable::EnergyReserve)), part_if(is_set(t.blocks_tile), Part::BlocksTile), q);
    lemma_concat_contains(seq![Part::Marked, Part::Position(x, y)] + part_if(t.renderable is Some, Part::FromTemplate(Heritable::Renderable)) + seq![Part::Name] + part_if(is_set(t.interactable), Part::Interactable) + part_if(t.interactable_object, Part::InteractableObject) + part_if(is_set(t.leaf), Part::Leaf(LEAF_NUTRIMENTS)) + part_if(is_set(t.tree), Part::Tree) + part_if(t.energy_reserve, Part::FromTemplate(Heritable::EnergyReserve)) + part_if(is_set(t.blocks_tile), Part::BlocksTile), viewshed_parts(t.viewshed), q);
    lemma_concat_contains(seq![Part::Marked, Part::Position(x, y)] + part_if(t.renderable is Some, Part::FromTemplate(Heritable::Renderable)) + seq![Part::Name] + part_if(is_set(t.interactable), Part::Interactable) + part_if(t.interactable_object, Part::InteractableObject) + part_if(is_set(t.leaf), Part::Leaf(LEAF_NUTRIMENTS)) + part_if(is_set(t.tree), Part::Tree) + part_if(t.energy_reserve, Part::FromTemplate(Heritable::EnergyReserve)) + part_if(is_set(t.blocks_tile), Part::BlocksTile) + viewshed_parts(t.viewshed), part_if(t.herbivore, Part::FromTemplate(Heritable::Herbivore)), q);
    lemma_concat_contains(seq![Part::Marked, Part::Position(x, y)] + part_if(t.renderable is Some, Part::FromTemplate(Heritable::Renderable)) + seq![Part::Name] + part_if(is_set(t.interactable), Part::Interactable) + part_if(t.interactable_object, Part::InteractableObject) + part_if(is_set(t.leaf), Part::Leaf(LEAF_NUTRIMENTS)) + part_if(is_set(t.tree), Part::Tree) + part_if(t.energy_reserve, Part::FromTemplate(Heritable::EnergyReserve)) + part_if(is_set(t.blocks_tile), Part::BlocksTile) + viewshed_parts(t.viewshed) + part_if(t.herbivore, Part::FromTemplate(Heritable::Herbivore)), part_if(t.reproduction, Part::FromTemplate(Heritable::Reproduction)), q);
    lemma_extras_hold(None, t.viewshed, q);
}

/// A prop spawned during a turn carries its looks, energy reserve, herbivore
/// diet and reproduction from its template exactly when the template has them,
/// and is interactable, an interactable object, a leaf, a tree or blocking
/// exactly when its template says so.
pub proof fn lemma_ingame_prop_components(t: Prop, x: i32, y: i32)
    ensures
        ingame_prop_plan(t, x, y).contains(Part::FromTemplate(Heritable::Renderable)) <==> t.renderable is Some,
        ingame_prop_plan(t, x, y).contains(Part::FromTemplate(Heritable::EnergyReserve)) <==> t.energy_reserve,
        ingame_prop_plan(t, x, y).contains(Part::FromTemplate(Heritable::Herbivore)) <==> t.herbivore,
        ingame_prop_plan(t, x, y).contains(Part::FromTemplate(Heritable::Reproduction)) <==> t.reproduction,
        ingame_prop_plan(t, x, y).contains(Part::Interactable) <==> is_set(t.interactable),
        ingame_prop_plan(t, x, y).contains(Part::InteractableObject) <==> t.interactable_object,
        ingame_prop_plan(t, x, y).contains(Part::Leaf(LEAF_NUTRIMENTS)) <==> is_set(t.leaf),
        ingame_prop_plan(t, x, y).contains(Part::Tree) <==> is_set(t.tree),
        ingame_prop_plan(t, x, y).contains(Part::BlocksTile) <==> is_set(t.blocks_tile),
{
    lemma_ingame_prop_has(t, x, y, Part::FromTemplate(Heritable::Renderable));
    lemma_ingame_prop_has(t, x, y, Part::FromTemplate(Heritable::EnergyReserve));
    lemma_ingame_prop_has(t, x, y, Part::FromTemplate(Heritable::Herbivore));
    lemma_ingame_prop_has(t, x, y, Part::FromTemplate(Heritable::Reproduction));
    lemma_ingame_prop_has(t, x, y, Part::Interactable);
    lemma_ingame_prop_has(t, x, y, Part::InteractableObject);
    lemma_ingame_prop_has(t, x, y, Part::Leaf(LEAF_NUTRIMENTS));
    lemma_ingame_prop_has(t, x, y, Part::Tree);
    lemma_ingame_prop_has(t, x, y, Part::BlocksTile);
}

fn put(v: &mut Vec<Part>, present: bool, p: Part)
    ensures
        final(v)@ == old(v)@ + part_if(present, p),
{
    let ghost before = v@;
    if present {
        v.push(p);
    }
    reveal(part_if);
    assert(v@ =~= before + part_if(present, p));
}

fn put_one(v: &mut Vec<Part>, p: Part)
    ensures
        final(v)@ == old(v)@ + seq![p],
{
    let ghost before = v@;
    v.push(p);
    assert(v@ =~= before + seq![p]);
}

fn put_sexe(v: &mut Vec<Part>, s: Option<Sexe>)
    ensures
        final(v)@ == old(v)@ + sexe_parts(s),
{
    let ghost before = v@;
    match s {
        Some(Sexe::Male) => v.push(Part::Male),
        Some(Sexe::Female) => v.push(Part::Female),
        None => {},
    }
    assert(v@ =~= before + sexe_parts(s));
}

fn put_viewshed(v: &mut Vec<Part>, vs: Option<RawViewshed>)
    ensures
        final(v)@ == old(v)@ + viewshed_parts(vs),
{
    let ghost before = v@;
    if let Some(vs) = vs {
        v.push(Part::Viewshed(vs.range));
    }
    assert(v@ =~= before + viewshed_parts(vs));
}

fn put_inherited(v: &mut Vec<Part>, h: Heritable, mutated: bool, in_template: bool)
    ensures
        final(v)@ == old(v)@ + inherited(h, mutated, in_template),
{
    let ghost before = v@;
    if mutated {
        v.push(Part::FromMutation(h));
    } else if in_template {
        v.push(Part::FromTemplate(h));
    }
    reveal(part_if);
    assert(v@ =~= before + inherited(h, mutated, in_template));
}

fn put_pair(v: &mut Vec<Part>, a: Part, b: Part)
    ensures
        final(v)@ == old(v)@ + seq![a, b],
{
    let ghost before = v@;
    v.push(a);
    v.push(b);
    assert(v@ =~= before + seq![a, b]);
}

fn is_set_exec(flag: Option<bool>) -> (r: bool)
    ensures
        r == is_set(flag),
{
    match flag {
        Some(b) => b,
        None => false,
    }
}

/// The components of an item spawned from `t` at `(x, y)`.
pub fn item_parts(t: &Item, x: i32, y: i32) -> (r: Vec<Part>)
    ensures
        r@ == item_plan(*t, x, y),
{
    let mut v: Vec<Part> = Vec::new();
    put_one(&mut v, Part::Position(x, y));
    assert(v@ =~= seq![Part::Position(x, y)]);
    put(&mut v, t.renderable.is_some(), Part::FromTemplate(Heritable::Renderable));
    put_pair(&mut v, Part::Name, Part::Item);
    let ghost before = v@;
    if let Some(w) = &t.weapon {
        put_pair(&mut v, Part::Equippable(EquipmentSlot::Melee), Part::MeleePowerBonus(w.power_bonus));
    }
    assert(v@ =~= before + weapon_parts(t.weapon));
    let ghost before = v@;
    if let Some(s) = &t.shield {
        put_pair(&mut v, Part::Equippable(EquipmentSlot::Shield), Part::DefenseBonus(s.defense_bonus));
    }
    assert(v@ =~= before + shield_parts(t.shield));
    put(&mut v, t.consumable, Part::Consumable);
    v
}

/// The components of a monster spawned from `t` at `(x, y)`.
pub fn mob_parts(t: &Mob, x: i32, y: i32) -> (r: Vec<Part>)
    ensures
        r@ == mob_plan(*t, x, y),
{
    let mut v: Vec<Part> = Vec::new();
    put_one(&mut v, Part::Position(x, y));
    assert(v@ =~= seq![Part::Position(x, y)]);
    put(&mut v, t.renderable.is_some(), Part::FromTemplate(Heritable::Renderable));
    put_pair(&mut v, Part::Name, Part::Monster);
    put(&mut v, t.blocks_tile, Part::BlocksTile);
    put_pair(&mut v, Part::Stats(t.stats), Part::Viewshed(t.vision_range));
    v
}

fn prop_head_parts(t: &Prop, id: usize, x: i32, y: i32) -> (r: Vec<Part>)
    ensures
        r@ == prop_head(*t, id, x, y),
{
    let mut v: Vec<Part> = Vec::new();
    put_pair(&mut v, Part::UniqueId(id), Part::Position(x, y));
    assert(v@ =~= seq![Part::UniqueId(id), Part::Position(x, y)]);
    put(&mut v, t.renderable.is_some(), Part::FromTemplate(Heritable::Renderable));
    put_one(&mut v, Part::Name);
    put(&mut v, is_set_exec(t.blocks_tile), Part::BlocksTile);
    put(&mut v, is_set_exec(t.interactable), Part::Interactable);
    put(&mut v, t.interactable_object, Part::InteractableObject);
    put(&mut v, is_set_exec(t.leaf), Part::Leaf(LEAF_NUTRIMENTS));
    put(&mut v, is_set_exec(t.tree), Part::Tree);
    v
}

fn prop_life_parts(t: &Prop) -> (r: Vec<Part>)
    ensures
        r@ == prop_life(*t),
{
    let mut v: Vec<Part> = Vec::new();
    put(&mut v, t.energy_reserve, Part::FromTemplate(Heritable::EnergyReserve));
    assert(v@ =~= part_if(t.energy_reserve, Part::FromTemplate(Heritable::EnergyReserve)));
    put_viewshed(&mut v, t.viewshed);
    put(&mut v, t.herbivore, Part::FromTemplate(Heritable::Herbivore));
    put(&mut v, t.reproduction, Part::FromTemplate(Heritable::Reproduction));
    put(&mut v, t.aging, Part::Aging);
    put(&mut v, t.temp_sensi, Part::FromTemplate(Heritable::TemperatureSensitive));
    put(&mut v, t.hum_sensi, Part::FromTemplate(Heritable::HumiditySensitive));
    put(&mut v, t.specie, Part::FromTemplate(Heritable::Specie));
    put(&mut v, t.carnivore, Part::FromTemplate(Heritable::Carnivore));
    put(&mut v, t.speed, Part::FromTemplate(Heritable::Speed));
    put(&mut v, t.animal, Part::Animal);
    v
}

fn player_parts_of(t: &Prop) -> (r: Vec<Part>)
    ensures
        r@ == player_parts(*t),
{
    let mut v: Vec<Part> = Vec::new();
    put(&mut v, t.building_choice, Part::BuildingChoice);
    assert(v@ =~= part_if(t.building_choice, Part::BuildingChoice));
    put(&mut v, t.online_player, Part::OnlinePlayer);
    put(&mut v, t.facing_direction, Part::FacingDirection);
    v
}

/// The components of a prop spawned from `t` at `(x, y)`, with identifier
/// `id` and sex `s`.
pub fn prop_parts(t: &Prop, id: usize, x: i32, y: i32, s: Option<Sexe>) -> (r: Vec<Part>)
    ensures
        r@ == prop_plan(*t, id, x, y, s),
{
    let mut v = prop_head_parts(t, id, x, y);
    let mut life = prop_life_parts(t);
    v.append(&mut life);
    put_sexe(&mut v, s);
    put(&mut v, t.combat, Part::FromTemplate(Heritable::CombatStats));
    let mut player = player_parts_of(t);
    v.append(&mut player);
    v
}

fn born_head_parts(t: &Prop, m: Mutations, id: usize, x: i32, y: i32) -> (r: Vec<Part>)
    ensures
        r@ == born_head(*t, m, id, x, y),
{
    let mut v: Vec<Part> = Vec::new();
    put_pair(&mut v, Part::UniqueId(id), Part::Position(x, y));
    put_one(&mut v, Part::Name);
    assert(v@ =~= seq![Part::UniqueId(id), Part::Position(x, y), Part::Name]);
    put_inherited(&mut v, Heritable::Renderable, m.renderable, t.renderable.is_some());
    put_inherited(&mut v, Heritable::EnergyReserve, m.energy_reserve, t.energy_reserve);
    put_inherited(&mut v, Heritable::Reproduction, m.solo_reproduction, t.reproduction);
    put_inherited(&mut v, Heritable::TemperatureSensitive, m.temp_sensi, t.temp_sensi);
    v
}

fn born_traits_parts(t: &Prop, m: Mutations) -> (r: Vec<Part>)
    ensures
        r@ == born_traits(*t, m),
{
    let mut v: Vec<Part> = Vec::new();
    put(&mut v, t.hum_sensi, Part::FromTemplate(Heritable::HumiditySensitive));
    assert(v@ =~= part_if(t.hum_sensi, Part::FromTemplate(Heritable::HumiditySensitive)));
    put_inherited(&mut v, Heritable::Specie, m.specie, t.specie);
    put(&mut v, t.carnivore, Part::FromTemplate(Heritable::Carnivore));
    put(&mut v, t.speed, Part::FromTemplate(Heritable::Speed));
    put(&mut v, t.herbivore, Part::FromTemplate(Heritable::Herbivore));
    put(&mut v, t.combat, Part::FromTemplate(Heritable::CombatStats));
    v
}

fn born_body_parts(t: &Prop) -> (r: Vec<Part>)
    ensures
        r@ == born_body(*t),
{
    let mut v: Vec<Part> = Vec::new();
    put(&mut v, is_set_exec(t.blocks_tile), Part::BlocksTile);
    assert(v@ =~= part_if(is_set(t.blocks_tile), Part::BlocksTile));
    put(&mut v, is_set_exec(t.interactable), Part::Interactable);
    put(&mut v, t.interactable_object, Part::InteractableObject);
    put(&mut v, is_set_exec(t.leaf), Part::Leaf(LEAF_NUTRIMENTS));
    put(&mut v, is_set_exec(t.tree), Part::Tree);
    put_viewshed(&mut v, t.viewshed);
    put(&mut v, t.aging, Part::Aging);
    put(&mut v, t.animal, Part::Animal);
    v
}

/// The components of a creature of template `t` born at `(x, y)` with
/// identifier `id` and sex `s`, taking the traits `m` from its parent.
pub fn born_parts(t: &Prop, m: Mutations, id: usize, x: i32, y: i32, s: Option<Sexe>) -> (r: Vec<Part>)
    ensures
        r@ == born_plan(*t, m, id, x, y, s),
{
    let mut v = born_head_parts(t, m, id, x, y);
    let mut traits = born_traits_parts(t, m);
    v.append(&mut traits);
    let mut body = born_body_parts(t);
    v.append(&mut body);
    let mut player = player_parts_of(t);
    v.append(&mut player);
    put_sexe(&mut v, s);
    v
}

/// The components of a prop spawned during a turn from `t` at `(x, y)`.
pub fn ingame_prop_parts(t: &Prop, x: i32, y: i32) -> (r: Vec<Part>)
    ensures
        r@ == ingame_prop_plan(*t, x, y),
{
    let mut v: Vec<Part> = Vec::new();
    put_pair(&mut v, Part::Marked, Part::Position(x, y));
    assert(v@ =~= seq![Part::Marked, Part::Position(x, y)]);
    put(&mut v, t.renderable.is_some(), Part::FromTemplate(Heritable::Renderable));
    put_one(&mut v, Part::Name);
    put(&mut v, is_set_exec(t.interactable), Part::Interactable);
    put(&mut v, t.interactable_object, Part::InteractableObject);
    put(&mut v, is_set_exec(t.leaf), Part::Leaf(LEAF_NUTRIMENTS));
    put(&mut v, is_set_exec(t.tree), Part::Tree);
    put(&mut v, t.energy_reserve, Part::FromTemplate(Heritable::EnergyReserve));
    put(&mut v, is_set_exec(t.blocks_tile), Part::BlocksTile);
    put_viewshed(&mut v, t.viewshed);
    put(&mut v, t.herbivore, Part::FromTemplate(Heritable::Herbivore));
    put(&mut v, t.reproduction, Part::FromTemplate(Heritable::Reproduction));
    v
}

/// The components of an item spawned during a turn from `t` at `(x, y)`.
pub fn ingame_item_parts(t: &Item, x: i32, y: i32) -> (r: Vec<Part>)
    ensures
        r@ == ingame_item_plan(*t, x, y),
{
    let mut v: Vec<Part> = Vec::new();
    put_one(&mut v, Part::Position(x, y));
    assert(v@ =~= seq![Part::Position(x, y)]);
    put(&mut v, t.renderable.is_some(), Part::FromTemplate(Heritable::Renderable));
    put_pair(&mut v, Part::Name, Part::Item);
    v
}

} // verus!
