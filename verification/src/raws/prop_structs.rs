use vstd::prelude::*;
use crate::raws::item_structs::{RawViewshed, Renderable, SexeChoice};

verus! {

/// A prop template: anything placed in the world that is neither an item nor
/// a plain monster (plants, animals, players' bodies). The flags tell which
/// components the template carries; the data of those components (much of it
/// floating point) is kept by the game.
#[derive(Clone, Debug)]
pub struct Prop {
    pub name: String,
    pub renderable: Option<Renderable>,
    pub blocks_tile: Option<bool>,
    pub interactable: Option<bool>,
    pub interactable_object: bool,
    pub leaf: Option<bool>,
    pub tree: Option<bool>,
    pub energy_reserve: bool,
    pub viewshed: Option<RawViewshed>,
    pub herbivore: bool,
    pub reproduction: bool,
    pub aging: bool,
    pub temp_sensi: bool,
    pub hum_sensi: bool,
    pub specie: bool,
    pub carnivore: bool,
    pub speed: bool,
    pub animal: bool,
    pub sexe: Option<SexeChoice>,
    pub combat: bool,
    pub online_player: bool,
    pub building_choice: bool,
    pub facing_direction: bool,
}

} // verus!
