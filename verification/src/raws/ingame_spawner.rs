use vstd::prelude::*;
use crate::raws::rawmaster::{item_in_bounds, item_of, prop_in_bounds, prop_of, spawn_square, RawMaster, SpawnType};
use crate::raws::spawn_parts::{ingame_item_parts, ingame_item_plan, ingame_prop_parts, ingame_prop_plan, Part};

verus! {

/// Spawns, during a turn, the prop named `key` at `pos`: none if no prop
/// has that name; else its components (marked for saving, without an
/// identifier).
pub fn spawn_named_prop_ingame(raws: &RawMaster, key: &String, pos: SpawnType) -> (r: Option<Vec<Part>>)
    requires
        raws.wf(),
        prop_in_bounds(raws, key@),
    ensures
        r is Some <==> raws.prop_index@.contains_key(key@),
        r matches Some(v) ==> v@ == ingame_prop_plan(prop_of(raws, key@), spawn_square(pos).0, spawn_square(pos).1),
{
    match raws.prop_index.get(key) {
        Some(i) => match pos {
            SpawnType::AtPosition { x, y } => Some(ingame_prop_parts(&raws.raws.props[i], x, y)),
        },
        None => None,
    }
}

/// Spawns, during a turn, the item named `key` at `pos`: none if no item
/// has that name; else its components.
pub fn spawn_named_item_ingame(raws: &RawMaster, key: &String, pos: SpawnType) -> (r: Option<Vec<Part>>)
    requires
        raws.wf(),
        item_in_bounds(raws, key@),
    ensures
        r is Some <==> raws.item_index@.contains_key(key@),
        r matches Some(v) ==> v@ == ingame_item_plan(item_of(raws, key@), spawn_square(pos).0, spawn_square(pos).1),
{
    match raws.item_index.get(key) {
        Some(i) => match pos {
            SpawnType::AtPosition { x, y } => Some(ingame_item_parts(&raws.raws.items[i], x, y)),
        },
        None => None,
    }
}

} // verus!
