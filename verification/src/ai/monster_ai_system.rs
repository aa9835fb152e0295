use vstd::prelude::*;
use crate::components::Ent;
use crate::map::{WorldMap, square_number, numberable};
use crate::ai::sighting::contains_entity;

verus! {

/// Square `idx` lists an online player.
pub open spec fn player_on(content: Map<usize, Vec<Ent>>, idx: usize, players: Seq<Ent>) -> bool {
    content.contains_key(idx) && exists|k: int|
        0 <= k < content[idx]@.len() && players.contains(#[trigger] content[idx]@[k])
}

/// Among the first `upto` visible squares, the last that lists an online player
/// (squares numbered as `xy_idx` numbers them).
pub open spec fn last_player_square(
    content: Map<usize, Vec<Ent>>,
    width: i32,
    visible: Seq<(i32, i32)>,
    players: Seq<Ent>,
    upto: int,
) -> Option<usize>
    decreases upto,
{
    if upto <= 0 {
        None
    } else {
        let idx = square_number(width, visible[upto - 1].0, visible[upto - 1].1) as usize;
        if player_on(content, idx, players) {
            Some(idx)
        } else {
            last_player_square(content, width, visible, players, upto - 1)
        }
    }
}

/// The square a monster wants to approach: the last of its visible squares on
/// which an online player stands, if any.
pub fn monster_target(map: &WorldMap, visible: &Vec<(i32, i32)>, players: &Vec<Ent>) -> (r: Option<usize>)
    requires
        forall|i: int| 0 <= i < visible@.len() ==> numberable(map.width, #[trigger] visible@[i].0, visible@[i].1),
    ensures
        r == last_player_square(map.tile_content@, map.width, visible@, players@, visible@.len() as int),
{
    let mut target: Option<usize> = None;
    let mut i: usize = 0;
    while i < visible.len()
        invariant
            0 <= i <= visible@.len(),
            forall|q: int| 0 <= q < visible@.len() ==> numberable(map.width, #[trigger] visible@[q].0, visible@[q].1),
            target == last_player_square(map.tile_content@, map.width, visible@, players@, i as int),
        decreases visible.len() - i,
    {
        let (x, y) = visible[i];
        proof { assert(numberable(map.width, visible@[i as int].0, visible@[i as int].1)); }
        let idx = map.xy_idx(x, y);
        if let Some(tile_content) = map.tile_content.get(&idx) {
            let mut j: usize = 0;
            let mut found = false;
            while j < tile_content.len()
                invariant
                    0 <= j <= tile_content@.len(),
                    found <==> exists|k: int| 0 <= k < j && players@.contains(#[trigger] tile_content@[k]),
                decreases tile_content.len() - j,
            {
                if contains_entity(players, tile_content[j]) {
                    found = true;
                }
                j = j + 1;
            }
            if found {
                target = Some(idx);
            }
        }
        i = i + 1;
    }
    target
}

} // verus!
