use vstd::prelude::*;
use crate::map::WorldMap;

verus! {

/// The map part of deleting entities: the square of each deleted entity that
/// has a position is marked dirty, in order, so the index drops it.
pub fn note_deleted_positions(map: &mut WorldMap, victims: &Vec<Option<(i32, i32)>>)
    ensures
        final(map).dirty@ == old(map).dirty@ + victims@.filter(|v: Option<(i32, i32)>| v is Some).map_values(
            |v: Option<(i32, i32)>| v->0,
        ),
        final(map).width == old(map).width,
        final(map).height == old(map).height,
        final(map).blocked@ == old(map).blocked@,
        final(map).tile_content@ == old(map).tile_content@,
        final(map).rooms@ == old(map).rooms@,
        final(map).depth == old(map).depth,
{
    let mut i: usize = 0;
    proof {
        reveal_with_fuel(Seq::filter, 1);
        assert(victims@.take(0) =~= Seq::<Option<(i32, i32)>>::empty());
        assert(old(map).dirty@ + Seq::<(i32, i32)>::empty() =~= old(map).dirty@);
    }
    while i < victims.len()
        invariant
            0 <= i <= victims@.len(),
            map.dirty@ == old(map).dirty@ + victims@.take(i as int).filter(|v: Option<(i32, i32)>| v is Some).map_values(
                |v: Option<(i32, i32)>| v->0,
            ),
            map.width == old(map).width,
            map.height == old(map).height,
            map.blocked@ == old(map).blocked@,
            map.tile_content@ == old(map).tile_content@,
            map.rooms@ == old(map).rooms@,
            map.depth == old(map).depth,
        decreases victims.len() - i,
    {
        proof {
            reveal_with_fuel(Seq::filter, 1);
            assert(victims@.take(i + 1).drop_last() =~= victims@.take(i as int));
        }
        if let Some(pos) = victims[i] {
            let ghost before = map.dirty@;
            map.dirty.push(pos);
            proof {
                let f = victims@.take(i as int).filter(|v: Option<(i32, i32)>| v is Some);
                assert(f.push(victims@[i as int]).map_values(|v: Option<(i32, i32)>| v->0)
                    =~= f.map_values(|v: Option<(i32, i32)>| v->0).push(pos));
                assert(map.dirty@ =~= old(map).dirty@ + f.push(victims@[i as int]).map_values(|v: Option<(i32, i32)>| v->0));
            }
        }
        i = i + 1;
    }
    assert(victims@.take(victims@.len() as int) =~= victims@);
}

} // verus!
