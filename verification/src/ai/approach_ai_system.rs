use vstd::prelude::*;
use crate::components::WantToMove;
use crate::map::WorldMap;

verus! {

/// The step a creature takes toward its target along a found path: the offset
/// to the second square of the path (the first is where it stands). No step
/// when no path was found or the path has no second square.
pub open spec fn spec_approach_move(width: int, pos: (i32, i32), success: bool, steps: Seq<i32>) -> Option<WantToMove> {
    if success && steps.len() > 1 {
        Some(WantToMove {
            delta_x: ((steps[1] as int) % width - pos.0) as i32,
            delta_y: ((steps[1] as int) / width - pos.1) as i32,
        })
    } else {
        None
    }
}

/// The inputs on which the step can be computed.
pub open spec fn approach_in_range(width: int, pos: (i32, i32), success: bool, steps: Seq<i32>) -> bool {
    success && steps.len() > 1 ==> {
        &&& 0 <= steps[1]
        &&& i32::MIN <= (steps[1] as int) % width - pos.0 <= i32::MAX
        &&& i32::MIN <= (steps[1] as int) / width - pos.1 <= i32::MAX
    }
}

/// The move decision of `ApproachAI` for one creature, once the path is known.
pub fn approach_move(map: &WorldMap, pos: (i32, i32), path_success: bool, steps: &Vec<i32>) -> (r: Option<WantToMove>)
    requires
        0 < map.width,
        approach_in_range(map.width as int, pos, path_success, steps@),
    ensures
        r == spec_approach_move(map.width as int, pos, path_success, steps@),
{
    if path_success && steps.len() > 1 {
        let (dest_x, dest_y) = map.idx_xy(steps[1] as usize);
        let delta_x = dest_x - pos.0;
        let delta_y = dest_y - pos.1;
        Some(WantToMove { delta_x, delta_y })
    } else {
        None
    }
}

} // verus!
