use vstd::prelude::*;

verus! {

/// Lines shown to the player.
pub struct GameLog {
    pub entries: Vec<String>,
}

/// Lines of world statistics.
pub struct WorldStatLog {
    pub entries: Vec<String>,
}

/// Lines of the general log.
pub struct GeneralLog {
    pub entries: Vec<String>,
}

} // verus!
