pub mod ingame_spawner;
pub mod item_structs;
pub mod prop_structs;
pub mod rawmaster;
pub mod spawn_parts;

pub use item_structs::{Item, Mob, RawViewshed, Renderable, SexeChoice, Shield, Weapon};
pub use prop_structs::Prop;
pub use rawmaster::{RawMaster, RawWarning, Raws, SpawnKind, SpawnTableEntry, SpawnType};
