//! Verified game logic of a short office-horror game: the level cycle, the
//! targetname index used by scripting, interactable props, objectives, asset
//! load tracking and the small decision rules that the engine systems run.

pub mod asset_tracking;
pub mod audio;
pub mod dialogue;
pub mod door;
pub mod entity_index;
pub mod fever;
pub mod interactables;
pub mod interaction;
pub mod level;
pub mod level_select;
pub mod npc;
pub mod objectives;
pub mod reflection;
pub mod scripting;
