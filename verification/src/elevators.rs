//! Elevators and spawn rooms: where each transporter sits, and where the
//! player can start.

use vstd::prelude::*;

verus! {

/// One elevator of the disc: the container and area holding it, its script
/// id, and the string tables naming it to the player.
#[derive(Clone, Debug)]
pub struct Elevator {
    pub pak_name: String,
    pub name: String,
    pub mlvl: u32,
    pub mrea: u32,
    pub mrea_idx: u32,
    pub scly_id: u32,
    pub room_strg: u32,
    pub hologram_strg: u32,
    pub control_strg: u32,
}

/// Where the player appears after loading: a container, a world and an
/// area.
#[derive(Clone, Debug)]
pub struct SpawnRoom {
    pub pak_name: String,
    pub mlvl: u32,
    pub mrea: u32,
    pub mrea_idx: u32,
}

/// The landing-site area id of the overworld.
pub const LANDING_SITE_MREA: u32 = 0xB2701146;

/// The frigate's first playable area id.
pub const FRIGATE_SPAWN_MREA: u32 = 0x93668996;

/// The ending cinema area id.
pub const END_CINEMA_MREA: u32 = 0xB4B41C48;

impl SpawnRoom {
    /// The default start: the overworld landing site.
    pub fn landing_site_spawn_room() -> (r: SpawnRoom)
        ensures
            r.mlvl == crate::door_meta::World::TallonOverworld.spec_mlvl(),
            r.mrea == LANDING_SITE_MREA,
            r.mrea_idx == 0,
    {
        SpawnRoom {
            pak_name: String::from_str("Metroid4.pak"),
            mlvl: crate::door_meta::World::TallonOverworld.mlvl(),
            mrea: LANDING_SITE_MREA,
            mrea_idx: 0,
        }
    }

    /// The frigate's opening room, used when the escape sequence is kept.
    pub fn frigate_spawn_room() -> (r: SpawnRoom)
        ensures
            r.mlvl == crate::door_meta::World::FrigateOrpheon.spec_mlvl(),
            r.mrea == FRIGATE_SPAWN_MREA,
    {
        SpawnRoom {
            pak_name: String::from_str("Metroid1.pak"),
            mlvl: crate::door_meta::World::FrigateOrpheon.mlvl(),
            mrea: FRIGATE_SPAWN_MREA,
            mrea_idx: 0,
        }
    }
}

impl Elevator {
    /// The pseudo-elevator that sends the player to the ending cinema, used
    /// when the final fight is skipped.
    pub fn end_game_elevator() -> (r: Elevator)
        ensures
            r.mrea == END_CINEMA_MREA,
    {
        Elevator {
            pak_name: String::from_str("Metroid8.pak"),
            name: String::from_str("End of Game"),
            mlvl: 0x13D79165,
            mrea: END_CINEMA_MREA,
            mrea_idx: 0,
            scly_id: 0,
            room_strg: 0xFFFFFFFF,
            hologram_strg: 0xFFFFFFFF,
            control_strg: 0xFFFFFFFF,
        }
    }
}

} // verus!
