//! The one-shot batch pipeline: read the configuration, build the
//! dependency pools, register every patch in order, and run the scheduler
//! over the disc model. The first failure anywhere aborts the whole run.

use vstd::prelude::*;

use crate::cache::{
    collect_pickup_resources, collect_door_resources, add_skip_hudmemos_strgs, CacheSources,
};
use crate::door_meta::{DoorType, Weights, World};
use crate::elevators::{Elevator, SpawnRoom};
use crate::ids::{ResKey, FOURCC_STRG, FOURCC_SAVW, FOURCC_TXTR, FOURCC_FRME, FOURCC_MAPA};
use crate::patcher::{GcDisc, GcDiscHeader, PrimePatcher};
use crate::patches::{
    PatchOp, PatchContext, ArtifactHintBehavior, IsoFormat, calculate_door_type,
};
use crate::pickup_meta::{PickupType, PickupTable, PakLocations};
use crate::pool::Resource;
use crate::scly::Vec3;
use crate::text::{str_eq, split_once_colon, starts_with_str, lowercase_str, replace_str};

verus! {

/// The supported revisions of the title.
#[derive(Clone, Copy, Debug, PartialEq, Eq, Structural)]
pub enum Version {
    Ntsc0_00,
    Ntsc0_01,
    Ntsc0_02,
    Pal,
}

impl Version {
    /// The revision's display name.
    pub fn as_string(&self) -> (r: &'static str) {
        match self {
            Version::Ntsc0_00 => "1.00",
            Version::Ntsc0_01 => "1.01",
            Version::Ntsc0_02 => "1.02",
            Version::Pal => "pal",
        }
    }
}

/// The six header bytes identifying the NTSC release.
pub open spec fn spec_ntsc_game_id() -> Seq<u8> {
    seq![0x47u8, 0x4Du8, 0x38u8, 0x45u8, 0x30u8, 0x31u8]
}

/// The six header bytes identifying the PAL release.
pub open spec fn spec_pal_game_id() -> Seq<u8> {
    seq![0x47u8, 0x4Du8, 0x38u8, 0x50u8, 0x30u8, 0x31u8]
}

/// Which revision the disc header identifies, or an error for any disc
/// that is not a known revision of the title.
pub open spec fn spec_detect_version(h: GcDiscHeader) -> Option<Version> {
    if h.game_id@ == spec_ntsc_game_id() && h.disc_id == 0 && h.version == 0 {
        Some(Version::Ntsc0_00)
    } else if h.game_id@ == spec_ntsc_game_id() && h.disc_id == 0 && h.version == 1 {
        Some(Version::Ntsc0_01)
    } else if h.game_id@ == spec_ntsc_game_id() && h.disc_id == 0 && h.version == 2 {
        Some(Version::Ntsc0_02)
    } else if h.game_id@ == spec_pal_game_id() && h.disc_id == 0 && h.version == 0 {
        Some(Version::Pal)
    } else {
        None
    }
}

/// Identify the disc's revision from its header, or refuse a disc that is
/// not a known revision of the title.
pub fn detect_version(disc: &GcDisc) -> (r: Result<Version, String>)
    ensures
        match r {
            Ok(v) => spec_detect_version(disc.header) == Some(v),
            Err(_) => spec_detect_version(disc.header) is None,
        },
{
    let h = &disc.header;
    if h.game_id.len() != 6 {
        proof {
            assert(h.game_id@.len() != 6);
            assert(spec_ntsc_game_id().len() == 6);
            assert(spec_pal_game_id().len() == 6);
        }
        return Err(String::from_str("the input image is not a known revision of the title"));
    }
    let ntsc = h.game_id[0] == 0x47 && h.game_id[1] == 0x4D && h.game_id[2] == 0x38
        && h.game_id[3] == 0x45 && h.game_id[4] == 0x30 && h.game_id[5] == 0x31;
    let pal = h.game_id[0] == 0x47 && h.game_id[1] == 0x4D && h.game_id[2] == 0x38
        && h.game_id[3] == 0x50 && h.game_id[4] == 0x30 && h.game_id[5] == 0x31;
    proof {
        assert(ntsc == (h.game_id@ =~= spec_ntsc_game_id()));
        assert(pal == (h.game_id@ =~= spec_pal_game_id()));
    }
    if ntsc && h.disc_id == 0 && h.version == 0 {
        Ok(Version::Ntsc0_00)
    } else if ntsc && h.disc_id == 0 && h.version == 1 {
        Ok(Version::Ntsc0_01)
    } else if ntsc && h.disc_id == 0 && h.version == 2 {
        Ok(Version::Ntsc0_02)
    } else if pal && h.disc_id == 0 && h.version == 0 {
        Ok(Version::Pal)
    } else {
        Err(String::from_str("the input image is not a known revision of the title"))
    }
}

/// A container-and-area pair naming one patch target.
#[derive(Clone, Debug)]
pub struct AreaRef {
    pub pak_name: String,
    pub mrea: u32,
}

/// A container-and-resource pair naming one patch target.
#[derive(Clone, Debug)]
pub struct ResourceRef {
    pub pak_name: String,
    pub id: u32,
    pub fourcc: u32,
}

/// The fixed locations the version-independent patches target. The mapping
/// from asset names to ids is the codec collaborator's concern, so the ids
/// arrive here as plain values.
#[derive(Clone, Debug)]
pub struct FixedIds {
    pub artifact_totem_strgs: Vec<ResourceRef>,
    pub stonehenge: AreaRef,
    pub main_strg: ResourceRef,
    pub main_menu_frme: ResourceRef,
    pub credits_strg: ResourceRef,
    pub mines_savw: ResourceRef,
    pub save_banner_txtr: ResourceRef,
    pub intro_hanger: AreaRef,
    pub sunchamber: AreaRef,
    pub sun_tower: AreaRef,
    pub temple_security: AreaRef,
    pub ridley_shorelines: AreaRef,
    pub vent_shaft_b: AreaRef,
    pub lab_hydra: AreaRef,
    pub research_core: AreaRef,
    pub observatory: AreaRef,
    pub mines_security: AreaRef,
    pub gravity_chamber: AreaRef,
    pub elite_research: AreaRef,
    pub elite_control_pirates: AreaRef,
    pub main_quarry: AreaRef,
    pub geothermal: AreaRef,
    pub hive_totem: AreaRef,
    pub ruined_courtyard: AreaRef,
    pub ore_processing: AreaRef,
    pub main_plaza_vault: AreaRef,
    pub main_plaza_mapa: ResourceRef,
    pub end_cinema: AreaRef,
    pub landing_site: AreaRef,
}

/// One per-door-location override from the configuration: by world, room
/// name and dock index, a variant name or "default".
#[derive(Clone, Debug)]
pub struct DoorOverride {
    pub world_idx: usize,
    pub room_name: String,
    pub dock: usize,
    pub value: String,
}

/// The whole run's configuration, as plain values.
#[derive(Clone, Debug)]
pub struct ParsedConfig {
    pub layout_string: String,
    pub is_item_randomized: Option<bool>,
    pub pickup_layout: Vec<u8>,
    pub elevator_layout: Vec<u8>,
    pub elevator_layout_override: Vec<String>,
    pub starting_room: String,
    pub item_seed: u64,
    pub seed: u64,
    pub door_weights: Weights,
    pub excluded_doors: Vec<DoorOverride>,
    pub patch_map: bool,
    pub iso_format: IsoFormat,
    pub skip_frigate: bool,
    pub skip_hudmenus: bool,
    pub keep_fmvs: bool,
    pub obfuscate_items: bool,
    pub nonvaria_heat_damage: bool,
    pub staggered_suit_damage: bool,
    pub auto_enabled_elevators: bool,
    pub powerbomb_lockpick: bool,
    pub quiet: bool,
    pub tiny_elvetator_samus: bool,
    pub skip_impact_crater: bool,
    pub enable_vault_ledge_door: bool,
    pub artifact_hint_behavior: ArtifactHintBehavior,
    pub patch_vertical_to_blue: bool,
    pub starting_items: Option<u64>,
    pub starting_items_frigate: Option<u64>,
    pub comment: String,
    pub main_menu_message: String,
    pub quickplay: bool,
    pub bnr_game_name: Option<String>,
    pub bnr_developer: Option<String>,
    pub bnr_game_name_full: Option<String>,
    pub bnr_developer_full: Option<String>,
    pub bnr_description: Option<String>,
    pub pal_override: bool,
}

/// Resolve a "world:room" string against the room database, matching the
/// world by case-insensitive prefix and the room by case-insensitive name.
pub fn spawn_room_from_string(room_string: &String, rooms: &Vec<PakLocations>) -> (r: Result<
    SpawnRoom,
    String,
>)
    ensures
        r matches Ok(sr) ==> exists|p: int, i: int|
            {
                &&& 0 <= p < rooms@.len()
                &&& 0 <= i < rooms@[p].rooms@.len()
                &&& (#[trigger] rooms@[p].rooms@[i]).room_id == sr.mrea
                &&& sr.mrea_idx == i
                &&& sr.pak_name@ == rooms@[p].pak_name@
            },
{
    let parts = match split_once_colon(room_string.as_str()) {
        Some(p) => p,
        None => {
            return Err(String::from_str("a spawn room is written world:room"));
        },
    };
    let world_name = lowercase_str(parts.0);
    let room_name = lowercase_str(parts.1);
    let mut p: usize = 0;
    while p < rooms.len()
        decreases rooms@.len() - p,
    {
        let pak = &rooms[p];
        match World::from_pak(pak.pak_name.as_str()) {
            Some(world) => {
                let world_lower = lowercase_str(world.as_string());
                if starts_with_str(world_lower.as_str(), world_name.as_str()) {
                    let mut i: usize = 0;
                    while i < pak.rooms.len()
                        invariant
                            p < rooms@.len(),
                            pak.rooms@ == rooms@[p as int].rooms@,
                            pak.pak_name@ == rooms@[p as int].pak_name@,
                        decreases pak.rooms@.len() - i,
                    {
                        let info = &pak.rooms[i];
                        let info_lower = lowercase_str(info.name.as_str());
                        if str_eq(info_lower.as_str(), room_name.as_str()) {
                            if i > u32::MAX as usize {
                                return Err(String::from_str("room index out of range"));
                            }
                            proof {
                                assert(rooms@[p as int].rooms@[i as int].room_id
                                    == pak.rooms@[i as int].room_id);
                            }
                            return Ok(
                                SpawnRoom {
                                    pak_name: String::from_str(pak.pak_name.as_str()),
                                    mlvl: world.mlvl(),
                                    mrea: info.room_id,
                                    mrea_idx: i as u32,
                                },
                            );
                        }
                        i += 1;
                    }
                }
            },
            None => {},
        }
        p += 1;
    }
    Err(String::from_str("no room of that name exists in that world"))
}

/// Every per-container room index fits the area-index field.
pub open spec fn spec_rooms_indexable(rooms: Seq<PakLocations>) -> bool {
    forall|p: int| 0 <= p < rooms.len() ==> (#[trigger] rooms[p]).rooms@.len() <= u32::MAX
}

/// The area index and name-string id of the room with the given area id:
/// an error exactly when no container's room list carries the id.
pub fn room_strg_id_from_mrea_id(mrea_id: u32, rooms: &Vec<PakLocations>) -> (r: Result<
    (u32, u32),
    String,
>)
    requires
        spec_rooms_indexable(rooms@),
    ensures
        r is Ok <==> exists|p: int, i: int|
            0 <= p < rooms@.len() && 0 <= i < rooms@[p].rooms@.len()
                && (#[trigger] rooms@[p].rooms@[i]).room_id == mrea_id,
        r matches Ok(pair) ==> exists|p: int, i: int|
            0 <= p < rooms@.len() && 0 <= i < rooms@[p].rooms@.len()
                && (#[trigger] rooms@[p].rooms@[i]).room_id == mrea_id && pair.0 == i
                && pair.1 == rooms@[p].rooms@[i].name_id,
{
    let mut p: usize = 0;
    while p < rooms.len()
        invariant
            spec_rooms_indexable(rooms@),
            p <= rooms@.len(),
            forall|q: int, i: int|
                0 <= q < p && 0 <= i < rooms@[q].rooms@.len()
                    ==> (#[trigger] rooms@[q].rooms@[i]).room_id != mrea_id,
        decreases rooms@.len() - p,
    {
        let pak = &rooms[p];
        let mut i: usize = 0;
        while i < pak.rooms.len()
            invariant
                spec_rooms_indexable(rooms@),
                p < rooms@.len(),
                i <= pak.rooms@.len(),
                pak.rooms@ == rooms@[p as int].rooms@,
                forall|j: int|
                    0 <= j < i ==> (#[trigger] pak.rooms@[j]).room_id != mrea_id,
            decreases pak.rooms@.len() - i,
        {
            if pak.rooms[i].room_id == mrea_id {
                proof {
                    assert(rooms@[p as int].rooms@[i as int].room_id == mrea_id);
                    assert(rooms@[p as int].rooms@.len() <= u32::MAX);
                }
                return Ok((i as u32, pak.rooms[i].name_id));
            }
            i += 1;
        }
        proof {
            assert(forall|j: int|
                0 <= j < rooms@[p as int].rooms@.len()
                    ==> (#[trigger] rooms@[p as int].rooms@[j]).room_id != mrea_id);
        }
        p += 1;
    }
    Err(String::from_str("no room carries that area id"))
}

/// Doors that sit in a floor or ceiling, by room id and dock index; these
/// need the vertical frame variants.
pub fn is_vertical_door(room_id: u32, dock: usize) -> bool {
    (room_id == 0x11BD63B7 && dock == 0) || (room_id == 0x0D72F1F7 && dock == 1) || (room_id
        == 0xFB54A0CB && dock == 4) || (room_id == 0xE1981EFC && dock == 0) || (room_id
        == 0x43E4CC25 && dock == 1) || (room_id == 0x37BBB33C && dock == 1) || (room_id
        == 0xD8E905DD && dock == 1) || (room_id == 0x21B4BFF6 && dock == 1) || (room_id
        == 0x3F375ECC && dock == 2) || (room_id == 0xF517A1EA && dock == 1) || (room_id
        == 0x8A97BB54 && dock == 1) || (room_id == 0xA20201D4) || (room_id == 0x956F1552 && dock
        == 1) || (room_id == 0xC50AF17A && dock == 2) || (room_id == 0x90709AAC && dock == 1)
}

/// The configured override for one door location, or "default".
fn door_override_value(
    config: &ParsedConfig,
    world_idx: usize,
    room_name: &String,
    dock: usize,
) -> String {
    let mut i: usize = 0;
    while i < config.excluded_doors.len()
        decreases config.excluded_doors@.len() - i,
    {
        let entry = &config.excluded_doors[i];
        if entry.world_idx == world_idx && entry.dock == dock && str_eq(
            entry.room_name.as_str(),
            room_name.as_str(),
        ) {
            return String::from_str(entry.value.as_str());
        }
        i += 1;
    }
    String::from_str("default")
}

/// The head and tail that surround the hidden room's name in the
/// shuffled generic hint template numbered `t` (any other number maps to
/// the first).
fn generic_template_parts(t: u32) -> (r: (&'static str, &'static str)) {
    match t {
        1 => (
            "I'm not sure where the artifact exactly is, but like, you can try the &push;&main-color=#43CD80;",
            "&pop;.",
        ),
        2 => (
            "Hey man, so some of the Chozo dudes are telling me that they're might be a thing in the &push;&main-color=#43CD80;",
            "&pop;. Just sayin'.",
        ),
        3 => (
            "Uhh umm... Where was it...? Uhhh, errr, it's definitely in the &push;&main-color=#43CD80;",
            "&pop;! I am 100% not totally making it up...",
        ),
        4 => (
            "Some say it may be in the &push;&main-color=#43CD80;",
            "&pop;. Others say that you have no business here. Please leave me alone.",
        ),
        5 => (
            "So a buddy of mine and I were drinking one night and we thought 'Hey, wouldn't be crazy if we put it at the &push;&main-color=#43CD80;",
            "&pop;?' So we did and it took both of us just to get it there!",
        ),
        6 => (
            "So, uhhh, I kind of got a little lazy and I might have just dropped mine somewhere... Maybe it's in the &push;&main-color=#43CD80;",
            "&pop;? Who knows.",
        ),
        7 => (
            "I uhhh... was a little late to the party and someone had to run out and hide both mine and hers. I owe her one. She told me it might be in the &push;&main-color=#43CD80;",
            "&pop;, so you're going to have to trust her on this one.",
        ),
        8 => (
            "Okay, so this jerk forgets to hide his and I had to hide it for him too. So, I just tossed his somewhere and made up a name for the room. This is literally saving the planet - how can anyone forget that? Anyway, mine is in the &push;&main-color=#43CD80;",
            "&pop;, so go check it out. I'm never doing this again...",
        ),
        9 => (
            "To be honest, I don't know if it was a Missile Expansion or not. Maybe it was... We'll just go with that: There's a Missile Expansion at the &push;&main-color=#43CD80;",
            "&pop;.",
        ),
        10 => (
            "Hear the words of Oh Leer, last Chozo of the Artifact Temple. May they serve you well, that you may find a key lost to our cause... Alright, whatever. It's at the &push;&main-color=#43CD80;",
            "&pop;.",
        ),
        11 => (
            "I kind of just played Frisbee with mine. It flew and landed too far so I didn't want to walk over and grab it because I was lazy. It's in the &push;&main-color=#43CD80;",
            "&pop; if you want to find it.",
        ),
        _ => (
            "I mean, maybe it'll be in the &push;&main-color=#43CD80;",
            "&pop;. I forgot, to be honest.",
        ),
    }
}

/// A hint line never shown empty: it always carries text and the string
/// terminator.
pub open spec fn spec_terminated_line(s: Seq<char>) -> bool {
    s.len() > 0 && s.last() == '\0'
}

/// The twelve hint lines shown by the Artifact Temple totems: one per
/// artifact, naming the room that hides it. The temple's own flavor line is
/// used up before the shuffled generic pool is consulted, the first
/// location of a duplicated artifact wins, and an absent artifact gets a
/// fixed warning line. Every line is non-empty and NUL-terminated.
pub fn build_artifact_temple_totem_scan_strings(
    pickup_layout: &Vec<PickupType>,
    rng: &mut rand::rngs::StdRng,
    rooms: &Vec<PakLocations>,
) -> (r: Vec<String>)
    ensures
        r@.len() == 12,
        forall|k: int| 0 <= k < 12 ==> spec_terminated_line((#[trigger] r@[k])@),
{
    proof {
        reveal_strlit("\0");
    }
    let mut order: Vec<u32> = Vec::new();
    let mut t: u32 = 0;
    while t < 12
        invariant
            t <= 12,
            order@.len() == t,
        decreases 12 - t,
    {
        order.push(t);
        t += 1;
    }
    crate::rng::shuffle_u32s(rng, &mut order);
    let mut generic_next: usize = 0;
    let mut temple_specific_left: bool = true;

    let mut names: Vec<(u32, String)> = Vec::new();
    let mut p: usize = 0;
    while p < rooms.len()
        decreases rooms@.len() - p,
    {
        let pak = &rooms[p];
        let mut i: usize = 0;
        while i < pak.rooms.len()
            invariant
                p < rooms@.len(),
            decreases pak.rooms@.len() - i,
        {
            let info = &pak.rooms[i];
            let mut k: usize = 0;
            while k < info.pickup_locations.len()
                invariant
                    p < rooms@.len(),
                    i < pak.rooms@.len(),
                decreases info.pickup_locations@.len() - k,
            {
                names.push((info.room_id, String::from_str(info.name.as_str())));
                k += 1;
            }
            i += 1;
        }
        p += 1;
    }

    let mut scan_text: Vec<String> = Vec::new();
    let mut s: usize = 0;
    while s < 12
        invariant
            s <= 12,
            scan_text@.len() == s,
            forall|k: int| 0 <= k < s ==> (#[trigger] scan_text@[k])@.len() == 0,
        decreases 12 - s,
    {
        scan_text.push(String::new());
        s += 1;
    }

    let count = if pickup_layout.len() < names.len() {
        pickup_layout.len()
    } else {
        names.len()
    };
    let mut j: usize = 0;
    while j < count
        invariant
            count <= pickup_layout@.len(),
            count <= names@.len(),
            j <= count,
            scan_text@.len() == 12,
            order@.len() == 12,
            generic_next <= 12,
            forall|k: int|
                0 <= k < 12 ==> ((#[trigger] scan_text@[k])@.len() == 0
                    || spec_terminated_line(scan_text@[k]@)),
        decreases count - j,
    {
        proof {
            reveal_strlit("\0");
        }
        let pt = pickup_layout[j];
        if pt.is_artifact() {
            let artifact_id = pt.idx() - 23;
            if scan_text[artifact_id].as_str().is_empty() {
                let room_id = names[j].0;
                let line: String = if room_id == 0x2398E906 && temple_specific_left {
                    temple_specific_left = false;
                    String::from_str(pt.name()).concat(
                        " awaits those who truly seek it.",
                    ).concat("\0")
                } else {
                    let template = if generic_next < 12 {
                        order[generic_next]
                    } else {
                        0
                    };
                    generic_next = if generic_next < 12 {
                        generic_next + 1
                    } else {
                        generic_next
                    };
                    let (head, tail) = generic_template_parts(template);
                    String::from_str(head).concat(names[j].1.as_str()).concat(tail).concat(
                        "\0",
                    )
                };
                proof {
                    assert(line@.len() > 0 && line@.last() == '\0');
                }
                scan_text.remove(artifact_id);
                scan_text.insert(artifact_id, line);
            }
        }
        j += 1;
    }

    let mut s: usize = 0;
    while s < 12
        invariant
            scan_text@.len() == 12,
            s <= 12,
            forall|k: int|
                0 <= k < 12 ==> ((#[trigger] scan_text@[k])@.len() == 0
                    || spec_terminated_line(scan_text@[k]@)),
            forall|k: int| 0 <= k < s ==> spec_terminated_line((#[trigger] scan_text@[k])@),
        decreases 12 - s,
    {
        proof {
            reveal_strlit("\0");
        }
        if scan_text[s].as_str().is_empty() {
            let line = String::from_str(
                "Artifact not present. This layout may not be completable.",
            ).concat("\0");
            proof {
                assert(line@.len() > 0 && line@.last() == '\0');
            }
            scan_text.remove(s);
            scan_text.insert(s, line);
        }
        s += 1;
    }
    scan_text
}

/// The credits line listing where each major item ended up.
pub fn build_credits_string(
    pickup_layout: &Vec<PickupType>,
    rooms: &Vec<PakLocations>,
) -> (r: String)
{
    let mut names: Vec<String> = Vec::new();
    let mut p: usize = 0;
    while p < rooms.len()
        decreases rooms@.len() - p,
    {
        let pak = &rooms[p];
        let mut i: usize = 0;
        while i < pak.rooms.len()
            invariant
                p < rooms@.len(),
            decreases pak.rooms@.len() - i,
        {
            let info = &pak.rooms[i];
            let mut k: usize = 0;
            while k < info.pickup_locations.len()
                invariant
                    p < rooms@.len(),
                    i < pak.rooms@.len(),
                decreases info.pickup_locations@.len() - k,
            {
                names.push(String::from_str(info.name.as_str()));
                k += 1;
            }
            i += 1;
        }
        p += 1;
    }

    let mut out = String::from_str(
        "\n\n\n\n\n\n\n&push;&font=C29C51F1;&main-color=#89D6FF;Major Item Locations&pop;",
    );
    let majors = PickupType::iter();
    let mut m: usize = 0;
    while m < majors.len()
        decreases majors@.len() - m,
    {
        let pt = majors[m];
        if !pt.is_artifact() && !(pt == PickupType::Missile) && !(pt == PickupType::EnergyTank)
            && !(pt == PickupType::PowerBombExpansion) && !(pt == PickupType::Nothing) {
            let count = if pickup_layout.len() < names.len() {
                pickup_layout.len()
            } else {
                names.len()
            };
            let mut j: usize = 0;
            while j < count
                invariant
                    count <= pickup_layout@.len(),
                    count <= names@.len(),
                decreases count - j,
            {
                if pickup_layout[j] == pt {
                    out = out.concat("\n\n").concat(pt.name()).concat(": ").concat(
                        names[j].as_str(),
                    );
                    j = count;
                } else {
                    j += 1;
                }
            }
        }
        m += 1;
    }
    out.concat("\n\n\n\n\0")
}

/// The little-endian bytes of `v`.
pub open spec fn u32_le(v: u32) -> Seq<u8> {
    seq![
        (v & 0xFF) as u8,
        ((v >> 8) & 0xFF) as u8,
        ((v >> 16) & 0xFF) as u8,
        ((v >> 24) & 0xFF) as u8,
    ]
}

/// Relies on ssmarshal::serialize: integers are written fixed-width
/// little-endian, and a tuple's fields are written in order.
#[verifier::external_body]
fn marshal_u32_pair(a: u32, b: u32) -> (r: Option<Vec<u8>>)
    ensures
        r matches Some(v) ==> v@ == u32_le(a) + u32_le(b),
{
    let mut buf = [0u8; 8];
    match ssmarshal::serialize(&mut buf, &(a, b)) {
        Ok(8) => Some(buf.to_vec()),
        _ => Option::None,
    }
}

/// The quickplay side-channel file: the spawn world and area when quickplay
/// is on, and the sentinel pair when it is off.
pub fn create_rel_config_file(spawn_room: &SpawnRoom, quickplay: bool) -> (r: Result<
    Vec<u8>,
    String,
>)
    ensures
        r matches Ok(v) ==> v@ == (if quickplay {
            u32_le(spawn_room.mlvl) + u32_le(spawn_room.mrea)
        } else {
            u32_le(0xFFFFFFFF) + u32_le(0xFFFFFFFF)
        }),
{
    let (mlvl, mrea): (u32, u32) = if quickplay {
        (spawn_room.mlvl, spawn_room.mrea)
    } else {
        (0xFFFFFFFF, 0xFFFFFFFF)
    };
    match marshal_u32_pair(mlvl, mrea) {
        Some(v) => Ok(v),
        None => Err(String::from_str("side-channel file serialization failed")),
    }
}

/// How many registrations the first `upto` elevators produce: none for a
/// destination-only elevator (an empty container name), otherwise the
/// transporter retarget, the three naming strings, and the optional
/// auto-enable timer.
pub open spec fn spec_elevator_reg_count(elevators: Seq<Elevator>, upto: int, auto: bool) -> int
    decreases upto,
{
    if upto <= 0 {
        0
    } else {
        spec_elevator_reg_count(elevators, upto - 1, auto) + (
        if elevators[upto - 1].pak_name@.len() == 0 {
            0int
        } else if auto {
            5int
        } else {
            4int
        })
    }
}

/// Register the elevator patches: each shuffled destination, the optional
/// auto-enable, and the three strings naming the destination. An error
/// exactly when a destination name is missing for an elevator in play.
pub fn make_elevators_patch(
    patcher: &mut PrimePatcher,
    layout: &Vec<Elevator>,
    dest_names: &Vec<String>,
    auto_enabled_elevators: bool,
    tiny_elvetator_samus: bool,
    elevators: &Vec<Elevator>,
) -> (r: Result<(), String>)
    ensures
        final(patcher).regs@.len() >= old(patcher).regs@.len(),
        r is Ok <==> (if elevators@.len() < layout@.len() {
            elevators@.len() as int
        } else {
            layout@.len() as int
        }) <= dest_names@.len(),
        r is Ok ==> final(patcher).regs@.len() == old(patcher).regs@.len()
            + spec_elevator_reg_count(
            elevators@,
            if elevators@.len() < layout@.len() {
                elevators@.len() as int
            } else {
                layout@.len() as int
            },
            auto_enabled_elevators,
        ),
{
    let count = if elevators.len() < layout.len() {
        elevators.len()
    } else {
        layout.len()
    };
    let mut idx: usize = 0;
    while idx < count
        invariant
            count <= elevators@.len(),
            count <= layout@.len(),
            count == (if elevators@.len() < layout@.len() {
                elevators@.len() as int
            } else {
                layout@.len() as int
            }),
            idx <= count,
            idx <= dest_names@.len(),
            patcher.regs@.len() >= old(patcher).regs@.len(),
            patcher.regs@.len() == old(patcher).regs@.len() + spec_elevator_reg_count(
                elevators@,
                idx as int,
                auto_enabled_elevators,
            ),
        decreases count - idx,
    {
        if idx >= dest_names.len() {
            return Err(String::from_str("an elevator destination name is missing"));
        }
        let elv = &elevators[idx];
        let dest = &layout[idx];
        let dest_name = &dest_names[idx];
        if elv.pak_name.as_str().is_empty() {
        } else {
            patcher.add_scly_patch(
                String::from_str(elv.pak_name.as_str()),
                elv.mrea,
                PatchOp::SetTransporterDest {
                    scly_id: elv.scly_id,
                    mlvl: dest.mlvl,
                    mrea: dest.mrea,
                    tiny_samus: tiny_elvetator_samus,
                },
            );
            if auto_enabled_elevators {
                patcher.add_scly_patch(
                    String::from_str(elv.pak_name.as_str()),
                    elv.mrea,
                    PatchOp::AutoEnableElevator,
                );
            }
            let room_dest = replace_str(dest_name.as_str(), "\0", "\n");
            let hologram_name = replace_str(dest_name.as_str(), "\0", " ");
            let control_name = replace_str(dest_name.as_str(), "\0", " ");
            patcher.add_resource_patch(
                String::from_str(elv.pak_name.as_str()),
                ResKey { id: elv.room_strg, fourcc: FOURCC_STRG },
                PatchOp::ReplaceStrgSingle {
                    text: String::from_str("Transport to ").concat(room_dest.as_str()).concat(
                        "\0",
                    ),
                },
            );
            patcher.add_resource_patch(
                String::from_str(elv.pak_name.as_str()),
                ResKey { id: elv.hologram_strg, fourcc: FOURCC_STRG },
                PatchOp::ReplaceStrgSingle {
                    text: String::from_str("Access to &main-color=#FF3333;").concat(
                        hologram_name.as_str(),
                    ).concat(
                        " &main-color=#89D6FF;granted. Please step into the hologram.\0",
                    ),
                },
            );
            patcher.add_resource_patch(
                String::from_str(elv.pak_name.as_str()),
                ResKey { id: elv.control_strg, fourcc: FOURCC_STRG },
                PatchOp::ReplaceStrgSingle {
                    text: String::from_str("Transport to &main-color=#FF3333;").concat(
                        control_name.as_str(),
                    ).concat("&main-color=#89D6FF; active.\0"),
                },
            );
        }
        idx += 1;
    }
    Ok(())
}

/// An owned copy of a pickup location, for carrying in an operation.
fn dup_pickup_location(loc: &crate::pickup_meta::PickupLocation) -> (r:
    crate::pickup_meta::PickupLocation)
    ensures
        r.location == loc.location,
        r.attainment_audio == loc.attainment_audio,
        r.hudmemo == loc.hudmemo,
        r.post_pickup_relay_connections@ == loc.post_pickup_relay_connections@,
{
    let mut conns: Vec<crate::scly::Connection> = Vec::new();
    let mut i: usize = 0;
    while i < loc.post_pickup_relay_connections.len()
        invariant
            i <= loc.post_pickup_relay_connections@.len(),
            conns@ == loc.post_pickup_relay_connections@.subrange(0, i as int),
        decreases loc.post_pickup_relay_connections@.len() - i,
    {
        conns.push(loc.post_pickup_relay_connections[i]);
        proof {
            assert(conns@ =~= loc.post_pickup_relay_connections@.subrange(0, i as int + 1));
        }
        i += 1;
    }
    proof {
        assert(loc.post_pickup_relay_connections@.subrange(
            0,
            loc.post_pickup_relay_connections@.len() as int,
        ) =~= loc.post_pickup_relay_connections@);
    }
    crate::pickup_meta::PickupLocation {
        location: loc.location,
        attainment_audio: loc.attainment_audio,
        hudmemo: loc.hudmemo,
        post_pickup_relay_connections: conns,
    }
}

/// Copy a container name for a registration.
fn pak_string(s: &str) -> (r: String)
    ensures
        r@ == s@,
{
    String::from_str(s)
}

/// The bytes of a piece of text, for a marker file.
fn text_bytes(s: &str) -> (r: Vec<u8>)
{
    let b = s.as_bytes();
    let mut out: Vec<u8> = Vec::new();
    let mut i: usize = 0;
    while i < b.len()
        invariant
            i <= b@.len(),
        decreases b@.len() - i,
    {
        out.push(b[i]);
        i += 1;
    }
    out
}

/// Build the whole ordered patch registry from the configuration and run
/// it over the disc in one pass.
pub fn build_and_run_patches(
    gc_disc: &mut GcDisc,
    config: &ParsedConfig,
    version: Version,
    is_item_randomized: bool,
    rooms: &Vec<PakLocations>,
    elevators_db: &Vec<Elevator>,
    table: PickupTable,
    extra_assets: &Vec<Resource>,
    extra_assets_doors: &Vec<Resource>,
    srcs: &CacheSources,
    fixed: &FixedIds,
) -> (r: Result<(), String>)
    requires
        table.complete(),
        spec_rooms_indexable(rooms@),
    ensures
        r is Ok ==> final(gc_disc).files@.len() >= old(gc_disc).files@.len(),
        (exists|i: int|
            0 <= i < config.pickup_layout@.len() && (#[trigger] config.pickup_layout@[i])
                >= crate::pickup_meta::PICKUP_TYPE_COUNT) ==> r is Err,
        (exists|i: int|
            0 <= i < config.elevator_layout@.len() && (#[trigger] config.elevator_layout@[i])
                >= elevators_db@.len()) ==> r is Err,
{
    let mut pickup_layout: Vec<PickupType> = Vec::new();
    let mut i: usize = 0;
    while i < config.pickup_layout.len()
        invariant
            i <= config.pickup_layout@.len(),
            forall|j: int|
                0 <= j < i ==> (#[trigger] config.pickup_layout@[j])
                    < crate::pickup_meta::PICKUP_TYPE_COUNT,
        decreases config.pickup_layout@.len() - i,
    {
        match PickupType::from_idx(config.pickup_layout[i] as usize) {
            Some(pt) => {
                pickup_layout.push(pt);
            },
            None => {
                return Err(String::from_str("the pickup layout names an unknown variant"));
            },
        }
        i += 1;
    }

    let mut elevator_layout: Vec<Elevator> = Vec::new();
    let mut i: usize = 0;
    while i < config.elevator_layout.len()
        invariant
            i <= config.elevator_layout@.len(),
            forall|j: int|
                0 <= j < i ==> (#[trigger] config.elevator_layout@[j]) < elevators_db@.len(),
        decreases config.elevator_layout@.len() - i,
    {
        let idx = config.elevator_layout[i] as usize;
        if idx >= elevators_db.len() {
            return Err(String::from_str("the elevator layout names an unknown elevator"));
        }
        let src_elv = &elevators_db[idx];
        let elv = if config.skip_impact_crater && str_eq(
            src_elv.name.as_str(),
            "Crater Entry Point",
        ) {
            Elevator::end_game_elevator()
        } else {
            Elevator {
                pak_name: pak_string(src_elv.pak_name.as_str()),
                name: pak_string(src_elv.name.as_str()),
                mlvl: src_elv.mlvl,
                mrea: src_elv.mrea,
                mrea_idx: src_elv.mrea_idx,
                scly_id: src_elv.scly_id,
                room_strg: src_elv.room_strg,
                hologram_strg: src_elv.hologram_strg,
                control_strg: src_elv.control_strg,
            }
        };
        elevator_layout.push(elv);
        i += 1;
    }

    let mut i: usize = 0;
    while i < config.elevator_layout_override.len()
        invariant
            spec_rooms_indexable(rooms@),
        decreases config.elevator_layout_override@.len() - i,
    {
        if i >= elevator_layout.len() {
            return Err(String::from_str("an elevator override names no elevator"));
        }
        let spawn = match spawn_room_from_string(&config.elevator_layout_override[i], rooms) {
            Ok(s) => s,
            Err(e) => {
                return Err(e);
            },
        };
        if spawn.mlvl == World::FrigateOrpheon.mlvl() && config.skip_frigate {
            return Err(
                String::from_str("an elevator cannot lead to the frigate when it is skipped"),
            );
        }
        let (mrea_idx, _name_id) = match room_strg_id_from_mrea_id(spawn.mrea, rooms) {
            Ok(p) => p,
            Err(e) => {
                return Err(e);
            },
        };
        let mut elv = elevator_layout.remove(i);
        elv.mlvl = spawn.mlvl;
        elv.mrea = spawn.mrea;
        elv.mrea_idx = mrea_idx;
        elevator_layout.insert(i, elv);
        i += 1;
    }

    let spawn_room = match spawn_room_from_string(&config.starting_room, rooms) {
        Ok(s) => s,
        Err(e) => {
            return Err(e);
        },
    };
    if spawn_room.mlvl == World::FrigateOrpheon.mlvl() {
        return Err(String::from_str("the run cannot start on the frigate"));
    }
    if spawn_room.mlvl == World::ImpactCrater.mlvl() && config.skip_impact_crater {
        return Err(String::from_str("the run cannot start in the skipped crater"));
    }

    let mut rng = crate::rng::rng_from_seed(config.seed);
    let artifact_totem_strings = build_artifact_temple_totem_scan_strings(
        &pickup_layout,
        &mut rng,
        rooms,
    );

    let mut pickup_resources = match collect_pickup_resources(
        gc_disc,
        &table,
        extra_assets,
        srcs,
    ) {
        Ok(p) => p,
        Err(e) => {
            return Err(e);
        },
    };
    let door_resources = match collect_door_resources(gc_disc, extra_assets_doors) {
        Ok(p) => p,
        Err(e) => {
            return Err(e);
        },
    };
    if config.skip_hudmenus {
        match add_skip_hudmemos_strgs(&mut pickup_resources, &table) {
            Ok(()) => {},
            Err(e) => {
                return Err(e);
            },
        }
    }

    let mut patcher = PrimePatcher::new();

    let mut door_rng = crate::rng::rng_from_seed(config.seed);
    let mut layout_idx: usize = 0;
    let mut p: usize = 0;
    while p < rooms.len()
        decreases rooms@.len() - p,
    {
        let pak = &rooms[p];
        let world = match World::from_pak(pak.pak_name.as_str()) {
            Some(w) => w,
            None => {
                return Err(String::from_str("the room database names an unknown container"));
            },
        };
        let level = world.idx();
        let skip_level = (level == 0 && config.skip_frigate) || (level == 6
            && config.skip_impact_crater);
        if !skip_level {
            let mut ri: usize = 0;
            while ri < pak.rooms.len()
                invariant
                    p < rooms@.len(),
                    pak.rooms@ == rooms@[p as int].rooms@,
                decreases pak.rooms@.len() - ri,
            {
                let room = &pak.rooms[ri];
                if !is_item_randomized {
                    let mut oi: usize = 0;
                    while oi < room.objects_to_remove.len()
                        invariant
                            p < rooms@.len(),
                            ri < pak.rooms@.len(),
                        decreases room.objects_to_remove@.len() - oi,
                    {
                        let otr = &room.objects_to_remove[oi];
                        let mut otr_ids: Vec<u32> = Vec::new();
                        let mut k: usize = 0;
                        while k < otr.instance_ids.len()
                            invariant
                                p < rooms@.len(),
                                ri < pak.rooms@.len(),
                                oi < room.objects_to_remove@.len(),
                            decreases otr.instance_ids@.len() - k,
                        {
                            otr_ids.push(otr.instance_ids[k]);
                            k += 1;
                        }
                        patcher.add_scly_patch(
                            pak_string(pak.pak_name.as_str()),
                            room.room_id,
                            PatchOp::RemoveInstances {
                                layer: otr.layer as usize,
                                instance_ids: otr_ids,
                            },
                        );
                        oi += 1;
                    }
                    let mut li: usize = 0;
                    while li < room.pickup_locations.len()
                        invariant
                            p < rooms@.len(),
                            ri < pak.rooms@.len(),
                        decreases room.pickup_locations@.len() - li,
                    {
                        if layout_idx >= pickup_layout.len() {
                            return Err(
                                String::from_str("the pickup layout is shorter than the rooms"),
                            );
                        }
                        let mut pt = pickup_layout[layout_idx];
                        layout_idx += 1;
                        if pt == PickupType::Missile && crate::rng::one_in_1024(&mut rng) {
                            pt = PickupType::ShinyMissile;
                        }
                        let loc = dup_pickup_location(&room.pickup_locations[li]);
                        patcher.add_scly_patch(
                            pak_string(pak.pak_name.as_str()),
                            room.room_id,
                            PatchOp::ModifyPickup {
                                pickup_type: pt,
                                location: loc,
                                position_delta: Vec3 { x: 0, y: 0, z: 0 },
                            },
                        );
                        li += 1;
                    }
                }
                let mut di: usize = 0;
                while di < room.door_locations.len()
                    invariant
                        p < rooms@.len(),
                        ri < pak.rooms@.len(),
                    decreases room.door_locations@.len() - di,
                {
                    let door_location = &room.door_locations[di];
                    match door_location.dock_number {
                        Some(dock32) => {
                            let dock = dock32 as usize;
                            let door_specification = door_override_value(
                                config,
                                level,
                                &room.name,
                                dock,
                            );
                            let vertical = is_vertical_door(room.room_id, dock);
                            let mut door_type = match calculate_door_type(
                                pak.pak_name.as_str(),
                                &mut door_rng,
                                &config.door_weights,
                            ) {
                                Ok(dt) => dt,
                                Err(e) => {
                                    return Err(e);
                                },
                            };
                            let is_default = str_eq(door_specification.as_str(), "default");
                            if !is_default {
                                match DoorType::from_string(
                                    String::from_str(door_specification.as_str()),
                                ) {
                                    Some(dt) => {
                                        door_type = if vertical {
                                            dt.to_vertical()
                                        } else {
                                            dt
                                        };
                                    },
                                    None => {
                                        return Err(
                                            String::from_str(
                                                "a door override names an unknown variant",
                                            ),
                                        );
                                    },
                                }
                            }
                            if vertical && config.patch_vertical_to_blue {
                                door_type = DoorType::VerticalBlue;
                            }
                            if !is_default || (vertical && config.patch_vertical_to_blue) {
                                let dl = crate::door_meta::DoorLocation {
                                    door_location: door_location.door_location,
                                    door_force_location: door_location.door_force_location,
                                    door_shield_location: door_location.door_shield_location,
                                    dock_number: door_location.dock_number,
                                };
                                patcher.add_scly_patch(
                                    pak_string(pak.pak_name.as_str()),
                                    room.room_id,
                                    PatchOp::PatchDoor { door_location: dl, door_type },
                                );
                                if config.patch_map && room.mapa_id != 0 {
                                    patcher.add_resource_patch(
                                        pak_string(pak.pak_name.as_str()),
                                        ResKey { id: room.mapa_id, fourcc: FOURCC_MAPA },
                                        PatchOp::MapaDoorIcon {
                                            editor_id: door_location.door_location.instance_id,
                                            door_type,
                                            respect_vertical: true,
                                        },
                                    );
                                }
                            }
                        },
                        None => {},
                    }
                    di += 1;
                }
                ri += 1;
            }
        }
        p += 1;
    }

    if !is_item_randomized {
        if config.skip_frigate {
            patcher.add_file_patch(
                String::from_str("Metroid1.pak"),
                PatchOp::EmptyFrigatePak,
            );
        } else {
            patcher.add_scly_patch(
                pak_string(fixed.intro_hanger.pak_name.as_str()),
                fixed.intro_hanger.mrea,
                PatchOp::FrigateTeleporter { mlvl: spawn_room.mlvl, mrea: spawn_room.mrea },
            );
            let frigate = SpawnRoom::frigate_spawn_room();
            let (frigate_items, _print) = match config.starting_items_frigate {
                Some(si) => (si, true),
                None => (1u64, false),
            };
            patcher.add_scly_patch(
                pak_string(frigate.pak_name.as_str()),
                frigate.mrea,
                PatchOp::StartingPickups { starting_items: frigate_items },
            );
        }
        let rel_config = match create_rel_config_file(&spawn_room, config.quickplay) {
            Ok(b) => b,
            Err(e) => {
                return Err(e);
            },
        };
        gc_disc.add_file(
            String::from_str("rel_config.bin"),
            crate::patcher::FstEntryFile::Unknown(rel_config),
        );

        let (starting_items, _print) = match config.starting_items {
            Some(si) => (si, true),
            None => (1u64, false),
        };
        patcher.add_scly_patch(
            pak_string(spawn_room.pak_name.as_str()),
            spawn_room.mrea,
            PatchOp::StartingPickups { starting_items },
        );

        let totem_count = if fixed.artifact_totem_strgs.len() < 12 {
            fixed.artifact_totem_strgs.len()
        } else {
            12
        };
        let mut t: usize = 0;
        while t < totem_count
            invariant
                totem_count <= fixed.artifact_totem_strgs@.len(),
                totem_count <= 12,
                artifact_totem_strings@.len() == 12,
            decreases totem_count - t,
        {
            let strg_ref = &fixed.artifact_totem_strgs[t];
            patcher.add_resource_patch(
                pak_string(strg_ref.pak_name.as_str()),
                ResKey { id: strg_ref.id, fourcc: FOURCC_STRG },
                PatchOp::SetStrgLastLine {
                    text: String::from_str(artifact_totem_strings[t].as_str()),
                },
            );
            t += 1;
        }

        patcher.add_resource_patch(
            pak_string(fixed.main_strg.pak_name.as_str()),
            ResKey { id: fixed.main_strg.id, fourcc: FOURCC_STRG },
            PatchOp::MainStrg {
                msg: String::from_str(config.main_menu_message.as_str()),
            },
        );
        patcher.add_resource_patch(
            pak_string(fixed.main_menu_frme.pak_name.as_str()),
            ResKey { id: fixed.main_menu_frme.id, fourcc: FOURCC_FRME },
            PatchOp::MainMenuText,
        );
        patcher.add_resource_patch(
            pak_string(fixed.credits_strg.pak_name.as_str()),
            ResKey { id: fixed.credits_strg.id, fourcc: FOURCC_STRG },
            PatchOp::CreditsText { text: build_credits_string(&pickup_layout, rooms) },
        );
        patcher.add_resource_patch(
            pak_string(fixed.mines_savw.pak_name.as_str()),
            ResKey { id: fixed.mines_savw.id, fourcc: FOURCC_SAVW },
            PatchOp::MinesSavwScan,
        );

        let mut layout_copy: Vec<PickupType> = Vec::new();
        let mut k: usize = 0;
        while k < pickup_layout.len()
            decreases pickup_layout@.len() - k,
        {
            layout_copy.push(pickup_layout[k]);
            k += 1;
        }
        patcher.add_scly_patch(
            pak_string(fixed.stonehenge.pak_name.as_str()),
            fixed.stonehenge.mrea,
            PatchOp::FixArtifactOfTruth { layout: layout_copy },
        );
        patcher.add_scly_patch(
            pak_string(fixed.stonehenge.pak_name.as_str()),
            fixed.stonehenge.mrea,
            PatchOp::ArtifactHint { behavior: config.artifact_hint_behavior },
        );

        match make_elevators_patch(
            &mut patcher,
            &elevator_layout,
            &config.elevator_layout_override,
            config.auto_enabled_elevators,
            config.tiny_elvetator_samus,
            elevators_db,
        ) {
            Ok(()) => {},
            Err(e) => {
                return Err(e);
            },
        }

        make_elite_research_fight_prereq_patches(&mut patcher, fixed);

        patcher.add_scly_patch(
            pak_string(fixed.sunchamber.pak_name.as_str()),
            fixed.sunchamber.mrea,
            PatchOp::SunchamberPrevent,
        );
        patcher.add_scly_patch(
            pak_string(fixed.sun_tower.pak_name.as_str()),
            fixed.sun_tower.mrea,
            PatchOp::SunTowerPrevent,
        );
        patcher.add_scly_patch(
            pak_string(fixed.temple_security.pak_name.as_str()),
            fixed.temple_security.mrea,
            PatchOp::TempleSecurityTrigger,
        );
        patcher.add_scly_patch(
            pak_string(fixed.ridley_shorelines.pak_name.as_str()),
            fixed.ridley_shorelines.mrea,
            PatchOp::RidleyCinematic,
        );
        patcher.add_scly_patch(
            pak_string(fixed.vent_shaft_b.pak_name.as_str()),
            fixed.vent_shaft_b.mrea,
            PatchOp::MainVentShaftDoor,
        );
        patcher.add_scly_patch(
            pak_string(fixed.lab_hydra.pak_name.as_str()),
            fixed.lab_hydra.mrea,
            PatchOp::ResearchLabHydraBarrier,
        );
        patcher.add_scly_patch(
            pak_string(fixed.research_core.pak_name.as_str()),
            fixed.research_core.mrea,
            PatchOp::ResearchLabAetherWall,
        );
        patcher.add_scly_patch(
            pak_string(fixed.observatory.pak_name.as_str()),
            fixed.observatory.mrea,
            PatchOp::ObservatorySecondPass,
        );
        patcher.add_scly_patch(
            pak_string(fixed.mines_security.pak_name.as_str()),
            fixed.mines_security.mrea,
            PatchOp::MinesSecuritySoftLock,
        );
        patcher.add_scly_patch(
            pak_string(fixed.gravity_chamber.pak_name.as_str()),
            fixed.gravity_chamber.mrea,
            PatchOp::GravityChamberGrapple,
        );

        if version == Version::Ntsc0_02 {
            patcher.add_scly_patch(
                pak_string(fixed.main_quarry.pak_name.as_str()),
                fixed.main_quarry.mrea,
                PatchOp::MainQuarryDoorLock002,
            );
            patcher.add_scly_patch(
                pak_string(fixed.geothermal.pak_name.as_str()),
                fixed.geothermal.mrea,
                PatchOp::GeothermalCoreDoorLock002,
            );
            patcher.add_scly_patch(
                pak_string(fixed.hive_totem.pak_name.as_str()),
                fixed.hive_totem.mrea,
                PatchOp::HiveTotemTrigger,
            );
            patcher.add_scly_patch(
                pak_string(fixed.ruined_courtyard.pak_name.as_str()),
                fixed.ruined_courtyard.mrea,
                PatchOp::RuinedCourtyardConduits,
            );
        }
        if version == Version::Pal {
            patcher.add_scly_patch(
                pak_string(fixed.ore_processing.pak_name.as_str()),
                fixed.ore_processing.mrea,
                PatchOp::OreProcessingRockPal,
            );
            patcher.add_scly_patch(
                pak_string(fixed.geothermal.pak_name.as_str()),
                fixed.geothermal.mrea,
                PatchOp::GeothermalCoreRockPal,
            );
            patcher.add_scly_patch(
                pak_string(fixed.main_quarry.pak_name.as_str()),
                fixed.main_quarry.mrea,
                PatchOp::MainQuarryDoorLockPal,
            );
        }

        let landing = SpawnRoom::landing_site_spawn_room();
        if !(spawn_room.mlvl == landing.mlvl && spawn_room.mrea == landing.mrea) {
            patcher.add_scly_patch(
                pak_string(fixed.landing_site.pak_name.as_str()),
                fixed.landing_site.mrea,
                PatchOp::LandingSiteCutscene,
            );
        }
        if config.skip_impact_crater {
            patcher.add_scly_patch(
                pak_string(fixed.end_cinema.pak_name.as_str()),
                fixed.end_cinema.mrea,
                PatchOp::EndingSceneCredits,
            );
        }
    }

    if config.enable_vault_ledge_door {
        let door_type = match calculate_door_type(
            "Metroid2.pak",
            &mut rng,
            &config.door_weights,
        ) {
            Ok(dt) => dt,
            Err(e) => {
                return Err(e);
            },
        };
        let plaza_spec = door_override_value(
            config,
            World::ChozoRuins.idx(),
            &String::from_str("Main Plaza"),
            4,
        );
        let use_custom_appearance = str_eq(plaza_spec.as_str(), "default");
        if !is_item_randomized {
            patcher.add_scly_patch(
                pak_string(fixed.main_plaza_vault.pak_name.as_str()),
                fixed.main_plaza_vault.mrea,
                PatchOp::MainPlazaLockedDoor { door_type, use_custom_appearance },
            );
        }
        if config.patch_map {
            patcher.add_resource_patch(
                pak_string(fixed.main_plaza_mapa.pak_name.as_str()),
                ResKey { id: fixed.main_plaza_mapa.id, fourcc: FOURCC_MAPA },
                PatchOp::MapaDoorIcon {
                    editor_id: 0x20060,
                    door_type,
                    respect_vertical: false,
                },
            );
        }
    }

    let ctx = PatchContext {
        pickup_resources,
        door_resources,
        pickup_table: table,
        skip_hudmenus: config.skip_hudmenus,
        obfuscate_items: config.obfuscate_items,
        powerbomb_lockpick: config.powerbomb_lockpick,
    };
    match patcher.run(gc_disc, &ctx) {
        Ok(()) => Ok(()),
        Err(e) => Err(e),
    }
}

/// The single entry point of the pipeline: identify the revision, refuse an
/// input that was already rewritten by another tool or is unsupported,
/// apply every registered patch, and stamp the output with its marker
/// files. Nothing is written to disk here; a failed run leaves no partial
/// output behind.
pub fn apply_all_patches(
    gc_disc: &mut GcDisc,
    config: &ParsedConfig,
    version: Version,
    rooms: &Vec<PakLocations>,
    elevators_db: &Vec<Elevator>,
    table: PickupTable,
    extra_assets: &Vec<Resource>,
    extra_assets_doors: &Vec<Resource>,
    srcs: &CacheSources,
    fixed: &FixedIds,
) -> (r: Result<(), String>)
    requires
        table.complete(),
        spec_rooms_indexable(rooms@),
    ensures
        (exists|j: int|
            0 <= j < old(gc_disc).files@.len() && (#[trigger] old(gc_disc).files@[j]).name@
                == "mpdr.txt"@) ==> r is Err,
        version == Version::Ntsc0_01 || (version == Version::Pal && !config.pal_override)
            ==> r is Err,
        r is Ok ==> {
            &&& final(gc_disc).files@.len() >= old(gc_disc).files@.len() + 2
            &&& (exists|j: int|
                0 <= j < final(gc_disc).files@.len()
                    && (#[trigger] final(gc_disc).files@[j]).name@ == "randomprime.txt"@)
            &&& (exists|j: int|
                0 <= j < final(gc_disc).files@.len()
                    && (#[trigger] final(gc_disc).files@[j]).name@ == "mpdr.txt"@)
        },
{
    let is_item_randomized = gc_disc.find_file("randomprime.txt").is_some();
    if gc_disc.find_file("mpdr.txt").is_some() {
        return Err(
            String::from_str(
                "the input image was already rewritten by another tool; start from an unmodified image",
            ),
        );
    }
    if version == Version::Ntsc0_01 || (version == Version::Pal && !config.pal_override) {
        return Err(String::from_str("this revision of the title is not supported"));
    }

    match build_and_run_patches(
        gc_disc,
        config,
        version,
        is_item_randomized,
        rooms,
        elevators_db,
        table,
        extra_assets,
        extra_assets_doors,
        srcs,
        fixed,
    ) {
        Ok(()) => {},
        Err(e) => {
            return Err(e);
        },
    }

    let marker = String::from_str("options used:\nconfiguration string: ").concat(
        config.layout_string.as_str(),
    ).concat("\n");
    gc_disc.add_file(
        String::from_str("randomprime.txt"),
        crate::patcher::FstEntryFile::Unknown(text_bytes(marker.as_str())),
    );
    let details = String::from_str(config.comment.as_str()).concat("\n");
    gc_disc.add_file(
        String::from_str("mpdr.txt"),
        crate::patcher::FstEntryFile::Unknown(text_bytes(details.as_str())),
    );
    Ok(())
}

/// Register the Elite Research fight prerequisites.
pub fn make_elite_research_fight_prereq_patches(patcher: &mut PrimePatcher, fixed: &FixedIds) {
    patcher.add_scly_patch(
        String::from_str(fixed.elite_research.pak_name.as_str()),
        fixed.elite_research.mrea,
        PatchOp::EliteResearchFlags,
    );
    let mut ids2: Vec<u32> = Vec::new();
    ids2.push(0x1B0525);
    ids2.push(0x1B0522);
    patcher.add_scly_patch(
        String::from_str(fixed.elite_control_pirates.pak_name.as_str()),
        fixed.elite_control_pirates.mrea,
        PatchOp::RemoveInstances { layer: 0, instance_ids: ids2 },
    );
}

} // verus!
