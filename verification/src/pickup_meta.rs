//! The pickup catalog: every pickup variant, its catalog index, and the
//! per-variant data table that drives pickup patches.
//!
//! The data table is built once at pipeline start (validated for
//! completeness) and passed by reference through the call chain.

use vstd::prelude::*;

use crate::ids::{ResKey, SKIP_HUDMEMO_STRG_START};
use crate::scly::{Connection, Pickup};

verus! {

#[derive(Clone, Copy, Debug, PartialEq, Eq, Structural, Hash)]
pub enum PickupType {
    Missile,
    EnergyTank,
    ThermalVisor,
    XRayVisor,
    VariaSuit,
    GravitySuit,
    PhazonSuit,
    MorphBall,
    BoostBall,
    SpiderBall,
    MorphBallBomb,
    PowerBombExpansion,
    PowerBomb,
    ChargeBeam,
    SpaceJumpBoots,
    GrappleBeam,
    SuperMissile,
    Wavebuster,
    IceSpreader,
    Flamethrower,
    WaveBeam,
    IceBeam,
    PlasmaBeam,
    ArtifactOfLifegiver,
    ArtifactOfWild,
    ArtifactOfWorld,
    ArtifactOfSun,
    ArtifactOfElder,
    ArtifactOfSpirit,
    ArtifactOfTruth,
    ArtifactOfChozo,
    ArtifactOfWarrior,
    ArtifactOfNewborn,
    ArtifactOfNature,
    ArtifactOfStrength,
    Nothing,
    ShinyMissile,
    ScanVisor,
}

/// How many pickup variants the catalog holds.
pub const PICKUP_TYPE_COUNT: usize = 37;

impl PickupType {
    pub open spec fn spec_name(self) -> Seq<char> {
        match self {
            PickupType::Missile => "Missile"@,
            PickupType::EnergyTank => "Energy Tank"@,
            PickupType::ThermalVisor => "Thermal Visor"@,
            PickupType::XRayVisor => "X-Ray Visor"@,
            PickupType::VariaSuit => "Varia Suit"@,
            PickupType::GravitySuit => "Gravity Suit"@,
            PickupType::PhazonSuit => "Phazon Suit"@,
            PickupType::MorphBall => "Morph Ball"@,
            PickupType::BoostBall => "Boost Ball"@,
            PickupType::SpiderBall => "Spider Ball"@,
            PickupType::MorphBallBomb => "Morph Ball Bomb"@,
            PickupType::PowerBombExpansion => "Power Bomb Expansion"@,
            PickupType::PowerBomb => "Power Bomb"@,
            PickupType::ChargeBeam => "Charge Beam"@,
            PickupType::SpaceJumpBoots => "Space Jump Boots"@,
            PickupType::GrappleBeam => "Grapple Beam"@,
            PickupType::SuperMissile => "Super Missile"@,
            PickupType::Wavebuster => "Wavebuster"@,
            PickupType::IceSpreader => "Ice Spreader"@,
            PickupType::Flamethrower => "Flamethrower"@,
            PickupType::WaveBeam => "Wave Beam"@,
            PickupType::IceBeam => "Ice Beam"@,
            PickupType::PlasmaBeam => "Plasma Beam"@,
            PickupType::ArtifactOfLifegiver => "Artifact of Lifegiver"@,
            PickupType::ArtifactOfWild => "Artifact of Wild"@,
            PickupType::ArtifactOfWorld => "Artifact of World"@,
            PickupType::ArtifactOfSun => "Artifact of Sun"@,
            PickupType::ArtifactOfElder => "Artifact of Elder"@,
            PickupType::ArtifactOfSpirit => "Artifact of Spirit"@,
            PickupType::ArtifactOfTruth => "Artifact of Truth"@,
            PickupType::ArtifactOfChozo => "Artifact of Chozo"@,
            PickupType::ArtifactOfWarrior => "Artifact of Warrior"@,
            PickupType::ArtifactOfNewborn => "Artifact of Newborn"@,
            PickupType::ArtifactOfNature => "Artifact of Nature"@,
            PickupType::ArtifactOfStrength => "Artifact of Strength"@,
            PickupType::Nothing => "Nothing"@,
            PickupType::ShinyMissile => "Shiny Missile"@,
            PickupType::ScanVisor => "Scan Visor"@,
        }
    }

    pub fn name(&self) -> (r: &'static str)
        ensures
            r@ == self.spec_name(),
    {
        match self {
            PickupType::Missile => "Missile",
            PickupType::EnergyTank => "Energy Tank",
            PickupType::ThermalVisor => "Thermal Visor",
            PickupType::XRayVisor => "X-Ray Visor",
            PickupType::VariaSuit => "Varia Suit",
            PickupType::GravitySuit => "Gravity Suit",
            PickupType::PhazonSuit => "Phazon Suit",
            PickupType::MorphBall => "Morph Ball",
            PickupType::BoostBall => "Boost Ball",
            PickupType::SpiderBall => "Spider Ball",
            PickupType::MorphBallBomb => "Morph Ball Bomb",
            PickupType::PowerBombExpansion => "Power Bomb Expansion",
            PickupType::PowerBomb => "Power Bomb",
            PickupType::ChargeBeam => "Charge Beam",
            PickupType::SpaceJumpBoots => "Space Jump Boots",
            PickupType::GrappleBeam => "Grapple Beam",
            PickupType::SuperMissile => "Super Missile",
            PickupType::Wavebuster => "Wavebuster",
            PickupType::IceSpreader => "Ice Spreader",
            PickupType::Flamethrower => "Flamethrower",
            PickupType::WaveBeam => "Wave Beam",
            PickupType::IceBeam => "Ice Beam",
            PickupType::PlasmaBeam => "Plasma Beam",
            PickupType::ArtifactOfLifegiver => "Artifact of Lifegiver",
            PickupType::ArtifactOfWild => "Artifact of Wild",
            PickupType::ArtifactOfWorld => "Artifact of World",
            PickupType::ArtifactOfSun => "Artifact of Sun",
            PickupType::ArtifactOfElder => "Artifact of Elder",
            PickupType::ArtifactOfSpirit => "Artifact of Spirit",
            PickupType::ArtifactOfTruth => "Artifact of Truth",
            PickupType::ArtifactOfChozo => "Artifact of Chozo",
            PickupType::ArtifactOfWarrior => "Artifact of Warrior",
            PickupType::ArtifactOfNewborn => "Artifact of Newborn",
            PickupType::ArtifactOfNature => "Artifact of Nature",
            PickupType::ArtifactOfStrength => "Artifact of Strength",
            PickupType::Nothing => "Nothing",
            PickupType::ShinyMissile => "Shiny Missile",
            PickupType::ScanVisor => "Scan Visor",
        }
    }

    /// The variant's position in the catalog. The shiny missile shares the
    /// plain missile's slot: it is a cosmetic skin, not a catalog entry of
    /// its own.
    pub open spec fn spec_idx(self) -> int {
        match self {
            PickupType::Missile => 0,
            PickupType::EnergyTank => 1,
            PickupType::ThermalVisor => 2,
            PickupType::XRayVisor => 3,
            PickupType::VariaSuit => 4,
            PickupType::GravitySuit => 5,
            PickupType::PhazonSuit => 6,
            PickupType::MorphBall => 7,
            PickupType::BoostBall => 8,
            PickupType::SpiderBall => 9,
            PickupType::MorphBallBomb => 10,
            PickupType::PowerBombExpansion => 11,
            PickupType::PowerBomb => 12,
            PickupType::ChargeBeam => 13,
            PickupType::SpaceJumpBoots => 14,
            PickupType::GrappleBeam => 15,
            PickupType::SuperMissile => 16,
            PickupType::Wavebuster => 17,
            PickupType::IceSpreader => 18,
            PickupType::Flamethrower => 19,
            PickupType::WaveBeam => 20,
            PickupType::IceBeam => 21,
            PickupType::PlasmaBeam => 22,
            PickupType::ArtifactOfLifegiver => 23,
            PickupType::ArtifactOfWild => 24,
            PickupType::ArtifactOfWorld => 25,
            PickupType::ArtifactOfSun => 26,
            PickupType::ArtifactOfElder => 27,
            PickupType::ArtifactOfSpirit => 28,
            PickupType::ArtifactOfTruth => 29,
            PickupType::ArtifactOfChozo => 30,
            PickupType::ArtifactOfWarrior => 31,
            PickupType::ArtifactOfNewborn => 32,
            PickupType::ArtifactOfNature => 33,
            PickupType::ArtifactOfStrength => 34,
            PickupType::Nothing => 35,
            PickupType::ShinyMissile => 0,
            PickupType::ScanVisor => 36,
        }
    }

    pub fn idx(&self) -> (r: usize)
        ensures
            r == self.spec_idx(),
            r < PICKUP_TYPE_COUNT,
    {
        match self {
            PickupType::Missile => 0,
            PickupType::EnergyTank => 1,
            PickupType::ThermalVisor => 2,
            PickupType::XRayVisor => 3,
            PickupType::VariaSuit => 4,
            PickupType::GravitySuit => 5,
            PickupType::PhazonSuit => 6,
            PickupType::MorphBall => 7,
            PickupType::BoostBall => 8,
            PickupType::SpiderBall => 9,
            PickupType::MorphBallBomb => 10,
            PickupType::PowerBombExpansion => 11,
            PickupType::PowerBomb => 12,
            PickupType::ChargeBeam => 13,
            PickupType::SpaceJumpBoots => 14,
            PickupType::GrappleBeam => 15,
            PickupType::SuperMissile => 16,
            PickupType::Wavebuster => 17,
            PickupType::IceSpreader => 18,
            PickupType::Flamethrower => 19,
            PickupType::WaveBeam => 20,
            PickupType::IceBeam => 21,
            PickupType::PlasmaBeam => 22,
            PickupType::ArtifactOfLifegiver => 23,
            PickupType::ArtifactOfWild => 24,
            PickupType::ArtifactOfWorld => 25,
            PickupType::ArtifactOfSun => 26,
            PickupType::ArtifactOfElder => 27,
            PickupType::ArtifactOfSpirit => 28,
            PickupType::ArtifactOfTruth => 29,
            PickupType::ArtifactOfChozo => 30,
            PickupType::ArtifactOfWarrior => 31,
            PickupType::ArtifactOfNewborn => 32,
            PickupType::ArtifactOfNature => 33,
            PickupType::ArtifactOfStrength => 34,
            PickupType::Nothing => 35,
            PickupType::ShinyMissile => 0,
            PickupType::ScanVisor => 36,
        }
    }

    /// The catalog entry at `idx`, if `idx` names one.
    pub open spec fn spec_from_idx(idx: int) -> Option<PickupType> {
        if idx == 0 {
            Some(PickupType::Missile)
        } else if idx == 1 {
            Some(PickupType::EnergyTank)
        } else if idx == 2 {
            Some(PickupType::ThermalVisor)
        } else if idx == 3 {
            Some(PickupType::XRayVisor)
        } else if idx == 4 {
            Some(PickupType::VariaSuit)
        } else if idx == 5 {
            Some(PickupType::GravitySuit)
        } else if idx == 6 {
            Some(PickupType::PhazonSuit)
        } else if idx == 7 {
            Some(PickupType::MorphBall)
        } else if idx == 8 {
            Some(PickupType::BoostBall)
        } else if idx == 9 {
            Some(PickupType::SpiderBall)
        } else if idx == 10 {
            Some(PickupType::MorphBallBomb)
        } else if idx == 11 {
            Some(PickupType::PowerBombExpansion)
        } else if idx == 12 {
            Some(PickupType::PowerBomb)
        } else if idx == 13 {
            Some(PickupType::ChargeBeam)
        } else if idx == 14 {
            Some(PickupType::SpaceJumpBoots)
        } else if idx == 15 {
            Some(PickupType::GrappleBeam)
        } else if idx == 16 {
            Some(PickupType::SuperMissile)
        } else if idx == 17 {
            Some(PickupType::Wavebuster)
        } else if idx == 18 {
            Some(PickupType::IceSpreader)
        } else if idx == 19 {
            Some(PickupType::Flamethrower)
        } else if idx == 20 {
            Some(PickupType::WaveBeam)
        } else if idx == 21 {
            Some(PickupType::IceBeam)
        } else if idx == 22 {
            Some(PickupType::PlasmaBeam)
        } else if idx == 23 {
            Some(PickupType::ArtifactOfLifegiver)
        } else if idx == 24 {
            Some(PickupType::ArtifactOfWild)
        } else if idx == 25 {
            Some(PickupType::ArtifactOfWorld)
        } else if idx == 26 {
            Some(PickupType::ArtifactOfSun)
        } else if idx == 27 {
            Some(PickupType::ArtifactOfElder)
        } else if idx == 28 {
            Some(PickupType::ArtifactOfSpirit)
        } else if idx == 29 {
            Some(PickupType::ArtifactOfTruth)
        } else if idx == 30 {
            Some(PickupType::ArtifactOfChozo)
        } else if idx == 31 {
            Some(PickupType::ArtifactOfWarrior)
        } else if idx == 32 {
            Some(PickupType::ArtifactOfNewborn)
        } else if idx == 33 {
            Some(PickupType::ArtifactOfNature)
        } else if idx == 34 {
            Some(PickupType::ArtifactOfStrength)
        } else if idx == 35 {
            Some(PickupType::Nothing)
        } else if idx == 36 {
            Some(PickupType::ScanVisor)
        } else {
            None
        }
    }

    pub fn from_idx(idx: usize) -> (r: Option<PickupType>)
        ensures
            r == Self::spec_from_idx(idx as int),
    {
        match idx {
            0 => Some(PickupType::Missile),
            1 => Some(PickupType::EnergyTank),
            2 => Some(PickupType::ThermalVisor),
            3 => Some(PickupType::XRayVisor),
            4 => Some(PickupType::VariaSuit),
            5 => Some(PickupType::GravitySuit),
            6 => Some(PickupType::PhazonSuit),
            7 => Some(PickupType::MorphBall),
            8 => Some(PickupType::BoostBall),
            9 => Some(PickupType::SpiderBall),
            10 => Some(PickupType::MorphBallBomb),
            11 => Some(PickupType::PowerBombExpansion),
            12 => Some(PickupType::PowerBomb),
            13 => Some(PickupType::ChargeBeam),
            14 => Some(PickupType::SpaceJumpBoots),
            15 => Some(PickupType::GrappleBeam),
            16 => Some(PickupType::SuperMissile),
            17 => Some(PickupType::Wavebuster),
            18 => Some(PickupType::IceSpreader),
            19 => Some(PickupType::Flamethrower),
            20 => Some(PickupType::WaveBeam),
            21 => Some(PickupType::IceBeam),
            22 => Some(PickupType::PlasmaBeam),
            23 => Some(PickupType::ArtifactOfLifegiver),
            24 => Some(PickupType::ArtifactOfWild),
            25 => Some(PickupType::ArtifactOfWorld),
            26 => Some(PickupType::ArtifactOfSun),
            27 => Some(PickupType::ArtifactOfElder),
            28 => Some(PickupType::ArtifactOfSpirit),
            29 => Some(PickupType::ArtifactOfTruth),
            30 => Some(PickupType::ArtifactOfChozo),
            31 => Some(PickupType::ArtifactOfWarrior),
            32 => Some(PickupType::ArtifactOfNewborn),
            33 => Some(PickupType::ArtifactOfNature),
            34 => Some(PickupType::ArtifactOfStrength),
            35 => Some(PickupType::Nothing),
            36 => Some(PickupType::ScanVisor),
            _ => None,
        }
    }

    pub open spec fn spec_is_artifact(self) -> bool {
        23 <= self.spec_idx() <= 34
    }

    pub fn is_artifact(&self) -> (r: bool)
        ensures
            r == self.spec_is_artifact(),
    {
        match self {
            PickupType::ArtifactOfLifegiver => true,
            PickupType::ArtifactOfWild => true,
            PickupType::ArtifactOfWorld => true,
            PickupType::ArtifactOfSun => true,
            PickupType::ArtifactOfElder => true,
            PickupType::ArtifactOfSpirit => true,
            PickupType::ArtifactOfTruth => true,
            PickupType::ArtifactOfChozo => true,
            PickupType::ArtifactOfWarrior => true,
            PickupType::ArtifactOfNewborn => true,
            PickupType::ArtifactOfNature => true,
            PickupType::ArtifactOfStrength => true,
            _ => false,
        }
    }

    /// The string table shown instead of the modal popup when hud popups are
    /// skipped: one per catalog slot, in the reserved id range.
    pub fn skip_hudmemos_strg(&self) -> (r: u32)
        ensures
            r == SKIP_HUDMEMO_STRG_START + self.spec_idx(),
    {
        let i = self.idx();
        SKIP_HUDMEMO_STRG_START + (i as u32)
    }

    /// Every catalog entry, in catalog order.
    pub open spec fn spec_all() -> Seq<PickupType> {
        seq![
            PickupType::Missile,
            PickupType::EnergyTank,
            PickupType::ThermalVisor,
            PickupType::XRayVisor,
            PickupType::VariaSuit,
            PickupType::GravitySuit,
            PickupType::PhazonSuit,
            PickupType::MorphBall,
            PickupType::BoostBall,
            PickupType::SpiderBall,
            PickupType::MorphBallBomb,
            PickupType::PowerBombExpansion,
            PickupType::PowerBomb,
            PickupType::ChargeBeam,
            PickupType::SpaceJumpBoots,
            PickupType::GrappleBeam,
            PickupType::SuperMissile,
            PickupType::Wavebuster,
            PickupType::IceSpreader,
            PickupType::Flamethrower,
            PickupType::WaveBeam,
            PickupType::IceBeam,
            PickupType::PlasmaBeam,
            PickupType::ArtifactOfLifegiver,
            PickupType::ArtifactOfWild,
            PickupType::ArtifactOfWorld,
            PickupType::ArtifactOfSun,
            PickupType::ArtifactOfElder,
            PickupType::ArtifactOfSpirit,
            PickupType::ArtifactOfTruth,
            PickupType::ArtifactOfChozo,
            PickupType::ArtifactOfWarrior,
            PickupType::ArtifactOfNewborn,
            PickupType::ArtifactOfNature,
            PickupType::ArtifactOfStrength,
            PickupType::Nothing,
            PickupType::ScanVisor,
        ]
    }

    pub fn iter() -> (r: Vec<PickupType>)
        ensures
            r@ == Self::spec_all(),
            r@.len() == PICKUP_TYPE_COUNT,
    {
        let mut v: Vec<PickupType> = Vec::new();
        v.push(PickupType::Missile);
        v.push(PickupType::EnergyTank);
        v.push(PickupType::ThermalVisor);
        v.push(PickupType::XRayVisor);
        v.push(PickupType::VariaSuit);
        v.push(PickupType::GravitySuit);
        v.push(PickupType::PhazonSuit);
        v.push(PickupType::MorphBall);
        v.push(PickupType::BoostBall);
        v.push(PickupType::SpiderBall);
        v.push(PickupType::MorphBallBomb);
        v.push(PickupType::PowerBombExpansion);
        v.push(PickupType::PowerBomb);
        v.push(PickupType::ChargeBeam);
        v.push(PickupType::SpaceJumpBoots);
        v.push(PickupType::GrappleBeam);
        v.push(PickupType::SuperMissile);
        v.push(PickupType::Wavebuster);
        v.push(PickupType::IceSpreader);
        v.push(PickupType::Flamethrower);
        v.push(PickupType::WaveBeam);
        v.push(PickupType::IceBeam);
        v.push(PickupType::PlasmaBeam);
        v.push(PickupType::ArtifactOfLifegiver);
        v.push(PickupType::ArtifactOfWild);
        v.push(PickupType::ArtifactOfWorld);
        v.push(PickupType::ArtifactOfSun);
        v.push(PickupType::ArtifactOfElder);
        v.push(PickupType::ArtifactOfSpirit);
        v.push(PickupType::ArtifactOfTruth);
        v.push(PickupType::ArtifactOfChozo);
        v.push(PickupType::ArtifactOfWarrior);
        v.push(PickupType::ArtifactOfNewborn);
        v.push(PickupType::ArtifactOfNature);
        v.push(PickupType::ArtifactOfStrength);
        v.push(PickupType::Nothing);
        v.push(PickupType::ScanVisor);
        proof {
            assert(v@ =~= Self::spec_all());
        }
        v
    }
}

/// The catalog index is total and inverted by `from_idx`.
pub proof fn lemma_idx_roundtrip(pt: PickupType)
    ensures
        0 <= pt.spec_idx() < PICKUP_TYPE_COUNT,
        pt != PickupType::ShinyMissile ==> PickupType::spec_from_idx(pt.spec_idx()) == Some(pt),
        PickupType::spec_from_idx(PickupType::ShinyMissile.spec_idx())
            == Some(PickupType::Missile),
{
}

/// Where one script object sits: its layer and its instance id.
#[derive(Clone, Copy, Debug, PartialEq, Eq, Structural, Hash)]
pub struct ScriptObjectLocation {
    pub layer: u32,
    pub instance_id: u32,
}

/// The script objects that one pickup location comprises.
#[derive(Clone, Debug)]
pub struct PickupLocation {
    pub location: ScriptObjectLocation,
    pub attainment_audio: ScriptObjectLocation,
    pub hudmemo: ScriptObjectLocation,
    pub post_pickup_relay_connections: Vec<Connection>,
}

/// Instances to delete from one layer of a room.
#[derive(Clone, Debug)]
pub struct ObjectsToRemove {
    pub layer: u32,
    pub instance_ids: Vec<u32>,
}

/// Everything the patch pipeline knows about one room: its area id, its
/// names, its map, and the pickup and door locations it holds.
#[derive(Clone, Debug)]
pub struct RoomInfo {
    pub room_id: u32,
    pub name: String,
    pub name_id: u32,
    pub mapa_id: u32,
    pub pickup_locations: Vec<PickupLocation>,
    pub door_locations: Vec<crate::door_meta::DoorLocation>,
    pub objects_to_remove: Vec<ObjectsToRemove>,
}

/// The rooms of one container, in area order.
#[derive(Clone, Debug)]
pub struct PakLocations {
    pub pak_name: String,
    pub rooms: Vec<RoomInfo>,
}

/// The per-variant data the pickup patches need, beyond what the enum
/// itself derives.
#[derive(Clone, Debug)]
pub struct PickupData {
    /// The template instance written over a location's vanilla pickup.
    pub pickup: Pickup,
    /// The string table of the modal acquisition popup.
    pub hudmemo_strg: u32,
    /// The jingle streamed on acquisition.
    pub attainment_audio_file_name: String,
    /// Every asset the template references.
    pub dependencies: Vec<ResKey>,
}

/// The owned pickup data table, built once at pipeline start and passed by
/// reference: one entry per catalog slot, in catalog order.
#[derive(Clone, Debug)]
pub struct PickupTable {
    pub entries: Vec<PickupData>,
}

impl PickupTable {
    /// One entry per catalog slot.
    pub open spec fn complete(self) -> bool {
        self.entries@.len() == PICKUP_TYPE_COUNT
    }

    /// Accept a table only when every catalog slot has an entry.
    pub fn new(entries: Vec<PickupData>) -> (r: Result<PickupTable, String>)
        ensures
            match r {
                Ok(t) => t.complete() && t.entries@ == entries@,
                Err(_) => entries@.len() != PICKUP_TYPE_COUNT,
            },
    {
        if entries.len() != PICKUP_TYPE_COUNT {
            return Err(String::from_str("pickup data table must cover every variant"));
        }
        Ok(PickupTable { entries })
    }

    /// The entry for `pt`.
    pub fn get(&self, pt: PickupType) -> (r: &PickupData)
        requires
            self.complete(),
        ensures
            *r == self.entries@[pt.spec_idx()],
    {
        let i = pt.idx();
        &self.entries[i]
    }
}

} // verus!
