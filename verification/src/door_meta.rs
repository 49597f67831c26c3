//! The door catalog: every door variant, its asset ids, its interaction
//! profile, and its derived dependency list.
//!
//! "Vertical" variants mirror a base variant's profile and textures but use a
//! distinct model id, so a ceiling door renders correctly.

use vstd::prelude::*;

use crate::ids::{
    ResKey, FourCC, FOURCC_CMDL, FOURCC_TXTR, FOURCC_SCAN, FOURCC_STRG, is_sentinel_id,
    dedup_keys, dedup_push, dedup_keys_from, lemma_dedup_no_dup, lemma_dedup_contains,
    push_unique,
};
use crate::ids;
use crate::vuln::{
    DamageVulnerability, ChargedBeams, BeamCombos, VULN_NORMAL, VULN_REFLECT, VULN_IMMUNE,
    fully_enumerated,
};

verus! {

/// Map-object type codes for door icons on the area map.
pub const MAPA_DOOR_SHIELD: u32 = 0;
pub const MAPA_DOOR_NORMAL: u32 = 1;
pub const MAPA_DOOR_WAVE: u32 = 2;
pub const MAPA_DOOR_ICE: u32 = 3;
pub const MAPA_DOOR_PLASMA: u32 = 4;
pub const MAPA_DOOR_WAVE_CEILING: u32 = 5;
pub const MAPA_DOOR_ICE_CEILING: u32 = 6;
pub const MAPA_DOOR_PLASMA_CEILING: u32 = 7;

#[derive(Clone, Copy, Debug, PartialEq, Eq, Structural, Hash)]
pub enum DoorType {
    Blue,
    Purple,
    White,
    Red,
    PowerOnly,
    PowerBomb,
    Bomb,
    Boost,
    Missile,
    Charge,
    Super,
    Wavebuster,
    Icespreader,
    Flamethrower,
    Ai,
    Disabled,
    VerticalBlue,
    VerticalPowerOnly,
    VerticalPurple,
    VerticalWhite,
    VerticalRed,
    VerticalPowerBomb,
    VerticalBomb,
    VerticalMissile,
    VerticalCharge,
    VerticalSuper,
    VerticalDisabled,
    VerticalWavebuster,
    VerticalIcespreader,
    VerticalFlamethrower,
    VerticalAi,
}

#[derive(Clone, Copy, Debug, PartialEq, Eq, Structural, Hash)]
pub enum BlastShieldType {
    Missile,
    PowerBomb,
    Super,
    Wavebuster,
    Icespreader,
    Flamethrower,
}

/// The profile shared by every locked door: every beam deflected, bombs and
/// power bombs ignored, missiles and the boost ball deflected, phazon
/// ignored, enemy fire ignored, charged shots and combos deflected.
pub open spec fn spec_locked_base() -> DamageVulnerability {
    DamageVulnerability {
        power: VULN_REFLECT,
        ice: VULN_REFLECT,
        wave: VULN_REFLECT,
        plasma: VULN_REFLECT,
        bomb: VULN_IMMUNE,
        power_bomb: VULN_IMMUNE,
        missile: VULN_REFLECT,
        boost_ball: VULN_REFLECT,
        phazon: VULN_IMMUNE,
        enemy_weapon0: VULN_IMMUNE,
        enemy_weapon1: VULN_IMMUNE,
        enemy_weapon2: VULN_IMMUNE,
        enemy_weapon3: VULN_IMMUNE,
        unknown_weapon0: VULN_IMMUNE,
        unknown_weapon1: VULN_IMMUNE,
        unknown_weapon2: VULN_IMMUNE,
        charged_beams: ChargedBeams {
            power: VULN_REFLECT,
            ice: VULN_REFLECT,
            wave: VULN_REFLECT,
            plasma: VULN_REFLECT,
            phazon: VULN_REFLECT,
        },
        beam_combos: BeamCombos {
            power: VULN_REFLECT,
            ice: VULN_REFLECT,
            wave: VULN_REFLECT,
            plasma: VULN_REFLECT,
            phazon: VULN_REFLECT,
        },
    }
}

fn locked_base() -> (r: DamageVulnerability)
    ensures
        r == spec_locked_base(),
{
    DamageVulnerability {
        power: VULN_REFLECT,
        ice: VULN_REFLECT,
        wave: VULN_REFLECT,
        plasma: VULN_REFLECT,
        bomb: VULN_IMMUNE,
        power_bomb: VULN_IMMUNE,
        missile: VULN_REFLECT,
        boost_ball: VULN_REFLECT,
        phazon: VULN_IMMUNE,
        enemy_weapon0: VULN_IMMUNE,
        enemy_weapon1: VULN_IMMUNE,
        enemy_weapon2: VULN_IMMUNE,
        enemy_weapon3: VULN_IMMUNE,
        unknown_weapon0: VULN_IMMUNE,
        unknown_weapon1: VULN_IMMUNE,
        unknown_weapon2: VULN_IMMUNE,
        charged_beams: ChargedBeams {
            power: VULN_REFLECT,
            ice: VULN_REFLECT,
            wave: VULN_REFLECT,
            plasma: VULN_REFLECT,
            phazon: VULN_REFLECT,
        },
        beam_combos: BeamCombos {
            power: VULN_REFLECT,
            ice: VULN_REFLECT,
            wave: VULN_REFLECT,
            plasma: VULN_REFLECT,
            phazon: VULN_REFLECT,
        },
    }
}

/// The profile of a blue door: everything normal but a deflected boost ball,
/// with enemy fire ignored.
pub open spec fn spec_blue_profile() -> DamageVulnerability {
    DamageVulnerability {
        power: VULN_NORMAL,
        ice: VULN_NORMAL,
        wave: VULN_NORMAL,
        plasma: VULN_NORMAL,
        bomb: VULN_NORMAL,
        power_bomb: VULN_NORMAL,
        missile: VULN_NORMAL,
        boost_ball: VULN_REFLECT,
        phazon: VULN_NORMAL,
        charged_beams: ChargedBeams {
            power: VULN_NORMAL,
            ice: VULN_NORMAL,
            wave: VULN_NORMAL,
            plasma: VULN_NORMAL,
            phazon: VULN_NORMAL,
        },
        beam_combos: BeamCombos {
            power: VULN_NORMAL,
            ice: VULN_NORMAL,
            wave: VULN_NORMAL,
            plasma: VULN_NORMAL,
            phazon: VULN_NORMAL,
        },
        ..spec_locked_base()
    }
}

/// The profile of a disabled door: everything ignored but phazon.
pub open spec fn spec_disabled_profile() -> DamageVulnerability {
    DamageVulnerability {
        power: VULN_IMMUNE,
        ice: VULN_IMMUNE,
        wave: VULN_IMMUNE,
        plasma: VULN_IMMUNE,
        missile: VULN_IMMUNE,
        boost_ball: VULN_IMMUNE,
        phazon: VULN_NORMAL,
        charged_beams: ChargedBeams {
            power: VULN_IMMUNE,
            ice: VULN_IMMUNE,
            wave: VULN_IMMUNE,
            plasma: VULN_IMMUNE,
            phazon: VULN_NORMAL,
        },
        beam_combos: BeamCombos {
            power: VULN_IMMUNE,
            ice: VULN_IMMUNE,
            wave: VULN_IMMUNE,
            plasma: VULN_IMMUNE,
            phazon: VULN_NORMAL,
        },
        ..spec_locked_base()
    }
}

/// The profile of the decorative "ai" door: phazon and enemy fire land.
pub open spec fn spec_ai_profile() -> DamageVulnerability {
    DamageVulnerability {
        boost_ball: VULN_IMMUNE,
        phazon: VULN_NORMAL,
        enemy_weapon0: VULN_NORMAL,
        enemy_weapon1: VULN_NORMAL,
        enemy_weapon2: VULN_NORMAL,
        enemy_weapon3: VULN_NORMAL,
        unknown_weapon0: VULN_NORMAL,
        unknown_weapon1: VULN_NORMAL,
        unknown_weapon2: VULN_NORMAL,
        charged_beams: ChargedBeams {
            power: VULN_REFLECT,
            ice: VULN_REFLECT,
            wave: VULN_REFLECT,
            plasma: VULN_REFLECT,
            phazon: VULN_NORMAL,
        },
        beam_combos: BeamCombos {
            power: VULN_REFLECT,
            ice: VULN_REFLECT,
            wave: VULN_REFLECT,
            plasma: VULN_REFLECT,
            phazon: VULN_NORMAL,
        },
        ..spec_locked_base()
    }
}

/// A beam door: the matching beam and its charged shot land, every other
/// category keeps the locked base, and the beam combo of `combo_beam`
/// (the same beam, stated separately) lands too for the plain color doors.
pub open spec fn spec_beams(
    power: u32,
    ice: u32,
    wave: u32,
    plasma: u32,
    phazon: u32,
) -> ChargedBeams {
    ChargedBeams { power, ice, wave, plasma, phazon }
}

pub open spec fn spec_combos(
    power: u32,
    ice: u32,
    wave: u32,
    plasma: u32,
    phazon: u32,
) -> BeamCombos {
    BeamCombos { power, ice, wave, plasma, phazon }
}

impl DoorType {
    pub open spec fn spec_is_vertical(self) -> bool {
        match self {
            DoorType::VerticalBlue => true,
            DoorType::VerticalPowerOnly => true,
            DoorType::VerticalPurple => true,
            DoorType::VerticalWhite => true,
            DoorType::VerticalRed => true,
            DoorType::VerticalPowerBomb => true,
            DoorType::VerticalBomb => true,
            DoorType::VerticalMissile => true,
            DoorType::VerticalCharge => true,
            DoorType::VerticalSuper => true,
            DoorType::VerticalDisabled => true,
            DoorType::VerticalWavebuster => true,
            DoorType::VerticalIcespreader => true,
            DoorType::VerticalFlamethrower => true,
            DoorType::VerticalAi => true,
            _ => false,
        }
    }

    pub fn is_vertical(&self) -> (r: bool)
        ensures
            r == self.spec_is_vertical(),
    {
        match self {
            DoorType::VerticalBlue => true,
            DoorType::VerticalPowerOnly => true,
            DoorType::VerticalPurple => true,
            DoorType::VerticalWhite => true,
            DoorType::VerticalRed => true,
            DoorType::VerticalPowerBomb => true,
            DoorType::VerticalBomb => true,
            DoorType::VerticalMissile => true,
            DoorType::VerticalCharge => true,
            DoorType::VerticalSuper => true,
            DoorType::VerticalDisabled => true,
            DoorType::VerticalWavebuster => true,
            DoorType::VerticalIcespreader => true,
            DoorType::VerticalFlamethrower => true,
            DoorType::VerticalAi => true,
            _ => false,
        }
    }

    /// The vertical counterpart of a horizontal variant; vertical variants
    /// (and the unused boost door) map to themselves.
    pub open spec fn spec_to_vertical(self) -> DoorType {
        match self {
            DoorType::Blue => DoorType::VerticalBlue,
            DoorType::PowerOnly => DoorType::VerticalPowerOnly,
            DoorType::Purple => DoorType::VerticalPurple,
            DoorType::White => DoorType::VerticalWhite,
            DoorType::Red => DoorType::VerticalRed,
            DoorType::PowerBomb => DoorType::VerticalPowerBomb,
            DoorType::Bomb => DoorType::VerticalBomb,
            DoorType::Missile => DoorType::VerticalMissile,
            DoorType::Charge => DoorType::VerticalCharge,
            DoorType::Super => DoorType::VerticalSuper,
            DoorType::Disabled => DoorType::VerticalDisabled,
            DoorType::Wavebuster => DoorType::VerticalWavebuster,
            DoorType::Icespreader => DoorType::VerticalIcespreader,
            DoorType::Flamethrower => DoorType::VerticalFlamethrower,
            DoorType::Ai => DoorType::VerticalAi,
            _ => self,
        }
    }

    pub fn to_vertical(&self) -> (r: DoorType)
        ensures
            r == self.spec_to_vertical(),
    {
        match self {
            DoorType::Blue => DoorType::VerticalBlue,
            DoorType::PowerOnly => DoorType::VerticalPowerOnly,
            DoorType::Purple => DoorType::VerticalPurple,
            DoorType::White => DoorType::VerticalWhite,
            DoorType::Red => DoorType::VerticalRed,
            DoorType::PowerBomb => DoorType::VerticalPowerBomb,
            DoorType::Bomb => DoorType::VerticalBomb,
            DoorType::Missile => DoorType::VerticalMissile,
            DoorType::Charge => DoorType::VerticalCharge,
            DoorType::Super => DoorType::VerticalSuper,
            DoorType::Disabled => DoorType::VerticalDisabled,
            DoorType::Wavebuster => DoorType::VerticalWavebuster,
            DoorType::Icespreader => DoorType::VerticalIcespreader,
            DoorType::Flamethrower => DoorType::VerticalFlamethrower,
            DoorType::Ai => DoorType::VerticalAi,
            _ => *self,
        }
    }

    /// The door-frame model, which also selects the frame texture.
    pub open spec fn spec_shield_cmdl(self) -> u32 {
        match self {
            DoorType::Blue => 0x0734977A,
            DoorType::PowerOnly => 0x0734977A,
            DoorType::Purple => 0x33188D1B,
            DoorType::White => 0x59649E9D,
            DoorType::Red => 0xBBBA1EC7,
            DoorType::Boost => 0x0734977A,
            DoorType::PowerBomb => ids::POWER_BOMB_DOOR_CMDL,
            DoorType::Bomb => ids::MORPH_BALL_BOMB_DOOR_CMDL,
            DoorType::Missile => ids::MISSILE_DOOR_CMDL,
            DoorType::Charge => ids::CHARGE_DOOR_CMDL,
            DoorType::Super => ids::SUPER_MISSILE_DOOR_CMDL,
            DoorType::Disabled => ids::DISABLED_DOOR_CMDL,
            DoorType::Wavebuster => ids::WAVEBUSTER_DOOR_CMDL,
            DoorType::Icespreader => ids::ICESPREADER_DOOR_CMDL,
            DoorType::Flamethrower => ids::FLAMETHROWER_DOOR_CMDL,
            DoorType::Ai => ids::AI_DOOR_CMDL,
            DoorType::VerticalBlue => 0x18D0AEE6,
            DoorType::VerticalPowerOnly => 0x18D0AEE6,
            DoorType::VerticalPurple => 0x095B0B93,
            DoorType::VerticalWhite => 0xB7A8A4C9,
            DoorType::VerticalRed => ids::VERTICAL_RED_DOOR_CMDL,
            DoorType::VerticalPowerBomb => ids::VERTICAL_POWER_BOMB_DOOR_CMDL,
            DoorType::VerticalBomb => ids::VERTICAL_MORPH_BALL_BOMB_DOOR_CMDL,
            DoorType::VerticalMissile => ids::VERTICAL_MISSILE_DOOR_CMDL,
            DoorType::VerticalCharge => ids::VERTICAL_CHARGE_DOOR_CMDL,
            DoorType::VerticalSuper => ids::VERTICAL_SUPER_MISSILE_DOOR_CMDL,
            DoorType::VerticalDisabled => ids::VERTICAL_DISABLED_DOOR_CMDL,
            DoorType::VerticalWavebuster => ids::VERTICAL_WAVEBUSTER_DOOR_CMDL,
            DoorType::VerticalIcespreader => ids::VERTICAL_ICESPREADER_DOOR_CMDL,
            DoorType::VerticalFlamethrower => ids::VERTICAL_FLAMETHROWER_DOOR_CMDL,
            DoorType::VerticalAi => ids::VERTICAL_AI_DOOR_CMDL,
        }
    }

    pub fn shield_cmdl(&self) -> (r: u32)
        ensures
            r == self.spec_shield_cmdl(),
    {
        match self {
            DoorType::Blue => 0x0734977A,
            DoorType::PowerOnly => 0x0734977A,
            DoorType::Purple => 0x33188D1B,
            DoorType::White => 0x59649E9D,
            DoorType::Red => 0xBBBA1EC7,
            DoorType::Boost => 0x0734977A,
            DoorType::PowerBomb => ids::POWER_BOMB_DOOR_CMDL,
            DoorType::Bomb => ids::MORPH_BALL_BOMB_DOOR_CMDL,
            DoorType::Missile => ids::MISSILE_DOOR_CMDL,
            DoorType::Charge => ids::CHARGE_DOOR_CMDL,
            DoorType::Super => ids::SUPER_MISSILE_DOOR_CMDL,
            DoorType::Disabled => ids::DISABLED_DOOR_CMDL,
            DoorType::Wavebuster => ids::WAVEBUSTER_DOOR_CMDL,
            DoorType::Icespreader => ids::ICESPREADER_DOOR_CMDL,
            DoorType::Flamethrower => ids::FLAMETHROWER_DOOR_CMDL,
            DoorType::Ai => ids::AI_DOOR_CMDL,
            DoorType::VerticalBlue => 0x18D0AEE6,
            DoorType::VerticalPowerOnly => 0x18D0AEE6,
            DoorType::VerticalPurple => 0x095B0B93,
            DoorType::VerticalWhite => 0xB7A8A4C9,
            DoorType::VerticalRed => ids::VERTICAL_RED_DOOR_CMDL,
            DoorType::VerticalPowerBomb => ids::VERTICAL_POWER_BOMB_DOOR_CMDL,
            DoorType::VerticalBomb => ids::VERTICAL_MORPH_BALL_BOMB_DOOR_CMDL,
            DoorType::VerticalMissile => ids::VERTICAL_MISSILE_DOOR_CMDL,
            DoorType::VerticalCharge => ids::VERTICAL_CHARGE_DOOR_CMDL,
            DoorType::VerticalSuper => ids::VERTICAL_SUPER_MISSILE_DOOR_CMDL,
            DoorType::VerticalDisabled => ids::VERTICAL_DISABLED_DOOR_CMDL,
            DoorType::VerticalWavebuster => ids::VERTICAL_WAVEBUSTER_DOOR_CMDL,
            DoorType::VerticalIcespreader => ids::VERTICAL_ICESPREADER_DOOR_CMDL,
            DoorType::VerticalFlamethrower => ids::VERTICAL_FLAMETHROWER_DOOR_CMDL,
            DoorType::VerticalAi => ids::VERTICAL_AI_DOOR_CMDL,
        }
    }

    /// The map-icon object type for this door color.
    pub open spec fn spec_map_object_type(self) -> u32 {
        match self {
            DoorType::Blue => MAPA_DOOR_NORMAL,
            DoorType::PowerOnly => MAPA_DOOR_NORMAL,
            DoorType::Charge => MAPA_DOOR_NORMAL,
            DoorType::Bomb => MAPA_DOOR_NORMAL,
            DoorType::Purple => MAPA_DOOR_WAVE,
            DoorType::Wavebuster => MAPA_DOOR_WAVE,
            DoorType::White => MAPA_DOOR_ICE,
            DoorType::Icespreader => MAPA_DOOR_ICE,
            DoorType::Red => MAPA_DOOR_PLASMA,
            DoorType::Flamethrower => MAPA_DOOR_PLASMA,
            DoorType::VerticalBlue => MAPA_DOOR_NORMAL,
            DoorType::VerticalPowerOnly => MAPA_DOOR_NORMAL,
            DoorType::VerticalCharge => MAPA_DOOR_NORMAL,
            DoorType::VerticalBomb => MAPA_DOOR_NORMAL,
            DoorType::VerticalPurple => MAPA_DOOR_WAVE_CEILING,
            DoorType::VerticalWavebuster => MAPA_DOOR_WAVE_CEILING,
            DoorType::VerticalWhite => MAPA_DOOR_ICE_CEILING,
            DoorType::VerticalIcespreader => MAPA_DOOR_ICE_CEILING,
            DoorType::VerticalRed => MAPA_DOOR_PLASMA_CEILING,
            DoorType::VerticalFlamethrower => MAPA_DOOR_PLASMA_CEILING,
            _ => MAPA_DOOR_SHIELD,
        }
    }

    pub fn map_object_type(&self) -> (r: u32)
        ensures
            r == self.spec_map_object_type(),
    {
        match self {
            DoorType::Blue => MAPA_DOOR_NORMAL,
            DoorType::PowerOnly => MAPA_DOOR_NORMAL,
            DoorType::Charge => MAPA_DOOR_NORMAL,
            DoorType::Bomb => MAPA_DOOR_NORMAL,
            DoorType::Purple => MAPA_DOOR_WAVE,
            DoorType::Wavebuster => MAPA_DOOR_WAVE,
            DoorType::White => MAPA_DOOR_ICE,
            DoorType::Icespreader => MAPA_DOOR_ICE,
            DoorType::Red => MAPA_DOOR_PLASMA,
            DoorType::Flamethrower => MAPA_DOOR_PLASMA,
            DoorType::VerticalBlue => MAPA_DOOR_NORMAL,
            DoorType::VerticalPowerOnly => MAPA_DOOR_NORMAL,
            DoorType::VerticalCharge => MAPA_DOOR_NORMAL,
            DoorType::VerticalBomb => MAPA_DOOR_NORMAL,
            DoorType::VerticalPurple => MAPA_DOOR_WAVE_CEILING,
            DoorType::VerticalWavebuster => MAPA_DOOR_WAVE_CEILING,
            DoorType::VerticalWhite => MAPA_DOOR_ICE_CEILING,
            DoorType::VerticalIcespreader => MAPA_DOOR_ICE_CEILING,
            DoorType::VerticalRed => MAPA_DOOR_PLASMA_CEILING,
            DoorType::VerticalFlamethrower => MAPA_DOOR_PLASMA_CEILING,
            _ => MAPA_DOOR_SHIELD,
        }
    }

    /// The horizontal base of this variant: vertical variants map back to the
    /// variant they mirror, the rest to themselves.
    pub open spec fn spec_base(self) -> DoorType {
        match self {
            DoorType::VerticalBlue => DoorType::Blue,
            DoorType::VerticalPowerOnly => DoorType::PowerOnly,
            DoorType::VerticalPurple => DoorType::Purple,
            DoorType::VerticalWhite => DoorType::White,
            DoorType::VerticalRed => DoorType::Red,
            DoorType::VerticalPowerBomb => DoorType::PowerBomb,
            DoorType::VerticalBomb => DoorType::Bomb,
            DoorType::VerticalMissile => DoorType::Missile,
            DoorType::VerticalCharge => DoorType::Charge,
            DoorType::VerticalSuper => DoorType::Super,
            DoorType::VerticalDisabled => DoorType::Disabled,
            DoorType::VerticalWavebuster => DoorType::Wavebuster,
            DoorType::VerticalIcespreader => DoorType::Icespreader,
            DoorType::VerticalFlamethrower => DoorType::Flamethrower,
            DoorType::VerticalAi => DoorType::Ai,
            _ => self,
        }
    }

    fn base(&self) -> (r: DoorType)
        ensures
            r == self.spec_base(),
    {
        match self {
            DoorType::VerticalBlue => DoorType::Blue,
            DoorType::VerticalPowerOnly => DoorType::PowerOnly,
            DoorType::VerticalPurple => DoorType::Purple,
            DoorType::VerticalWhite => DoorType::White,
            DoorType::VerticalRed => DoorType::Red,
            DoorType::VerticalPowerBomb => DoorType::PowerBomb,
            DoorType::VerticalBomb => DoorType::Bomb,
            DoorType::VerticalMissile => DoorType::Missile,
            DoorType::VerticalCharge => DoorType::Charge,
            DoorType::VerticalSuper => DoorType::Super,
            DoorType::VerticalDisabled => DoorType::Disabled,
            DoorType::VerticalWavebuster => DoorType::Wavebuster,
            DoorType::VerticalIcespreader => DoorType::Icespreader,
            DoorType::VerticalFlamethrower => DoorType::Flamethrower,
            DoorType::VerticalAi => DoorType::Ai,
            _ => *self,
        }
    }

    /// The texture scrolled across the door's center for the forcefield
    /// effect. Vertical variants share their base variant's texture.
    pub open spec fn spec_forcefield_txtr(self) -> u32 {
        match self.spec_base() {
            DoorType::Blue => 0x8A7F3683,
            DoorType::PowerOnly => 0x8A7F3683,
            DoorType::Purple => 0xF68DF7F1,
            DoorType::White => 0xBE4CD99D,
            DoorType::Red => 0xFC095F6C,
            DoorType::Boost => 0x8A7F3683,
            DoorType::PowerBomb => 0x1D588B22,
            DoorType::Bomb => 0xFC095F6C,
            DoorType::Missile => 0x8344BEC8,
            DoorType::Charge => 0x8A7F3683,
            DoorType::Super => 0xD5C17775,
            DoorType::Disabled => 0x717AABCE,
            DoorType::Wavebuster => 0xF68DF7F1,
            DoorType::Icespreader => 0xBE4CD99D,
            DoorType::Flamethrower => 0xFC095F6C,
            DoorType::Ai => 0x717AABCE,
            _ => 0x8A7F3683,
        }
    }

    pub fn forcefield_txtr(&self) -> (r: u32)
        ensures
            r == self.spec_forcefield_txtr(),
    {
        match self.base() {
            DoorType::Blue => 0x8A7F3683,
            DoorType::PowerOnly => 0x8A7F3683,
            DoorType::Purple => 0xF68DF7F1,
            DoorType::White => 0xBE4CD99D,
            DoorType::Red => 0xFC095F6C,
            DoorType::Boost => 0x8A7F3683,
            DoorType::PowerBomb => 0x1D588B22,
            DoorType::Bomb => 0xFC095F6C,
            DoorType::Missile => 0x8344BEC8,
            DoorType::Charge => 0x8A7F3683,
            DoorType::Super => 0xD5C17775,
            DoorType::Disabled => 0x717AABCE,
            DoorType::Wavebuster => 0xF68DF7F1,
            DoorType::Icespreader => 0xBE4CD99D,
            DoorType::Flamethrower => 0xFC095F6C,
            DoorType::Ai => 0x717AABCE,
            _ => 0x8A7F3683,
        }
    }

    /// The color texture applied to the rim of the door frame. Vertical
    /// variants share their base variant's texture.
    pub open spec fn spec_holorim_texture(self) -> u32 {
        match self.spec_base() {
            DoorType::Blue => 0x88ED4593,
            DoorType::PowerOnly => 0x88ED4593,
            DoorType::Purple => 0xAB031EA9,
            DoorType::White => 0xF6870C9F,
            DoorType::Red => 0x61A6945B,
            DoorType::Boost => 0x88ED4593,
            DoorType::PowerBomb => ids::POWER_BOMB_DOOR_TXTR,
            DoorType::Bomb => ids::MORPH_BALL_BOMB_DOOR_TXTR,
            DoorType::Missile => 0x459582C1,
            DoorType::Charge => 0xC7C8AF66,
            DoorType::Super => ids::SUPER_MISSILE_DOOR_TXTR,
            DoorType::Wavebuster => ids::WAVEBUSTER_DOOR_TXTR,
            DoorType::Icespreader => ids::ICESPREADER_DOOR_TXTR,
            DoorType::Flamethrower => ids::FLAMETHROWER_DOOR_TXTR,
            DoorType::Disabled => 0x717AABCE,
            DoorType::Ai => ids::AI_DOOR_TXTR,
            _ => 0x88ED4593,
        }
    }

    pub fn holorim_texture(&self) -> (r: u32)
        ensures
            r == self.spec_holorim_texture(),
    {
        match self.base() {
            DoorType::Blue => 0x88ED4593,
            DoorType::PowerOnly => 0x88ED4593,
            DoorType::Purple => 0xAB031EA9,
            DoorType::White => 0xF6870C9F,
            DoorType::Red => 0x61A6945B,
            DoorType::Boost => 0x88ED4593,
            DoorType::PowerBomb => ids::POWER_BOMB_DOOR_TXTR,
            DoorType::Bomb => ids::MORPH_BALL_BOMB_DOOR_TXTR,
            DoorType::Missile => 0x459582C1,
            DoorType::Charge => 0xC7C8AF66,
            DoorType::Super => ids::SUPER_MISSILE_DOOR_TXTR,
            DoorType::Wavebuster => ids::WAVEBUSTER_DOOR_TXTR,
            DoorType::Icespreader => ids::ICESPREADER_DOOR_TXTR,
            DoorType::Flamethrower => ids::FLAMETHROWER_DOOR_TXTR,
            DoorType::Disabled => 0x717AABCE,
            DoorType::Ai => ids::AI_DOOR_TXTR,
            _ => 0x88ED4593,
        }
    }

    /// The interaction profile of this variant. Vertical variants share
    /// their base variant's profile exactly.
    pub open spec fn spec_vulnerability(self) -> DamageVulnerability {
        match self.spec_base() {
            DoorType::Blue => spec_blue_profile(),
            DoorType::PowerOnly => DamageVulnerability {
                power: VULN_NORMAL,
                phazon: VULN_REFLECT,
                charged_beams: spec_beams(
                    VULN_NORMAL, VULN_REFLECT, VULN_REFLECT, VULN_REFLECT, VULN_REFLECT),
                beam_combos: spec_combos(
                    VULN_NORMAL, VULN_REFLECT, VULN_REFLECT, VULN_REFLECT, VULN_REFLECT),
                ..spec_locked_base()
            },
            DoorType::Purple => DamageVulnerability {
                wave: VULN_NORMAL,
                charged_beams: spec_beams(
                    VULN_REFLECT, VULN_REFLECT, VULN_NORMAL, VULN_REFLECT, VULN_REFLECT),
                beam_combos: spec_combos(
                    VULN_REFLECT, VULN_REFLECT, VULN_NORMAL, VULN_REFLECT, VULN_REFLECT),
                ..spec_locked_base()
            },
            DoorType::White => DamageVulnerability {
                ice: VULN_NORMAL,
                charged_beams: spec_beams(
                    VULN_REFLECT, VULN_NORMAL, VULN_REFLECT, VULN_REFLECT, VULN_REFLECT),
                beam_combos: spec_combos(
                    VULN_REFLECT, VULN_NORMAL, VULN_REFLECT, VULN_REFLECT, VULN_REFLECT),
                ..spec_locked_base()
            },
            DoorType::Red => DamageVulnerability {
                plasma: VULN_NORMAL,
                charged_beams: spec_beams(
                    VULN_REFLECT, VULN_REFLECT, VULN_REFLECT, VULN_NORMAL, VULN_REFLECT),
                beam_combos: spec_combos(
                    VULN_REFLECT, VULN_REFLECT, VULN_REFLECT, VULN_NORMAL, VULN_REFLECT),
                ..spec_locked_base()
            },
            DoorType::PowerBomb => DamageVulnerability {
                power_bomb: VULN_NORMAL,
                ..spec_locked_base()
            },
            DoorType::Bomb => DamageVulnerability { bomb: VULN_NORMAL, ..spec_locked_base() },
            DoorType::Boost => DamageVulnerability {
                boost_ball: VULN_NORMAL,
                ..spec_locked_base()
            },
            DoorType::Missile => DamageVulnerability {
                missile: VULN_NORMAL,
                ..spec_locked_base()
            },
            DoorType::Charge => DamageVulnerability {
                charged_beams: spec_beams(
                    VULN_NORMAL, VULN_NORMAL, VULN_NORMAL, VULN_NORMAL, VULN_REFLECT),
                ..spec_locked_base()
            },
            DoorType::Super => DamageVulnerability {
                beam_combos: spec_combos(
                    VULN_NORMAL, VULN_REFLECT, VULN_REFLECT, VULN_REFLECT, VULN_REFLECT),
                ..spec_locked_base()
            },
            DoorType::Wavebuster => DamageVulnerability {
                beam_combos: spec_combos(
                    VULN_REFLECT, VULN_REFLECT, VULN_NORMAL, VULN_REFLECT, VULN_REFLECT),
                ..spec_locked_base()
            },
            DoorType::Icespreader => DamageVulnerability {
                beam_combos: spec_combos(
                    VULN_REFLECT, VULN_NORMAL, VULN_REFLECT, VULN_REFLECT, VULN_REFLECT),
                ..spec_locked_base()
            },
            DoorType::Flamethrower => DamageVulnerability {
                beam_combos: spec_combos(
                    VULN_REFLECT, VULN_REFLECT, VULN_REFLECT, VULN_NORMAL, VULN_REFLECT),
                ..spec_locked_base()
            },
            DoorType::Disabled => spec_disabled_profile(),
            DoorType::Ai => spec_ai_profile(),
            _ => spec_blue_profile(),
        }
    }

    pub fn vulnerability(&self) -> (r: DamageVulnerability)
        ensures
            r == self.spec_vulnerability(),
    {
        let b = locked_base();
        match self.base() {
            DoorType::Blue => DamageVulnerability {
                power: VULN_NORMAL,
                ice: VULN_NORMAL,
                wave: VULN_NORMAL,
                plasma: VULN_NORMAL,
                bomb: VULN_NORMAL,
                power_bomb: VULN_NORMAL,
                missile: VULN_NORMAL,
                boost_ball: VULN_REFLECT,
                phazon: VULN_NORMAL,
                charged_beams: ChargedBeams {
                    power: VULN_NORMAL,
                    ice: VULN_NORMAL,
                    wave: VULN_NORMAL,
                    plasma: VULN_NORMAL,
                    phazon: VULN_NORMAL,
                },
                beam_combos: BeamCombos {
                    power: VULN_NORMAL,
                    ice: VULN_NORMAL,
                    wave: VULN_NORMAL,
                    plasma: VULN_NORMAL,
                    phazon: VULN_NORMAL,
                },
                ..b
            },
            DoorType::PowerOnly => DamageVulnerability {
                power: VULN_NORMAL,
                phazon: VULN_REFLECT,
                charged_beams: ChargedBeams {
                    power: VULN_NORMAL,
                    ice: VULN_REFLECT,
                    wave: VULN_REFLECT,
                    plasma: VULN_REFLECT,
                    phazon: VULN_REFLECT,
                },
                beam_combos: BeamCombos {
                    power: VULN_NORMAL,
                    ice: VULN_REFLECT,
                    wave: VULN_REFLECT,
                    plasma: VULN_REFLECT,
                    phazon: VULN_REFLECT,
                },
                ..b
            },
            DoorType::Purple => DamageVulnerability {
                wave: VULN_NORMAL,
                charged_beams: ChargedBeams {
                    power: VULN_REFLECT,
                    ice: VULN_REFLECT,
                    wave: VULN_NORMAL,
                    plasma: VULN_REFLECT,
                    phazon: VULN_REFLECT,
                },
                beam_combos: BeamCombos {
                    power: VULN_REFLECT,
                    ice: VULN_REFLECT,
                    wave: VULN_NORMAL,
                    plasma: VULN_REFLECT,
                    phazon: VULN_REFLECT,
                },
                ..b
            },
            DoorType::White => DamageVulnerability {
                ice: VULN_NORMAL,
                charged_beams: ChargedBeams {
                    power: VULN_REFLECT,
                    ice: VULN_NORMAL,
                    wave: VULN_REFLECT,
                    plasma: VULN_REFLECT,
                    phazon: VULN_REFLECT,
                },
                beam_combos: BeamCombos {
                    power: VULN_REFLECT,
                    ice: VULN_NORMAL,
                    wave: VULN_REFLECT,
                    plasma: VULN_REFLECT,
                    phazon: VULN_REFLECT,
                },
                ..b
            },
            DoorType::Red => DamageVulnerability {
                plasma: VULN_NORMAL,
                charged_beams: ChargedBeams {
                    power: VULN_REFLECT,
                    ice: VULN_REFLECT,
                    wave: VULN_REFLECT,
                    plasma: VULN_NORMAL,
                    phazon: VULN_REFLECT,
                },
                beam_combos: BeamCombos {
                    power: VULN_REFLECT,
                    ice: VULN_REFLECT,
                    wave: VULN_REFLECT,
                    plasma: VULN_NORMAL,
                    phazon: VULN_REFLECT,
                },
                ..b
            },
            DoorType::PowerBomb => DamageVulnerability { power_bomb: VULN_NORMAL, ..b },
            DoorType::Bomb => DamageVulnerability { bomb: VULN_NORMAL, ..b },
            DoorType::Boost => DamageVulnerability { boost_ball: VULN_NORMAL, ..b },
            DoorType::Missile => DamageVulnerability { missile: VULN_NORMAL, ..b },
            DoorType::Charge => DamageVulnerability {
                charged_beams: ChargedBeams {
                    power: VULN_NORMAL,
                    ice: VULN_NORMAL,
                    wave: VULN_NORMAL,
                    plasma: VULN_NORMAL,
                    phazon: VULN_REFLECT,
                },
                ..b
            },
            DoorType::Super => DamageVulnerability {
                beam_combos: BeamCombos {
                    power: VULN_NORMAL,
                    ice: VULN_REFLECT,
                    wave: VULN_REFLECT,
                    plasma: VULN_REFLECT,
                    phazon: VULN_REFLECT,
                },
                ..b
            },
            DoorType::Wavebuster => DamageVulnerability {
                beam_combos: BeamCombos {
                    power: VULN_REFLECT,
                    ice: VULN_REFLECT,
                    wave: VULN_NORMAL,
                    plasma: VULN_REFLECT,
                    phazon: VULN_REFLECT,
                },
                ..b
            },
            DoorType::Icespreader => DamageVulnerability {
                beam_combos: BeamCombos {
                    power: VULN_REFLECT,
                    ice: VULN_NORMAL,
                    wave: VULN_REFLECT,
                    plasma: VULN_REFLECT,
                    phazon: VULN_REFLECT,
                },
                ..b
            },
            DoorType::Flamethrower => DamageVulnerability {
                beam_combos: BeamCombos {
                    power: VULN_REFLECT,
                    ice: VULN_REFLECT,
                    wave: VULN_REFLECT,
                    plasma: VULN_NORMAL,
                    phazon: VULN_REFLECT,
                },
                ..b
            },
            DoorType::Disabled => DamageVulnerability {
                power: VULN_IMMUNE,
                ice: VULN_IMMUNE,
                wave: VULN_IMMUNE,
                plasma: VULN_IMMUNE,
                missile: VULN_IMMUNE,
                boost_ball: VULN_IMMUNE,
                phazon: VULN_NORMAL,
                charged_beams: ChargedBeams {
                    power: VULN_IMMUNE,
                    ice: VULN_IMMUNE,
                    wave: VULN_IMMUNE,
                    plasma: VULN_IMMUNE,
                    phazon: VULN_NORMAL,
                },
                beam_combos: BeamCombos {
                    power: VULN_IMMUNE,
                    ice: VULN_IMMUNE,
                    wave: VULN_IMMUNE,
                    plasma: VULN_IMMUNE,
                    phazon: VULN_NORMAL,
                },
                ..b
            },
            DoorType::Ai => DamageVulnerability {
                boost_ball: VULN_IMMUNE,
                phazon: VULN_NORMAL,
                enemy_weapon0: VULN_NORMAL,
                enemy_weapon1: VULN_NORMAL,
                enemy_weapon2: VULN_NORMAL,
                enemy_weapon3: VULN_NORMAL,
                unknown_weapon0: VULN_NORMAL,
                unknown_weapon1: VULN_NORMAL,
                unknown_weapon2: VULN_NORMAL,
                charged_beams: ChargedBeams {
                    power: VULN_REFLECT,
                    ice: VULN_REFLECT,
                    wave: VULN_REFLECT,
                    plasma: VULN_REFLECT,
                    phazon: VULN_NORMAL,
                },
                beam_combos: BeamCombos {
                    power: VULN_REFLECT,
                    ice: VULN_REFLECT,
                    wave: VULN_REFLECT,
                    plasma: VULN_REFLECT,
                    phazon: VULN_NORMAL,
                },
                ..b
            },
            _ => DamageVulnerability {
                power: VULN_NORMAL,
                ice: VULN_NORMAL,
                wave: VULN_NORMAL,
                plasma: VULN_NORMAL,
                bomb: VULN_NORMAL,
                power_bomb: VULN_NORMAL,
                missile: VULN_NORMAL,
                boost_ball: VULN_REFLECT,
                phazon: VULN_NORMAL,
                charged_beams: ChargedBeams {
                    power: VULN_NORMAL,
                    ice: VULN_NORMAL,
                    wave: VULN_NORMAL,
                    plasma: VULN_NORMAL,
                    phazon: VULN_NORMAL,
                },
                beam_combos: BeamCombos {
                    power: VULN_NORMAL,
                    ice: VULN_NORMAL,
                    wave: VULN_NORMAL,
                    plasma: VULN_NORMAL,
                    phazon: VULN_NORMAL,
                },
                ..b
            },
        }
    }

    /// The variant whose frame model is `cmdl`, for the vanilla models.
    pub open spec fn spec_from_cmdl(cmdl: u32) -> Option<DoorType> {
        if cmdl == 0x0734977A {
            Some(DoorType::Blue)
        } else if cmdl == 0x33188D1B {
            Some(DoorType::Purple)
        } else if cmdl == 0x59649E9D {
            Some(DoorType::White)
        } else if cmdl == 0xBBBA1EC7 {
            Some(DoorType::Red)
        } else if cmdl == 0x18D0AEE6 {
            Some(DoorType::VerticalBlue)
        } else if cmdl == 0x095B0B93 {
            Some(DoorType::VerticalPurple)
        } else if cmdl == 0xB7A8A4C9 {
            Some(DoorType::VerticalWhite)
        } else {
            None
        }
    }

    pub fn from_cmdl(cmdl: &u32) -> (r: Option<DoorType>)
        ensures
            r == Self::spec_from_cmdl(*cmdl),
    {
        match *cmdl {
            0x0734977A => Some(DoorType::Blue),
            0x33188D1B => Some(DoorType::Purple),
            0x59649E9D => Some(DoorType::White),
            0xBBBA1EC7 => Some(DoorType::Red),
            0x18D0AEE6 => Some(DoorType::VerticalBlue),
            0x095B0B93 => Some(DoorType::VerticalPurple),
            0xB7A8A4C9 => Some(DoorType::VerticalWhite),
            _ => None,
        }
    }

    /// The variant whose forcefield texture is `txtr`, for the vanilla colors.
    pub open spec fn spec_from_txtr(txtr: u32) -> Option<DoorType> {
        if txtr == 0x8A7F3683 {
            Some(DoorType::Blue)
        } else if txtr == 0xF68DF7F1 {
            Some(DoorType::Purple)
        } else if txtr == 0xBE4CD99D {
            Some(DoorType::White)
        } else if txtr == 0xFC095F6C {
            Some(DoorType::Red)
        } else {
            None
        }
    }

    pub fn from_txtr(txtr: &u32) -> (r: Option<DoorType>)
        ensures
            r == Self::spec_from_txtr(*txtr),
    {
        match *txtr {
            0x8A7F3683 => Some(DoorType::Blue),
            0xF68DF7F1 => Some(DoorType::Purple),
            0xBE4CD99D => Some(DoorType::White),
            0xFC095F6C => Some(DoorType::Red),
            _ => None,
        }
    }

    /// The raw dependency list before sentinel filtering and deduplication:
    /// the frame model, the forcefield texture, and the rim texture.
    pub open spec fn spec_raw_dependencies(self) -> Seq<ResKey> {
        seq![
            ResKey { id: self.spec_shield_cmdl(), fourcc: FOURCC_CMDL },
            ResKey { id: self.spec_forcefield_txtr(), fourcc: FOURCC_TXTR },
            ResKey { id: self.spec_holorim_texture(), fourcc: FOURCC_TXTR },
        ]
    }

    /// The dependencies an area must embed before it can show this variant.
    pub open spec fn spec_dependencies(self) -> Seq<ResKey> {
        dedup_keys(self.spec_raw_dependencies())
    }

    pub fn dependencies(&self) -> (deps: Vec<ResKey>)
        ensures
            deps@ == self.spec_dependencies(),
    {
        let mut deps: Vec<ResKey> = Vec::new();
        push_unique(&mut deps, ResKey { id: self.shield_cmdl(), fourcc: FOURCC_CMDL });
        push_unique(&mut deps, ResKey { id: self.forcefield_txtr(), fourcc: FOURCC_TXTR });
        push_unique(&mut deps, ResKey { id: self.holorim_texture(), fourcc: FOURCC_TXTR });
        proof {
            assert(deps@ =~= dedup_keys(self.spec_raw_dependencies())) by {
                reveal_with_fuel(dedup_keys_from, 4);
                assert(self.spec_raw_dependencies().drop_first().drop_first().drop_first()
                    =~= Seq::<ResKey>::empty());
            }
        }
        deps
    }

    /// Every door variant, in catalog order.
    pub open spec fn spec_all() -> Seq<DoorType> {
        seq![
            DoorType::Blue,
            DoorType::PowerOnly,
            DoorType::Purple,
            DoorType::White,
            DoorType::Red,
            DoorType::PowerBomb,
            DoorType::Bomb,
            DoorType::Boost,
            DoorType::Missile,
            DoorType::Charge,
            DoorType::Super,
            DoorType::Disabled,
            DoorType::Wavebuster,
            DoorType::Icespreader,
            DoorType::Flamethrower,
            DoorType::Ai,
            DoorType::VerticalBlue,
            DoorType::VerticalPowerOnly,
            DoorType::VerticalPurple,
            DoorType::VerticalWhite,
            DoorType::VerticalRed,
            DoorType::VerticalPowerBomb,
            DoorType::VerticalBomb,
            DoorType::VerticalMissile,
            DoorType::VerticalCharge,
            DoorType::VerticalSuper,
            DoorType::VerticalDisabled,
            DoorType::VerticalWavebuster,
            DoorType::VerticalIcespreader,
            DoorType::VerticalFlamethrower,
            DoorType::VerticalAi,
        ]
    }

    pub fn iter() -> (r: Vec<DoorType>)
        ensures
            r@ == Self::spec_all(),
    {
        let mut v: Vec<DoorType> = Vec::new();
        v.push(DoorType::Blue);
        v.push(DoorType::PowerOnly);
        v.push(DoorType::Purple);
        v.push(DoorType::White);
        v.push(DoorType::Red);
        v.push(DoorType::PowerBomb);
        v.push(DoorType::Bomb);
        v.push(DoorType::Boost);
        v.push(DoorType::Missile);
        v.push(DoorType::Charge);
        v.push(DoorType::Super);
        v.push(DoorType::Disabled);
        v.push(DoorType::Wavebuster);
        v.push(DoorType::Icespreader);
        v.push(DoorType::Flamethrower);
        v.push(DoorType::Ai);
        v.push(DoorType::VerticalBlue);
        v.push(DoorType::VerticalPowerOnly);
        v.push(DoorType::VerticalPurple);
        v.push(DoorType::VerticalWhite);
        v.push(DoorType::VerticalRed);
        v.push(DoorType::VerticalPowerBomb);
        v.push(DoorType::VerticalBomb);
        v.push(DoorType::VerticalMissile);
        v.push(DoorType::VerticalCharge);
        v.push(DoorType::VerticalSuper);
        v.push(DoorType::VerticalDisabled);
        v.push(DoorType::VerticalWavebuster);
        v.push(DoorType::VerticalIcespreader);
        v.push(DoorType::VerticalFlamethrower);
        v.push(DoorType::VerticalAi);
        proof {
            assert(v@ =~= Self::spec_all());
        }
        v
    }
}

/// Every field of every variant's interaction profile is set to one of the
/// three enumerated vulnerability values.
pub proof fn lemma_profile_fully_enumerated(v: DoorType)
    ensures
        fully_enumerated(v.spec_vulnerability()),
{
}

/// A vertical variant's interaction profile and forcefield texture equal its
/// base variant's exactly.
pub proof fn lemma_vertical_mirrors_base(v: DoorType)
    requires
        !v.spec_is_vertical(),
    ensures
        v.spec_to_vertical().spec_vulnerability() == v.spec_vulnerability(),
        v.spec_to_vertical().spec_forcefield_txtr() == v.spec_forcefield_txtr(),
        v.spec_to_vertical().spec_holorim_texture() == v.spec_holorim_texture(),
{
}

/// Every variant's dependency list is non-empty, holds no duplicate
/// `(id, type)` key and no sentinel id, and holds the variant's primary
/// frame model.
pub proof fn lemma_dependencies_wellformed(v: DoorType)
    ensures
        v.spec_dependencies().len() > 0,
        forall|i: int, j: int|
            0 <= i < j < v.spec_dependencies().len()
                ==> v.spec_dependencies()[i] != v.spec_dependencies()[j],
        forall|i: int|
            0 <= i < v.spec_dependencies().len()
                ==> !is_sentinel_id(v.spec_dependencies()[i].id),
        v.spec_dependencies().contains(
            ResKey { id: v.spec_shield_cmdl(), fourcc: FOURCC_CMDL },
        ),
{
    let raw = v.spec_raw_dependencies();
    lemma_dedup_no_dup(Seq::<ResKey>::empty(), raw);
    lemma_dedup_contains(Seq::<ResKey>::empty(), raw, raw[0]);
    assert(!is_sentinel_id(v.spec_shield_cmdl()));
    assert(raw.contains(raw[0]));
}

impl BlastShieldType {
    /// The shield model placed over the door.
    pub open spec fn spec_cmdl(self) -> u32 {
        match self {
            BlastShieldType::PowerBomb => ids::POWER_BOMB_BLAST_SHIELD_CMDL,
            BlastShieldType::Super => ids::SUPER_BLAST_SHIELD_CMDL,
            BlastShieldType::Wavebuster => ids::WAVEBUSTER_BLAST_SHIELD_CMDL,
            BlastShieldType::Icespreader => ids::ICESPREADER_BLAST_SHIELD_CMDL,
            BlastShieldType::Flamethrower => ids::FLAMETHROWER_BLAST_SHIELD_CMDL,
            _ => 0xEFDFFB8C,
        }
    }

    pub fn cmdl(&self) -> (r: u32)
        ensures
            r == self.spec_cmdl(),
    {
        match self {
            BlastShieldType::PowerBomb => ids::POWER_BOMB_BLAST_SHIELD_CMDL,
            BlastShieldType::Super => ids::SUPER_BLAST_SHIELD_CMDL,
            BlastShieldType::Wavebuster => ids::WAVEBUSTER_BLAST_SHIELD_CMDL,
            BlastShieldType::Icespreader => ids::ICESPREADER_BLAST_SHIELD_CMDL,
            BlastShieldType::Flamethrower => ids::FLAMETHROWER_BLAST_SHIELD_CMDL,
            _ => 0xEFDFFB8C,
        }
    }

    pub open spec fn spec_metal_body_txtr(self) -> u32 {
        match self {
            BlastShieldType::PowerBomb => ids::POWER_BOMB_BLAST_SHIELD_TXTR,
            BlastShieldType::Super => ids::SUPER_BLAST_SHIELD_TXTR,
            BlastShieldType::Wavebuster => ids::WAVEBUSTER_BLAST_SHIELD_TXTR,
            BlastShieldType::Icespreader => ids::ICESPREADER_BLAST_SHIELD_TXTR,
            BlastShieldType::Flamethrower => ids::FLAMETHROWER_BLAST_SHIELD_TXTR,
            _ => 0x6E09EA6B,
        }
    }

    pub fn metal_body_txtr(&self) -> (r: u32)
        ensures
            r == self.spec_metal_body_txtr(),
    {
        match self {
            BlastShieldType::PowerBomb => ids::POWER_BOMB_BLAST_SHIELD_TXTR,
            BlastShieldType::Super => ids::SUPER_BLAST_SHIELD_TXTR,
            BlastShieldType::Wavebuster => ids::WAVEBUSTER_BLAST_SHIELD_TXTR,
            BlastShieldType::Icespreader => ids::ICESPREADER_BLAST_SHIELD_TXTR,
            BlastShieldType::Flamethrower => ids::FLAMETHROWER_BLAST_SHIELD_TXTR,
            _ => 0x6E09EA6B,
        }
    }

    pub open spec fn spec_glow_border_txtr(self) -> u32 {
        if self is Missile {
            0x5B97098E
        } else {
            ids::BLAST_SHIELD_ALT_TXTR0
        }
    }

    pub fn glow_border_txtr(&self) -> (r: u32)
        ensures
            r == self.spec_glow_border_txtr(),
    {
        match self {
            BlastShieldType::Missile => 0x5B97098E,
            _ => ids::BLAST_SHIELD_ALT_TXTR0,
        }
    }

    pub open spec fn spec_glow_trim_txtr(self) -> u32 {
        if self is Missile {
            0x5C7B215C
        } else {
            ids::BLAST_SHIELD_ALT_TXTR1
        }
    }

    pub fn glow_trim_txtr(&self) -> (r: u32)
        ensures
            r == self.spec_glow_trim_txtr(),
    {
        match self {
            BlastShieldType::Missile => 0x5C7B215C,
            _ => ids::BLAST_SHIELD_ALT_TXTR1,
        }
    }

    pub open spec fn spec_animated_glow_txtr(self) -> u32 {
        if self is Missile {
            0xFA0C2AE8
        } else {
            ids::BLAST_SHIELD_ALT_TXTR2
        }
    }

    pub fn animated_glow_txtr(&self) -> (r: u32)
        ensures
            r == self.spec_animated_glow_txtr(),
    {
        match self {
            BlastShieldType::Missile => 0xFA0C2AE8,
            _ => ids::BLAST_SHIELD_ALT_TXTR2,
        }
    }

    pub open spec fn spec_metal_trim_txtr(self) -> u32 {
        0xFDE0023A
    }

    pub fn metal_trim_txtr(&self) -> (r: u32)
        ensures
            r == self.spec_metal_trim_txtr(),
    {
        0xFDE0023A
    }

    /// The scan point of the shield. Vanilla missile locks carry none, which
    /// the sentinel id expresses.
    pub open spec fn spec_scan(self) -> u32 {
        match self {
            BlastShieldType::PowerBomb => ids::POWER_BOMB_BLAST_SHIELD_SCAN,
            BlastShieldType::Super => ids::SUPER_BLAST_SHIELD_SCAN,
            BlastShieldType::Wavebuster => ids::WAVEBUSTER_BLAST_SHIELD_SCAN,
            BlastShieldType::Icespreader => ids::ICESPREADER_BLAST_SHIELD_SCAN,
            BlastShieldType::Flamethrower => ids::FLAMETHROWER_BLAST_SHIELD_SCAN,
            _ => 0xFFFFFFFF,
        }
    }

    pub fn scan(&self) -> (r: u32)
        ensures
            r == self.spec_scan(),
    {
        match self {
            BlastShieldType::PowerBomb => ids::POWER_BOMB_BLAST_SHIELD_SCAN,
            BlastShieldType::Super => ids::SUPER_BLAST_SHIELD_SCAN,
            BlastShieldType::Wavebuster => ids::WAVEBUSTER_BLAST_SHIELD_SCAN,
            BlastShieldType::Icespreader => ids::ICESPREADER_BLAST_SHIELD_SCAN,
            BlastShieldType::Flamethrower => ids::FLAMETHROWER_BLAST_SHIELD_SCAN,
            _ => 0xFFFFFFFF,
        }
    }

    /// The string table behind the scan. Vanilla missile locks carry none.
    pub open spec fn spec_strg(self) -> u32 {
        match self {
            BlastShieldType::PowerBomb => ids::POWER_BOMB_BLAST_SHIELD_STRG,
            BlastShieldType::Super => ids::SUPER_BLAST_SHIELD_STRG,
            BlastShieldType::Wavebuster => ids::WAVEBUSTER_BLAST_SHIELD_STRG,
            BlastShieldType::Icespreader => ids::ICESPREADER_BLAST_SHIELD_STRG,
            BlastShieldType::Flamethrower => ids::FLAMETHROWER_BLAST_SHIELD_STRG,
            _ => 0xFFFFFFFF,
        }
    }

    pub fn strg(&self) -> (r: u32)
        ensures
            r == self.spec_strg(),
    {
        match self {
            BlastShieldType::PowerBomb => ids::POWER_BOMB_BLAST_SHIELD_STRG,
            BlastShieldType::Super => ids::SUPER_BLAST_SHIELD_STRG,
            BlastShieldType::Wavebuster => ids::WAVEBUSTER_BLAST_SHIELD_STRG,
            BlastShieldType::Icespreader => ids::ICESPREADER_BLAST_SHIELD_STRG,
            BlastShieldType::Flamethrower => ids::FLAMETHROWER_BLAST_SHIELD_STRG,
            _ => 0xFFFFFFFF,
        }
    }

    pub open spec fn spec_raw_dependencies(self) -> Seq<ResKey> {
        seq![
            ResKey { id: self.spec_cmdl(), fourcc: FOURCC_CMDL },
            ResKey { id: self.spec_metal_body_txtr(), fourcc: FOURCC_TXTR },
            ResKey { id: self.spec_glow_border_txtr(), fourcc: FOURCC_TXTR },
            ResKey { id: self.spec_glow_trim_txtr(), fourcc: FOURCC_TXTR },
            ResKey { id: self.spec_animated_glow_txtr(), fourcc: FOURCC_TXTR },
            ResKey { id: self.spec_metal_trim_txtr(), fourcc: FOURCC_TXTR },
            ResKey { id: self.spec_scan(), fourcc: FOURCC_SCAN },
            ResKey { id: self.spec_strg(), fourcc: FOURCC_STRG },
        ]
    }

    /// The dependencies an area must embed before it can show this shield,
    /// with sentinel ids filtered out and duplicates dropped.
    pub open spec fn spec_dependencies(self) -> Seq<ResKey> {
        dedup_keys(self.spec_raw_dependencies())
    }

    pub fn dependencies(&self) -> (deps: Vec<ResKey>)
        ensures
            deps@ == self.spec_dependencies(),
    {
        let mut deps: Vec<ResKey> = Vec::new();
        push_unique(&mut deps, ResKey { id: self.cmdl(), fourcc: FOURCC_CMDL });
        push_unique(&mut deps, ResKey { id: self.metal_body_txtr(), fourcc: FOURCC_TXTR });
        push_unique(&mut deps, ResKey { id: self.glow_border_txtr(), fourcc: FOURCC_TXTR });
        push_unique(&mut deps, ResKey { id: self.glow_trim_txtr(), fourcc: FOURCC_TXTR });
        push_unique(&mut deps, ResKey { id: self.animated_glow_txtr(), fourcc: FOURCC_TXTR });
        push_unique(&mut deps, ResKey { id: self.metal_trim_txtr(), fourcc: FOURCC_TXTR });
        push_unique(&mut deps, ResKey { id: self.scan(), fourcc: FOURCC_SCAN });
        push_unique(&mut deps, ResKey { id: self.strg(), fourcc: FOURCC_STRG });
        proof {
            assert(deps@ =~= dedup_keys(self.spec_raw_dependencies())) by {
                reveal_with_fuel(dedup_keys_from, 9);
                let raw = self.spec_raw_dependencies();
                assert(raw.drop_first().drop_first().drop_first().drop_first().drop_first()
                    .drop_first().drop_first().drop_first() =~= Seq::<ResKey>::empty());
            }
        }
        deps
    }

    /// Every blast-shield variant, in catalog order.
    pub open spec fn spec_all() -> Seq<BlastShieldType> {
        seq![
            BlastShieldType::Missile,
            BlastShieldType::PowerBomb,
            BlastShieldType::Super,
            BlastShieldType::Wavebuster,
            BlastShieldType::Icespreader,
            BlastShieldType::Flamethrower,
        ]
    }

    pub fn iter() -> (r: Vec<BlastShieldType>)
        ensures
            r@ == Self::spec_all(),
    {
        let mut v: Vec<BlastShieldType> = Vec::new();
        v.push(BlastShieldType::Missile);
        v.push(BlastShieldType::PowerBomb);
        v.push(BlastShieldType::Super);
        v.push(BlastShieldType::Wavebuster);
        v.push(BlastShieldType::Icespreader);
        v.push(BlastShieldType::Flamethrower);
        proof {
            assert(v@ =~= Self::spec_all());
        }
        v
    }

    /// The door variant that opens the same way as this shield.
    pub open spec fn spec_door_type_counterpart(self) -> DoorType {
        match self {
            BlastShieldType::Missile => DoorType::Missile,
            BlastShieldType::PowerBomb => DoorType::PowerBomb,
            BlastShieldType::Super => DoorType::Super,
            BlastShieldType::Wavebuster => DoorType::Wavebuster,
            BlastShieldType::Icespreader => DoorType::Icespreader,
            BlastShieldType::Flamethrower => DoorType::Flamethrower,
        }
    }

    pub fn door_type_counterpart(&self) -> (r: DoorType)
        ensures
            r == self.spec_door_type_counterpart(),
    {
        match self {
            BlastShieldType::Missile => DoorType::Missile,
            BlastShieldType::PowerBomb => DoorType::PowerBomb,
            BlastShieldType::Super => DoorType::Super,
            BlastShieldType::Wavebuster => DoorType::Wavebuster,
            BlastShieldType::Icespreader => DoorType::Icespreader,
            BlastShieldType::Flamethrower => DoorType::Flamethrower,
        }
    }

    /// A shield reuses the interaction profile of its door counterpart.
    pub open spec fn spec_vulnerability(self) -> DamageVulnerability {
        self.spec_door_type_counterpart().spec_vulnerability()
    }

    pub fn vulnerability(&self) -> (r: DamageVulnerability)
        ensures
            r == self.spec_vulnerability(),
    {
        self.door_type_counterpart().vulnerability()
    }
}

impl DoorType {
    /// The variant a normalized name resolves to: the fixed synonym table.
    pub open spec fn spec_from_name(cs: Seq<char>) -> Option<DoorType> {
        if cs == "blue"@ {
            Some(DoorType::Blue)
        } else if cs == "poweronly"@ {
            Some(DoorType::PowerOnly)
        } else if cs == "purple"@ || cs == "wave"@ || cs == "wavebeam"@ {
            Some(DoorType::Purple)
        } else if cs == "white"@ || cs == "ice"@ || cs == "icebeam"@ {
            Some(DoorType::White)
        } else if cs == "red"@ || cs == "plasma"@ || cs == "plasmabeam"@ {
            Some(DoorType::Red)
        } else if cs == "powerbomb"@ {
            Some(DoorType::PowerBomb)
        } else if cs == "bomb"@ || cs == "bombs"@ {
            Some(DoorType::Bomb)
        } else if cs == "missile"@ || cs == "missiles"@ {
            Some(DoorType::Missile)
        } else if cs == "charge"@ || cs == "chargebeam"@ {
            Some(DoorType::Charge)
        } else if cs == "super"@ || cs == "supermissile"@ || cs == "supermissiles"@ {
            Some(DoorType::Super)
        } else if cs == "disabled"@ {
            Some(DoorType::Disabled)
        } else if cs == "wavebuster"@ {
            Some(DoorType::Wavebuster)
        } else if cs == "icespreader"@ {
            Some(DoorType::Icespreader)
        } else if cs == "flamethrower"@ {
            Some(DoorType::Flamethrower)
        } else if cs == "ai"@ {
            Some(DoorType::Ai)
        } else {
            None
        }
    }

    /// Resolve a user-facing door name, insensitively to case, spaces and
    /// underscores. Any string outside the synonym table yields `None`.
    pub fn from_string(string: String) -> (r: Option<DoorType>)
        ensures
            r == Self::spec_from_name(crate::text::canonical_of(string@)),
            crate::text::is_canon_seq(string@) ==> r == Self::spec_from_name(string@),
    {
        let c = crate::text::canonicalize(string.as_str());
        Self::lookup_normalized(c.as_str())
    }

    /// Resolve an already-normalized door name against the synonym table.
    pub fn lookup_normalized(s: &str) -> (r: Option<DoorType>)
        ensures
            r == Self::spec_from_name(s@),
    {
        if crate::text::str_eq(s, "blue") {
            Some(DoorType::Blue)
        } else if crate::text::str_eq(s, "poweronly") {
            Some(DoorType::PowerOnly)
        } else if crate::text::str_eq(s, "purple") || crate::text::str_eq(s, "wave")
            || crate::text::str_eq(s, "wavebeam") {
            Some(DoorType::Purple)
        } else if crate::text::str_eq(s, "white") || crate::text::str_eq(s, "ice")
            || crate::text::str_eq(s, "icebeam") {
            Some(DoorType::White)
        } else if crate::text::str_eq(s, "red") || crate::text::str_eq(s, "plasma")
            || crate::text::str_eq(s, "plasmabeam") {
            Some(DoorType::Red)
        } else if crate::text::str_eq(s, "powerbomb") {
            Some(DoorType::PowerBomb)
        } else if crate::text::str_eq(s, "bomb") || crate::text::str_eq(s, "bombs") {
            Some(DoorType::Bomb)
        } else if crate::text::str_eq(s, "missile") || crate::text::str_eq(s, "missiles") {
            Some(DoorType::Missile)
        } else if crate::text::str_eq(s, "charge") || crate::text::str_eq(s, "chargebeam") {
            Some(DoorType::Charge)
        } else if crate::text::str_eq(s, "super") || crate::text::str_eq(s, "supermissile")
            || crate::text::str_eq(s, "supermissiles") {
            Some(DoorType::Super)
        } else if crate::text::str_eq(s, "disabled") {
            Some(DoorType::Disabled)
        } else if crate::text::str_eq(s, "wavebuster") {
            Some(DoorType::Wavebuster)
        } else if crate::text::str_eq(s, "icespreader") {
            Some(DoorType::Icespreader)
        } else if crate::text::str_eq(s, "flamethrower") {
            Some(DoorType::Flamethrower)
        } else if crate::text::str_eq(s, "ai") {
            Some(DoorType::Ai)
        } else {
            None
        }
    }
}

/// The synonym table resolves each synonym of a color to the same variant,
/// and an unknown name to none.
pub proof fn lemma_synonym_table()
    ensures
        DoorType::spec_from_name("wave"@) == Some(DoorType::Purple),
        DoorType::spec_from_name("wavebeam"@) == Some(DoorType::Purple),
        DoorType::spec_from_name("purple"@) == Some(DoorType::Purple),
        DoorType::spec_from_name("ice"@) == Some(DoorType::White),
        DoorType::spec_from_name("icebeam"@) == Some(DoorType::White),
        DoorType::spec_from_name("white"@) == Some(DoorType::White),
        DoorType::spec_from_name("plasma"@) == Some(DoorType::Red),
        DoorType::spec_from_name("plasmabeam"@) == Some(DoorType::Red),
        DoorType::spec_from_name("red"@) == Some(DoorType::Red),
        DoorType::spec_from_name("bogus"@) is None,
{
    reveal_strlit("blue");
    reveal_strlit("poweronly");
    reveal_strlit("purple");
    reveal_strlit("wave");
    reveal_strlit("wavebeam");
    reveal_strlit("white");
    reveal_strlit("ice");
    reveal_strlit("icebeam");
    reveal_strlit("red");
    reveal_strlit("plasma");
    reveal_strlit("plasmabeam");
    reveal_strlit("powerbomb");
    reveal_strlit("bomb");
    reveal_strlit("bombs");
    reveal_strlit("missile");
    reveal_strlit("missiles");
    reveal_strlit("charge");
    reveal_strlit("chargebeam");
    reveal_strlit("super");
    reveal_strlit("supermissile");
    reveal_strlit("supermissiles");
    reveal_strlit("disabled");
    reveal_strlit("wavebuster");
    reveal_strlit("icespreader");
    reveal_strlit("flamethrower");
    reveal_strlit("ai");
    reveal_strlit("bogus");
    assert("blue"@.len() == 4);
    assert("poweronly"@.len() == 9);
    assert("purple"@.len() == 6);
    assert("wave"@.len() == 4);
    assert("wavebeam"@.len() == 8);
    assert("white"@.len() == 5);
    assert("ice"@.len() == 3);
    assert("icebeam"@.len() == 7);
    assert("red"@.len() == 3);
    assert("plasma"@.len() == 6);
    assert("plasmabeam"@.len() == 10);
    assert("powerbomb"@.len() == 9);
    assert("bomb"@.len() == 4);
    assert("bombs"@.len() == 5);
    assert("missile"@.len() == 7);
    assert("missiles"@.len() == 8);
    assert("charge"@.len() == 6);
    assert("chargebeam"@.len() == 10);
    assert("super"@.len() == 5);
    assert("supermissile"@.len() == 12);
    assert("supermissiles"@.len() == 13);
    assert("disabled"@.len() == 8);
    assert("wavebuster"@.len() == 10);
    assert("icespreader"@.len() == 11);
    assert("flamethrower"@.len() == 12);
    assert("ai"@.len() == 2);
    assert("bogus"@.len() == 5);
    assert("wave"@ != "blue"@) by {
        assert("wave"@[0] == 'w' && "blue"@[0] == 'b');
    }
    assert("red"@ != "ice"@) by {
        assert("red"@[0] == 'r' && "ice"@[0] == 'i');
    }
    assert("plasma"@ != "purple"@) by {
        assert("plasma"@[1] == 'l' && "purple"@[1] == 'u');
    }
    assert("plasma"@ != "charge"@) by {
        assert("plasma"@[0] == 'p' && "charge"@[0] == 'c');
    }
    assert("bogus"@ != "white"@) by {
        assert("bogus"@[0] == 'b' && "white"@[0] == 'w');
    }
    assert("bogus"@ != "bombs"@) by {
        assert("bogus"@[2] == 'g' && "bombs"@[2] == 'm');
    }
    assert("bogus"@ != "super"@) by {
        assert("bogus"@[0] == 'b' && "super"@[0] == 's');
    }
}

impl BlastShieldType {
    /// The shield a normalized name resolves to.
    pub open spec fn spec_from_name(cs: Seq<char>) -> Option<BlastShieldType> {
        if cs == "missile"@ || cs == "missiles"@ {
            Some(BlastShieldType::Missile)
        } else if cs == "powerbomb"@ || cs == "powerbombs"@ {
            Some(BlastShieldType::PowerBomb)
        } else if cs == "super"@ || cs == "supermissile"@ || cs == "supermissiles"@ {
            Some(BlastShieldType::Super)
        } else if cs == "wavebuster"@ {
            Some(BlastShieldType::Wavebuster)
        } else if cs == "icespreader"@ {
            Some(BlastShieldType::Icespreader)
        } else if cs == "flamethrower"@ {
            Some(BlastShieldType::Flamethrower)
        } else {
            None
        }
    }

    /// Resolve a user-facing shield name, insensitively to case, spaces and
    /// underscores. Any string outside the synonym table yields `None`.
    pub fn from_str(string: &str) -> (r: Option<BlastShieldType>)
        ensures
            r == Self::spec_from_name(crate::text::canonical_of(string@)),
            crate::text::is_canon_seq(string@) ==> r == Self::spec_from_name(string@),
    {
        let c = crate::text::canonicalize(string);
        let s = c.as_str();
        if crate::text::str_eq(s, "missile") || crate::text::str_eq(s, "missiles") {
            Some(BlastShieldType::Missile)
        } else if crate::text::str_eq(s, "powerbomb") || crate::text::str_eq(s, "powerbombs") {
            Some(BlastShieldType::PowerBomb)
        } else if crate::text::str_eq(s, "super") || crate::text::str_eq(s, "supermissile")
            || crate::text::str_eq(s, "supermissiles") {
            Some(BlastShieldType::Super)
        } else if crate::text::str_eq(s, "wavebuster") {
            Some(BlastShieldType::Wavebuster)
        } else if crate::text::str_eq(s, "icespreader") {
            Some(BlastShieldType::Icespreader)
        } else if crate::text::str_eq(s, "flamethrower") {
            Some(BlastShieldType::Flamethrower)
        } else {
            None
        }
    }

    /// The scan text of each shield variant: for the advanced and
    /// elemental shields, a three-line analysis naming what damages it;
    /// for the vanilla missile lock, a single empty line.
    pub open spec fn spec_scan_text(self) -> Seq<Seq<char>> {
        match self {
            BlastShieldType::PowerBomb => seq![
                "There is an Advanced Blast Shield on the door blocking access. Analysis indicates that the Blast Shield is reinforced\0"@,
                "\0"@,
                "with &push;&main-color=#D91818;Bendenzium&pop;, rendering it invulnerable to most weapons.\0"@,
            ],
            BlastShieldType::Super => seq![
                "There is an Advanced Blast Shield on the door blocking access. Analysis indicates that the Blast Shield is reinforced\0"@,
                "\0"@,
                "with &push;&main-color=#D91818;Cordite&pop;, rendering it invulnerable to most weapons.\0"@,
            ],
            BlastShieldType::Wavebuster => seq![
                "There is an Elemental Blast Shield on the door blocking access. Analysis indicates that the Blast Shield is invulnerable\0"@,
                "\0"@,
                "to standard Beam fire. Continuous exposure to &push;&main-color=#D91818;Extreme Amperage&pop; may damage it.\0"@,
            ],
            BlastShieldType::Icespreader => seq![
                "There is an Elemental Blast Shield on the door blocking access. Analysis indicates that the Blast Shield is invulnerable\0"@,
                "\0"@,
                "to standard Beam fire. A concussive blast augmented with &push;&main-color=#D91818;Extreme Cold&pop; may damage it.\0"@,
            ],
            BlastShieldType::Flamethrower => seq![
                "There is an Elemental Blast Shield on the door blocking access. Analysis indicates that the Blast Shield is invulnerable\0"@,
                "\0"@,
                "to standard Beam fire. Continuous exposure to &push;&main-color=#D91818;Extreme Heat&pop; may damage it.\0"@,
            ],
            BlastShieldType::Missile => seq!["\0"@],
        }
    }

    /// The lines of the shield's scan text.
    pub fn scan_text(&self) -> (r: Vec<String>)
        ensures
            r@.len() == self.spec_scan_text().len(),
            forall|i: int|
                0 <= i < r@.len() ==> (#[trigger] r@[i])@ == self.spec_scan_text()[i],
    {
        let mut v: Vec<String> = Vec::new();
        match self {
            BlastShieldType::PowerBomb => {
                v.push(String::from_str(
                    "There is an Advanced Blast Shield on the door blocking access. Analysis indicates that the Blast Shield is reinforced\0",
                ));
                v.push(String::from_str("\0"));
                v.push(String::from_str(
                    "with &push;&main-color=#D91818;Bendenzium&pop;, rendering it invulnerable to most weapons.\0",
                ));
            },
            BlastShieldType::Super => {
                v.push(String::from_str(
                    "There is an Advanced Blast Shield on the door blocking access. Analysis indicates that the Blast Shield is reinforced\0",
                ));
                v.push(String::from_str("\0"));
                v.push(String::from_str(
                    "with &push;&main-color=#D91818;Cordite&pop;, rendering it invulnerable to most weapons.\0",
                ));
            },
            BlastShieldType::Wavebuster => {
                v.push(String::from_str(
                    "There is an Elemental Blast Shield on the door blocking access. Analysis indicates that the Blast Shield is invulnerable\0",
                ));
                v.push(String::from_str("\0"));
                v.push(String::from_str(
                    "to standard Beam fire. Continuous exposure to &push;&main-color=#D91818;Extreme Amperage&pop; may damage it.\0",
                ));
            },
            BlastShieldType::Icespreader => {
                v.push(String::from_str(
                    "There is an Elemental Blast Shield on the door blocking access. Analysis indicates that the Blast Shield is invulnerable\0",
                ));
                v.push(String::from_str("\0"));
                v.push(String::from_str(
                    "to standard Beam fire. A concussive blast augmented with &push;&main-color=#D91818;Extreme Cold&pop; may damage it.\0",
                ));
            },
            BlastShieldType::Flamethrower => {
                v.push(String::from_str(
                    "There is an Elemental Blast Shield on the door blocking access. Analysis indicates that the Blast Shield is invulnerable\0",
                ));
                v.push(String::from_str("\0"));
                v.push(String::from_str(
                    "to standard Beam fire. Continuous exposure to &push;&main-color=#D91818;Extreme Heat&pop; may damage it.\0",
                ));
            },
            BlastShieldType::Missile => {
                v.push(String::from_str("\0"));
            },
        }
        v
    }

}

/// The worlds of the disc, in container order.
#[derive(Clone, Copy, Debug, PartialEq, Eq, Structural, Hash)]
pub enum World {
    FrigateOrpheon,
    ChozoRuins,
    PhendranaDrifts,
    TallonOverworld,
    PhazonMines,
    MagmoorCaverns,
    ImpactCrater,
}

impl World {
    /// The world's position in per-world tables.
    pub open spec fn spec_idx(self) -> int {
        match self {
            World::FrigateOrpheon => 0,
            World::ChozoRuins => 1,
            World::PhendranaDrifts => 2,
            World::TallonOverworld => 3,
            World::PhazonMines => 4,
            World::MagmoorCaverns => 5,
            World::ImpactCrater => 6,
        }
    }

    pub fn idx(&self) -> (r: usize)
        ensures
            r == self.spec_idx(),
            r < 7,
    {
        match self {
            World::FrigateOrpheon => 0,
            World::ChozoRuins => 1,
            World::PhendranaDrifts => 2,
            World::TallonOverworld => 3,
            World::PhazonMines => 4,
            World::MagmoorCaverns => 5,
            World::ImpactCrater => 6,
        }
    }

    /// The id of the world's MLVL resource.
    pub open spec fn spec_mlvl(self) -> u32 {
        match self {
            World::FrigateOrpheon => 0x158EFE17,
            World::ChozoRuins => 0x83F6FF6F,
            World::PhendranaDrifts => 0x1BAA96C2,
            World::TallonOverworld => 0x39F2DE28,
            World::PhazonMines => 0xB1AC4D65,
            World::MagmoorCaverns => 0x3EF8237C,
            World::ImpactCrater => 0xC13B09D1,
        }
    }

    pub fn mlvl(&self) -> (r: u32)
        ensures
            r == self.spec_mlvl(),
    {
        match self {
            World::FrigateOrpheon => 0x158EFE17,
            World::ChozoRuins => 0x83F6FF6F,
            World::PhendranaDrifts => 0x1BAA96C2,
            World::TallonOverworld => 0x39F2DE28,
            World::PhazonMines => 0xB1AC4D65,
            World::MagmoorCaverns => 0x3EF8237C,
            World::ImpactCrater => 0xC13B09D1,
        }
    }

    /// The world holding the container named `pak_name`.
    pub open spec fn spec_from_pak(cs: Seq<char>) -> Option<World> {
        if cs == "Metroid1.pak"@ {
            Some(World::FrigateOrpheon)
        } else if cs == "Metroid2.pak"@ {
            Some(World::ChozoRuins)
        } else if cs == "Metroid3.pak"@ {
            Some(World::PhendranaDrifts)
        } else if cs == "Metroid4.pak"@ {
            Some(World::TallonOverworld)
        } else if cs == "metroid5.pak"@ {
            Some(World::PhazonMines)
        } else if cs == "Metroid6.pak"@ {
            Some(World::MagmoorCaverns)
        } else if cs == "Metroid7.pak"@ {
            Some(World::ImpactCrater)
        } else {
            None
        }
    }

    pub fn from_pak(pak_name: &str) -> (r: Option<World>)
        ensures
            r == Self::spec_from_pak(pak_name@),
    {
        if crate::text::str_eq(pak_name, "Metroid1.pak") {
            Some(World::FrigateOrpheon)
        } else if crate::text::str_eq(pak_name, "Metroid2.pak") {
            Some(World::ChozoRuins)
        } else if crate::text::str_eq(pak_name, "Metroid3.pak") {
            Some(World::PhendranaDrifts)
        } else if crate::text::str_eq(pak_name, "Metroid4.pak") {
            Some(World::TallonOverworld)
        } else if crate::text::str_eq(pak_name, "metroid5.pak") {
            Some(World::PhazonMines)
        } else if crate::text::str_eq(pak_name, "Metroid6.pak") {
            Some(World::MagmoorCaverns)
        } else if crate::text::str_eq(pak_name, "Metroid7.pak") {
            Some(World::ImpactCrater)
        } else {
            None
        }
    }

    /// The world's display name.
    pub fn as_string(&self) -> (r: &'static str)
    {
        match self {
            World::FrigateOrpheon => "Frigate Orpheon",
            World::ChozoRuins => "Chozo Ruins",
            World::PhendranaDrifts => "Phendrana Drifts",
            World::TallonOverworld => "Tallon Overworld",
            World::PhazonMines => "Phazon Mines",
            World::MagmoorCaverns => "Magmoor Caverns",
            World::ImpactCrater => "Impact Crater",
        }
    }
}

/// The per-region weight tables of the door-color distribution. Each row
/// holds the percentages for blue, purple, white and red, and must sum to
/// exactly one hundred.
#[derive(Clone, Copy, Debug)]
pub struct Weights {
    pub chozo_ruins: [u8; 4],
    pub phendrana_drifts: [u8; 4],
    pub tallon_overworld: [u8; 4],
    pub phazon_mines: [u8; 4],
    pub magmoor_caverns: [u8; 4],
}

/// The script objects that one door location comprises.
#[derive(Clone, Copy, Debug)]
pub struct DoorLocation {
    pub door_location: crate::pickup_meta::ScriptObjectLocation,
    pub door_force_location: crate::pickup_meta::ScriptObjectLocation,
    pub door_shield_location: Option<crate::pickup_meta::ScriptObjectLocation>,
    pub dock_number: Option<u32>,
}

/// Every blast-shield variant's dependency list is non-empty, holds no
/// duplicate key and no sentinel id, and holds the shield's model.
pub proof fn lemma_shield_dependencies_wellformed(v: BlastShieldType)
    ensures
        v.spec_dependencies().len() > 0,
        forall|i: int, j: int|
            0 <= i < j < v.spec_dependencies().len()
                ==> v.spec_dependencies()[i] != v.spec_dependencies()[j],
        forall|i: int|
            0 <= i < v.spec_dependencies().len()
                ==> !is_sentinel_id(v.spec_dependencies()[i].id),
        v.spec_dependencies().contains(ResKey { id: v.spec_cmdl(), fourcc: FOURCC_CMDL }),
{
    let raw = v.spec_raw_dependencies();
    lemma_dedup_no_dup(Seq::<ResKey>::empty(), raw);
    lemma_dedup_contains(Seq::<ResKey>::empty(), raw, raw[0]);
    assert(!is_sentinel_id(v.spec_cmdl()));
    assert(raw.contains(raw[0]));
}

} // verus!
