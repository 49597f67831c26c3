//! Damage-vulnerability records: for every damage category, one of exactly
//! three values (normal, reflect, immune).

use vstd::prelude::*;

verus! {

/// The weapon damages the target normally.
pub const VULN_NORMAL: u32 = 1;
/// The weapon is deflected.
pub const VULN_REFLECT: u32 = 2;
/// The target ignores the weapon.
pub const VULN_IMMUNE: u32 = 3;

/// Is `v` one of the three enumerated vulnerability values?
pub open spec fn is_vuln_value(v: u32) -> bool {
    v == VULN_NORMAL || v == VULN_REFLECT || v == VULN_IMMUNE
}

/// Per-beam vulnerability of charged shots.
#[derive(Clone, Copy, Debug, PartialEq, Eq, Structural)]
pub struct ChargedBeams {
    pub power: u32,
    pub ice: u32,
    pub wave: u32,
    pub plasma: u32,
    pub phazon: u32,
}

/// Per-beam vulnerability of beam-combo shots.
#[derive(Clone, Copy, Debug, PartialEq, Eq, Structural)]
pub struct BeamCombos {
    pub power: u32,
    pub ice: u32,
    pub wave: u32,
    pub plasma: u32,
    pub phazon: u32,
}

/// The full interaction profile of a damageable object: one vulnerability
/// value per damage category.
#[derive(Clone, Copy, Debug, PartialEq, Eq, Structural)]
pub struct DamageVulnerability {
    pub power: u32,
    pub ice: u32,
    pub wave: u32,
    pub plasma: u32,
    pub bomb: u32,
    pub power_bomb: u32,
    pub missile: u32,
    pub boost_ball: u32,
    pub phazon: u32,
    pub enemy_weapon0: u32,
    pub enemy_weapon1: u32,
    pub enemy_weapon2: u32,
    pub enemy_weapon3: u32,
    pub unknown_weapon0: u32,
    pub unknown_weapon1: u32,
    pub unknown_weapon2: u32,
    pub charged_beams: ChargedBeams,
    pub beam_combos: BeamCombos,
}

pub open spec fn charged_fully_enumerated(c: ChargedBeams) -> bool {
    &&& is_vuln_value(c.power)
    &&& is_vuln_value(c.ice)
    &&& is_vuln_value(c.wave)
    &&& is_vuln_value(c.plasma)
    &&& is_vuln_value(c.phazon)
}

pub open spec fn combos_fully_enumerated(c: BeamCombos) -> bool {
    &&& is_vuln_value(c.power)
    &&& is_vuln_value(c.ice)
    &&& is_vuln_value(c.wave)
    &&& is_vuln_value(c.plasma)
    &&& is_vuln_value(c.phazon)
}

/// Every field of `dv` is set to one of the three enumerated values; no field
/// is left at an uninitialized or sentinel value.
pub open spec fn fully_enumerated(dv: DamageVulnerability) -> bool {
    &&& is_vuln_value(dv.power)
    &&& is_vuln_value(dv.ice)
    &&& is_vuln_value(dv.wave)
    &&& is_vuln_value(dv.plasma)
    &&& is_vuln_value(dv.bomb)
    &&& is_vuln_value(dv.power_bomb)
    &&& is_vuln_value(dv.missile)
    &&& is_vuln_value(dv.boost_ball)
    &&& is_vuln_value(dv.phazon)
    &&& is_vuln_value(dv.enemy_weapon0)
    &&& is_vuln_value(dv.enemy_weapon1)
    &&& is_vuln_value(dv.enemy_weapon2)
    &&& is_vuln_value(dv.enemy_weapon3)
    &&& is_vuln_value(dv.unknown_weapon0)
    &&& is_vuln_value(dv.unknown_weapon1)
    &&& is_vuln_value(dv.unknown_weapon2)
    &&& charged_fully_enumerated(dv.charged_beams)
    &&& combos_fully_enumerated(dv.beam_combos)
}

} // verus!
