//! Resource identifiers: four-byte type tags, `(id, type)` keys, and the
//! fixed catalog of tool-synthesized asset ids.
//!
//! Numeric ids below [`CUSTOM_ASSET_ID_BASE`] denote assets of the original
//! game (read from a container, never regenerated); ids at or above it denote
//! assets this tool synthesizes, so collisions with original ids are
//! structurally impossible.

use vstd::prelude::*;

verus! {

/// A four-character resource type tag, packed big-endian into a `u32`.
pub type FourCC = u32;

/// "CMDL": a model.
pub const FOURCC_CMDL: u32 = 0x434D444C;
/// "TXTR": a texture.
pub const FOURCC_TXTR: u32 = 0x54585452;
/// "SCAN": a scan point definition.
pub const FOURCC_SCAN: u32 = 0x5343414E;
/// "STRG": a string table.
pub const FOURCC_STRG: u32 = 0x53545247;
/// "ANCS": a character animation set.
pub const FOURCC_ANCS: u32 = 0x414E4353;
/// "EVNT": an animation event table.
pub const FOURCC_EVNT: u32 = 0x45564E54;
/// "ANIM": an animation.
pub const FOURCC_ANIM: u32 = 0x414E494D;
/// "MREA": an area, holding the script-object graph.
pub const FOURCC_MREA: u32 = 0x4D524541;
/// "MLVL": a world description.
pub const FOURCC_MLVL: u32 = 0x4D4C564C;
/// "MAPA": an area map.
pub const FOURCC_MAPA: u32 = 0x4D415041;
/// "SAVW": a save-world table.
pub const FOURCC_SAVW: u32 = 0x53415657;
/// "FRME": a GUI frame.
pub const FOURCC_FRME: u32 = 0x46524D45;
/// "PART": a particle effect.
pub const FOURCC_PART: u32 = 0x50415254;
/// "XXXX": a placeholder blob.
pub const FOURCC_XXXX: u32 = 0x58585858;
/// "ENGL": the English language tag of a string table.
pub const FOURCC_STRG_LANG_ENGL: u32 = 0x454E474C;

/// The key identifying one resource within a container.
///
/// Within one container every resource's `(id, fourcc)` pair is unique.
#[derive(Clone, Copy, Debug, PartialEq, Eq, Structural, Hash)]
pub struct ResKey {
    pub id: u32,
    pub fourcc: FourCC,
}

impl ResKey {
    pub fn new(id: u32, fourcc: FourCC) -> (k: ResKey)
        ensures
            k == (ResKey { id, fourcc }),
    {
        ResKey { id, fourcc }
    }
}

/// First id of the reserved range for tool-synthesized assets.
pub const CUSTOM_ASSET_ID_BASE: u32 = 0xDEAF0000;

/// An id that can never name a real resource.
pub open spec fn is_sentinel_id(id: u32) -> bool {
    id == 0 || id == 0xFFFFFFFF
}

/// Does `id` lie in the reserved range for tool-synthesized assets?
pub open spec fn spec_is_custom_asset(id: u32) -> bool {
    id >= CUSTOM_ASSET_ID_BASE
}

/// Does `id` lie in the reserved range for tool-synthesized assets?
#[verifier::when_used_as_spec(spec_is_custom_asset)]
pub fn is_custom_asset(id: u32) -> (r: bool)
    ensures
        r == spec_is_custom_asset(id),
{
    id >= CUSTOM_ASSET_ID_BASE
}

/// Append `k` to a dependency list unless it carries a sentinel id or is
/// already present.
pub open spec fn dedup_push(acc: Seq<ResKey>, k: ResKey) -> Seq<ResKey> {
    if is_sentinel_id(k.id) || acc.contains(k) {
        acc
    } else {
        acc.push(k)
    }
}

/// Fold [`dedup_push`] over `rest`, left to right, starting from `acc`.
pub open spec fn dedup_keys_from(acc: Seq<ResKey>, rest: Seq<ResKey>) -> Seq<ResKey>
    decreases rest.len(),
{
    if rest.len() == 0 {
        acc
    } else {
        dedup_keys_from(dedup_push(acc, rest[0]), rest.drop_first())
    }
}

/// `s` with sentinel ids dropped and only the first occurrence of each key
/// kept, in order.
pub open spec fn dedup_keys(s: Seq<ResKey>) -> Seq<ResKey> {
    dedup_keys_from(Seq::empty(), s)
}

/// Deduplication keeps the accumulator as a prefix and never introduces a
/// duplicate key or a sentinel id.
pub proof fn lemma_dedup_no_dup(acc: Seq<ResKey>, rest: Seq<ResKey>)
    requires
        forall|i: int, j: int| 0 <= i < j < acc.len() ==> acc[i] != acc[j],
        forall|i: int| 0 <= i < acc.len() ==> !is_sentinel_id(acc[i].id),
    ensures
        acc.len() <= dedup_keys_from(acc, rest).len(),
        forall|i: int| 0 <= i < acc.len() ==> dedup_keys_from(acc, rest)[i] == acc[i],
        forall|i: int, j: int|
            0 <= i < j < dedup_keys_from(acc, rest).len()
                ==> dedup_keys_from(acc, rest)[i] != dedup_keys_from(acc, rest)[j],
        forall|i: int|
            0 <= i < dedup_keys_from(acc, rest).len()
                ==> !is_sentinel_id(dedup_keys_from(acc, rest)[i].id),
    decreases rest.len(),
{
    if rest.len() == 0 {
    } else {
        let acc2 = dedup_push(acc, rest[0]);
        assert forall|i: int, j: int| 0 <= i < j < acc2.len() implies acc2[i] != acc2[j] by {
            if !(is_sentinel_id(rest[0].id) || acc.contains(rest[0])) && j == acc.len() {
                assert(acc2[j] == rest[0]);
                assert(!acc.contains(acc2[j]));
                assert(acc[i] == acc2[i]);
            }
        }
        assert(forall|i: int| 0 <= i < acc2.len() ==> !is_sentinel_id(acc2[i].id));
        assert(forall|i: int| 0 <= i < acc.len() ==> acc2[i] == acc[i]);
        lemma_dedup_no_dup(acc2, rest.drop_first());
        assert(forall|i: int|
            0 <= i < acc.len() ==> dedup_keys_from(acc2, rest.drop_first())[i] == acc2[i]);
    }
}

/// Any non-sentinel key found in the input or already accumulated survives
/// deduplication.
pub proof fn lemma_dedup_contains(acc: Seq<ResKey>, rest: Seq<ResKey>, x: ResKey)
    requires
        !is_sentinel_id(x.id),
        acc.contains(x) || rest.contains(x),
    ensures
        dedup_keys_from(acc, rest).contains(x),
    decreases rest.len(),
{
    if rest.len() == 0 {
        assert(acc.contains(x));
    } else {
        let acc2 = dedup_push(acc, rest[0]);
        if acc.contains(x) {
            let i = choose|i: int| 0 <= i < acc.len() && acc[i] == x;
            assert(acc2[i] == x);
            lemma_dedup_contains(acc2, rest.drop_first(), x);
        } else if x == rest[0] {
            if acc2.len() == acc.len() + 1 {
                assert(acc2.last() == x);
            }
            lemma_dedup_contains(acc2, rest.drop_first(), x);
        } else {
            let i = choose|i: int| 0 <= i < rest.len() && rest[i] == x;
            assert(rest.drop_first()[i - 1] == x);
            lemma_dedup_contains(acc2, rest.drop_first(), x);
        }
    }
}

/// Append `k` to `deps` unless it carries a sentinel id or is already there.
pub fn push_unique(deps: &mut Vec<ResKey>, k: ResKey)
    ensures
        final(deps)@ == dedup_push(old(deps)@, k),
{
    if k.id == 0 || k.id == 0xFFFFFFFF {
        return ;
    }
    let mut i: usize = 0;
    while i < deps.len()
        invariant
            !is_sentinel_id(k.id),
            i <= deps@.len(),
            deps@ == old(deps)@,
            forall|j: int| 0 <= j < i ==> deps@[j] != k,
        decreases deps@.len() - i,
    {
        if deps[i] == k {
            assert(deps@.contains(k));
            return ;
        }
        i += 1;
    }
    assert(!deps@.contains(k));
    deps.push(k);
}

pub const PHAZON_SUIT_SCAN: u32 = 0xDEAF0000;
pub const PHAZON_SUIT_STRG: u32 = 0xDEAF0001;
pub const PHAZON_SUIT_TXTR1: u32 = 0xDEAF0002;
pub const PHAZON_SUIT_TXTR2: u32 = 0xDEAF0003;
pub const PHAZON_SUIT_CMDL: u32 = 0xDEAF0004;
pub const PHAZON_SUIT_ANCS: u32 = 0xDEAF0005;
pub const NOTHING_ACQUIRED_HUDMEMO_STRG: u32 = 0xDEAF0006;
pub const NOTHING_SCAN_STRG: u32 = 0xDEAF0007;
pub const NOTHING_SCAN: u32 = 0xDEAF0008;
pub const NOTHING_TXTR: u32 = 0xDEAF0009;
pub const NOTHING_CMDL: u32 = 0xDEAF000A;
pub const NOTHING_ANCS: u32 = 0xDEAF000B;
pub const THERMAL_VISOR_SCAN: u32 = 0xDEAF000C;
pub const THERMAL_VISOR_STRG: u32 = 0xDEAF000D;
pub const SCAN_VISOR_ACQUIRED_HUDMEMO_STRG: u32 = 0xDEAF000E;
pub const SCAN_VISOR_SCAN_STRG: u32 = 0xDEAF000F;
pub const SCAN_VISOR_SCAN: u32 = 0xDEAF0010;

/// One skip-hudmemo string table per pickup variant, indexed by the
/// variant's position in the catalog.
pub const SKIP_HUDMEMO_STRG_START: u32 = 0xDEAF0011;
pub const SKIP_HUDMEMO_STRG_END: u32 = 0xDEAF0036;

pub const SHINY_MISSILE_SCAN: u32 = 0xDEAF0040;
pub const SHINY_MISSILE_SCAN_STRG: u32 = 0xDEAF0041;
pub const SHINY_MISSILE_ACQUIRED_HUDMEMO_STRG: u32 = 0xDEAF0042;
pub const SHINY_MISSILE_TXTR0: u32 = 0xDEAF0043;
pub const SHINY_MISSILE_TXTR1: u32 = 0xDEAF0044;
pub const SHINY_MISSILE_TXTR2: u32 = 0xDEAF0045;
pub const SHINY_MISSILE_CMDL: u32 = 0xDEAF0046;
pub const SHINY_MISSILE_ANCS: u32 = 0xDEAF0047;
pub const SHINY_MISSILE_EVNT: u32 = 0xDEAF0048;
pub const SHINY_MISSILE_ANIM: u32 = 0xDEAF0049;

pub const POWER_BOMB_DOOR_CMDL: u32 = 0xDEAF0050;
pub const MORPH_BALL_BOMB_DOOR_CMDL: u32 = 0xDEAF0051;
pub const MISSILE_DOOR_CMDL: u32 = 0xDEAF0052;
pub const CHARGE_DOOR_CMDL: u32 = 0xDEAF0053;
pub const SUPER_MISSILE_DOOR_CMDL: u32 = 0xDEAF0054;
pub const DISABLED_DOOR_CMDL: u32 = 0xDEAF0055;
pub const WAVEBUSTER_DOOR_CMDL: u32 = 0xDEAF0056;
pub const ICESPREADER_DOOR_CMDL: u32 = 0xDEAF0057;
pub const FLAMETHROWER_DOOR_CMDL: u32 = 0xDEAF0058;
pub const AI_DOOR_CMDL: u32 = 0xDEAF0059;
pub const VERTICAL_RED_DOOR_CMDL: u32 = 0xDEAF005A;
pub const VERTICAL_POWER_BOMB_DOOR_CMDL: u32 = 0xDEAF005B;
pub const VERTICAL_MORPH_BALL_BOMB_DOOR_CMDL: u32 = 0xDEAF005C;
pub const VERTICAL_MISSILE_DOOR_CMDL: u32 = 0xDEAF005D;
pub const VERTICAL_CHARGE_DOOR_CMDL: u32 = 0xDEAF005E;
pub const VERTICAL_SUPER_MISSILE_DOOR_CMDL: u32 = 0xDEAF005F;
pub const VERTICAL_DISABLED_DOOR_CMDL: u32 = 0xDEAF0060;
pub const VERTICAL_WAVEBUSTER_DOOR_CMDL: u32 = 0xDEAF0061;
pub const VERTICAL_ICESPREADER_DOOR_CMDL: u32 = 0xDEAF0062;
pub const VERTICAL_FLAMETHROWER_DOOR_CMDL: u32 = 0xDEAF0063;
pub const VERTICAL_AI_DOOR_CMDL: u32 = 0xDEAF0064;

pub const POWER_BOMB_DOOR_TXTR: u32 = 0xDEAF0070;
pub const MORPH_BALL_BOMB_DOOR_TXTR: u32 = 0xDEAF0071;
pub const SUPER_MISSILE_DOOR_TXTR: u32 = 0xDEAF0072;
pub const WAVEBUSTER_DOOR_TXTR: u32 = 0xDEAF0073;
pub const ICESPREADER_DOOR_TXTR: u32 = 0xDEAF0074;
pub const FLAMETHROWER_DOOR_TXTR: u32 = 0xDEAF0075;
pub const AI_DOOR_TXTR: u32 = 0xDEAF0076;

pub const POWER_BOMB_BLAST_SHIELD_CMDL: u32 = 0xDEAF0080;
pub const SUPER_BLAST_SHIELD_CMDL: u32 = 0xDEAF0081;
pub const WAVEBUSTER_BLAST_SHIELD_CMDL: u32 = 0xDEAF0082;
pub const ICESPREADER_BLAST_SHIELD_CMDL: u32 = 0xDEAF0083;
pub const FLAMETHROWER_BLAST_SHIELD_CMDL: u32 = 0xDEAF0084;
pub const POWER_BOMB_BLAST_SHIELD_TXTR: u32 = 0xDEAF0085;
pub const SUPER_BLAST_SHIELD_TXTR: u32 = 0xDEAF0086;
pub const WAVEBUSTER_BLAST_SHIELD_TXTR: u32 = 0xDEAF0087;
pub const ICESPREADER_BLAST_SHIELD_TXTR: u32 = 0xDEAF0088;
pub const FLAMETHROWER_BLAST_SHIELD_TXTR: u32 = 0xDEAF0089;
pub const POWER_BOMB_BLAST_SHIELD_SCAN: u32 = 0xDEAF008A;
pub const SUPER_BLAST_SHIELD_SCAN: u32 = 0xDEAF008B;
pub const WAVEBUSTER_BLAST_SHIELD_SCAN: u32 = 0xDEAF008C;
pub const ICESPREADER_BLAST_SHIELD_SCAN: u32 = 0xDEAF008D;
pub const FLAMETHROWER_BLAST_SHIELD_SCAN: u32 = 0xDEAF008E;
pub const POWER_BOMB_BLAST_SHIELD_STRG: u32 = 0xDEAF008F;
pub const SUPER_BLAST_SHIELD_STRG: u32 = 0xDEAF0090;
pub const WAVEBUSTER_BLAST_SHIELD_STRG: u32 = 0xDEAF0091;
pub const ICESPREADER_BLAST_SHIELD_STRG: u32 = 0xDEAF0092;
pub const FLAMETHROWER_BLAST_SHIELD_STRG: u32 = 0xDEAF0093;
pub const BLAST_SHIELD_ALT_TXTR0: u32 = 0xDEAF0094;
pub const BLAST_SHIELD_ALT_TXTR1: u32 = 0xDEAF0095;
pub const BLAST_SHIELD_ALT_TXTR2: u32 = 0xDEAF0096;

} // verus!
