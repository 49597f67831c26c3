//! The resource cache builder: scan every container once, extract the
//! closure of resources that every catalog variant depends on, synthesize
//! the brand-new assets that cannot be extracted, and fail fast if anything
//! a variant declares stays unresolved.

use vstd::prelude::*;

use crate::door_meta::DoorType;
use crate::ids::{ResKey, FOURCC_CMDL, FOURCC_STRG, push_unique, is_custom_asset};
use crate::ids;
use crate::patcher::{GcDisc, FstEntryFile};
use crate::pickup_meta::{PickupTable, PickupType, PICKUP_TYPE_COUNT};
use crate::pool::{
    DependencyPool, Resource, ResourceKind, ModelData, AnimSetData, EvntData, ScanData, StrgData,
    StrgTable, SavwData, MapaData, build_resource,
};
use crate::pool::remove_key;
use crate::synth::{clone_and_remap, FieldEdit, dup_u32s, dup_bytes, spec_source_small};

verus! {

/// The vanilla assets that synthesized resources are cloned from. The
/// symbol-to-id mapping is the codec collaborator's concern, so the ids
/// arrive here as plain values.
#[derive(Clone, Copy, Debug)]
pub struct CacheSources {
    /// The suit model whose icon variants are derived.
    pub suit_source_cmdl: u32,
    /// Its animation set.
    pub suit_source_ancs: u32,
    /// The missile model the shiny missile is derived from.
    pub shiny_source_cmdl: u32,
    /// Its animation set.
    pub shiny_source_ancs: u32,
    /// Its animation event table.
    pub shiny_source_evnt: u32,
    /// Its raw animation.
    pub shiny_source_anim: u32,
    /// The sparkle effect the shiny missile spawns.
    pub health_part: u32,
}

/// The two payloads carry the same data, compared at the view level.
pub open spec fn kinds_like(a: ResourceKind, b: ResourceKind) -> bool {
    match (a, b) {
        (ResourceKind::Raw(x), ResourceKind::Raw(y)) => x@ == y@,
        (ResourceKind::External(x), ResourceKind::External(y)) => x@ == y@,
        (ResourceKind::Model(x), ResourceKind::Model(y)) => x.texture_ids@ == y.texture_ids@
            && x.geometry@ == y.geometry@,
        (ResourceKind::AnimSet(x), ResourceKind::AnimSet(y)) => x.cmdl == y.cmdl && x.part_assets@
            == y.part_assets@ && x.evnt == y.evnt && x.anim == y.anim && x.body@ == y.body@,
        (ResourceKind::Evnt(x), ResourceKind::Evnt(y)) => x.effect_events@ == y.effect_events@,
        (ResourceKind::Scan(x), ResourceKind::Scan(y)) => x == y,
        (ResourceKind::Strg(x), ResourceKind::Strg(y)) => x.tables@.len() == y.tables@.len()
            && (forall|t: int|
            0 <= t < x.tables@.len() ==> (#[trigger] x.tables@[t]).lang == y.tables@[t].lang
                && x.tables@[t].strings@ == y.tables@[t].strings@),
        (ResourceKind::Savw(x), ResourceKind::Savw(y)) => x.scan_array@ == y.scan_array@,
        (ResourceKind::Mapa(x), ResourceKind::Mapa(y)) => x.objects@ == y.objects@,
        _ => false,
    }
}

/// A deep copy of a resource whose payload a dependency can carry. An area
/// or GUI frame is never a dependency payload, so copying one is refused.
pub fn clone_resource(res: &Resource) -> (r: Result<Resource, String>)
    ensures
        r matches Ok(c) ==> c.file_id == res.file_id && c.fourcc == res.fourcc && c.compressed
            == res.compressed && kinds_like(res.kind, c.kind),
{
    let kind = match &res.kind {
        ResourceKind::Raw(b) => ResourceKind::Raw(dup_bytes(b)),
        ResourceKind::External(b) => ResourceKind::External(dup_bytes(b)),
        ResourceKind::Model(m) => ResourceKind::Model(
            ModelData { texture_ids: dup_u32s(&m.texture_ids), geometry: dup_bytes(&m.geometry) },
        ),
        ResourceKind::AnimSet(a) => ResourceKind::AnimSet(
            AnimSetData {
                cmdl: a.cmdl,
                part_assets: dup_u32s(&a.part_assets),
                evnt: a.evnt,
                anim: a.anim,
                body: dup_bytes(&a.body),
            },
        ),
        ResourceKind::Evnt(e) => ResourceKind::Evnt(
            EvntData { effect_events: dup_u32s(&e.effect_events) },
        ),
        ResourceKind::Scan(sc) => ResourceKind::Scan(
            ScanData {
                frme: sc.frme,
                strg: sc.strg,
                scan_speed: sc.scan_speed,
                category: sc.category,
                icon_flag: sc.icon_flag,
            },
        ),
        ResourceKind::Strg(sd) => {
            let mut tables: Vec<StrgTable> = Vec::new();
            let mut t: usize = 0;
            while t < sd.tables.len()
                invariant
                    t <= sd.tables@.len(),
                    tables@.len() == t,
                    forall|k: int|
                        0 <= k < t ==> (#[trigger] tables@[k]).lang == sd.tables@[k].lang
                            && tables@[k].strings@ == sd.tables@[k].strings@,
                decreases sd.tables@.len() - t,
            {
                let src_table = &sd.tables[t];
                let mut strings: Vec<String> = Vec::new();
                let mut si: usize = 0;
                while si < src_table.strings.len()
                    invariant
                        si <= src_table.strings@.len(),
                        strings@.len() == si,
                        forall|k: int| 0 <= k < si ==> strings@[k] == src_table.strings@[k],
                    decreases src_table.strings@.len() - si,
                {
                    strings.push(src_table.strings[si].clone());
                    si += 1;
                }
                proof {
                    assert(strings@ =~= src_table.strings@);
                }
                tables.push(StrgTable { lang: src_table.lang, strings });
                t += 1;
            }
            ResourceKind::Strg(StrgData { tables })
        },
        ResourceKind::Savw(sw) => {
            let mut scan_array: Vec<crate::pool::ScannableObject> = Vec::new();
            let mut k: usize = 0;
            while k < sw.scan_array.len()
                invariant
                    k <= sw.scan_array@.len(),
                    scan_array@ == sw.scan_array@.subrange(0, k as int),
                decreases sw.scan_array@.len() - k,
            {
                scan_array.push(sw.scan_array[k]);
                proof {
                    assert(scan_array@ =~= sw.scan_array@.subrange(0, k as int + 1));
                }
                k += 1;
            }
            proof {
                assert(sw.scan_array@.subrange(0, sw.scan_array@.len() as int)
                    =~= sw.scan_array@);
            }
            ResourceKind::Savw(SavwData { scan_array })
        },
        ResourceKind::Mapa(m) => {
            let mut objects: Vec<crate::pool::MapaObject> = Vec::new();
            let mut k: usize = 0;
            while k < m.objects.len()
                invariant
                    k <= m.objects@.len(),
                    objects@ == m.objects@.subrange(0, k as int),
                decreases m.objects@.len() - k,
            {
                objects.push(m.objects[k]);
                proof {
                    assert(objects@ =~= m.objects@.subrange(0, k as int + 1));
                }
                k += 1;
            }
            proof {
                assert(m.objects@.subrange(0, m.objects@.len() as int) =~= m.objects@);
            }
            ResourceKind::Mapa(MapaData { objects })
        },
        _ => {
            return Err(String::from_str("resource payload cannot be copied into the pool"));
        },
    };
    Ok(Resource { file_id: res.file_id, fourcc: res.fourcc, compressed: res.compressed, kind })
}

/// A scan point plus the single-line string table it shows.
pub fn create_item_scan_strg_pair(new_scan: u32, new_strg: u32, contents: &str) -> (r: (
    Resource,
    Resource,
))
    ensures
        r.0.file_id == new_scan,
        r.0.fourcc == ids::FOURCC_SCAN,
        r.0.kind matches ResourceKind::Scan(sc) && sc.frme == 0xFFFFFFFF && sc.strg == new_strg
            && sc.scan_speed == 0 && sc.category == 0 && sc.icon_flag == 0,
        r.1.file_id == new_strg,
        r.1.fourcc == FOURCC_STRG,
        r.1.kind matches ResourceKind::Strg(sd) && sd.tables@.len() == 1
            && sd.tables@[0].lang == ids::FOURCC_STRG_LANG_ENGL && sd.tables@[0].strings@.len()
            == 1 && sd.tables@[0].strings@[0]@ == contents@,
{
    let scan = build_resource(
        new_scan,
        ids::FOURCC_SCAN,
        ResourceKind::Scan(
            ScanData { frme: 0xFFFFFFFF, strg: new_strg, scan_speed: 0, category: 0, icon_flag: 0 },
        ),
    );
    let mut strings: Vec<String> = Vec::new();
    strings.push(String::from_str(contents));
    let mut tables: Vec<StrgTable> = Vec::new();
    tables.push(StrgTable { lang: ids::FOURCC_STRG_LANG_ENGL, strings });
    let strg = build_resource(new_strg, FOURCC_STRG, ResourceKind::Strg(StrgData { tables }));
    (scan, strg)
}

/// One skip-hudmemo string table per pickup variant, named after the
/// variant, added straight to the pool.
pub fn add_skip_hudmemos_strgs(pool: &mut DependencyPool, table: &PickupTable) -> (r: Result<
    (),
    String,
>)
    requires
        table.complete(),
        old(pool).wf(),
    ensures
        final(pool).wf(),
{
    let all = PickupType::iter();
    let mut i: usize = 0;
    while i < all.len()
        invariant
            table.complete(),
            pool.wf(),
            i <= all@.len(),
        decreases all@.len() - i,
    {
        let pt = all[i];
        let id = pt.skip_hudmemos_strg();
        let line = String::from_str("&just=center;").concat(pt.name()).concat(" acquired!\0");
        let mut strings: Vec<String> = Vec::new();
        strings.push(line);
        let mut tables: Vec<StrgTable> = Vec::new();
        tables.push(StrgTable { lang: ids::FOURCC_STRG_LANG_ENGL, strings });
        let res = build_resource(id, FOURCC_STRG, ResourceKind::Strg(StrgData { tables }));
        match pool.insert(res) {
            Ok(()) => {},
            Err(e) => {
                return Err(e);
            },
        }
        i += 1;
    }
    Ok(())
}

/// Synthesize one custom door frame model: the blue frame (or the vertical
/// white frame, for ceiling doors) recolored with the variant's rim
/// texture.
/// Which vanilla frame model a custom door frame is cloned from: the
/// vertical white frame for ceiling doors, the blue frame otherwise.
pub open spec fn spec_door_frame_source_key(door_type: DoorType) -> ResKey {
    if door_type.spec_is_vertical() {
        ResKey { id: 0x18D0AEE6, fourcc: FOURCC_CMDL }
    } else {
        ResKey { id: 0x0734977A, fourcc: FOURCC_CMDL }
    }
}

pub fn create_custom_door_cmdl(resources: &DependencyPool, door_type: DoorType) -> (r: Result<
    Resource,
    String,
>)
    requires
        resources.wf(),
    ensures
        r is Ok <==> {
            &&& resources.spec_contains(spec_door_frame_source_key(door_type))
            &&& spec_source_small(
                resources.spec_entry(spec_door_frame_source_key(door_type)).kind,
            )
            &&& (resources.spec_entry(spec_door_frame_source_key(door_type)).kind matches
            ResourceKind::Model(m) && m.texture_ids@.len() > 0)
        },
        r matches Ok(res) ==> {
            &&& res.file_id == door_type.spec_shield_cmdl()
            &&& res.fourcc == FOURCC_CMDL
            &&& !res.compressed
            &&& (res.kind matches ResourceKind::External(b)
                && (resources.spec_entry(spec_door_frame_source_key(door_type)).kind matches
            ResourceKind::Model(m) ==> b@ == crate::synth::spec_pad32(
                crate::synth::spec_model_bytes(
                    m.texture_ids@.update(0, door_type.spec_holorim_texture()),
                    m.geometry@,
                ),
            )) && b@.len() % 32 == 0)
        },
{
    let source_id: u32 = if door_type.is_vertical() {
        0x18D0AEE6
    } else {
        0x0734977A
    };
    let key = ResKey { id: source_id, fourcc: FOURCC_CMDL };
    proof {
        assert(key == spec_door_frame_source_key(door_type));
    }
    let source = match resources.get(&key) {
        Some(res) => res,
        None => {
            return Err(String::from_str("door frame source model is missing from the pool"));
        },
    };
    if !source_small_enough(source) {
        return Err(String::from_str("door frame source model is too large"));
    }
    let mut edits: Vec<FieldEdit> = Vec::new();
    edits.push(FieldEdit::TextureId { index: 0, id: door_type.holorim_texture() });
    proof {
        lemma_single_texture_edit(
            source.kind,
            edits@,
            0,
            door_type.spec_holorim_texture(),
        );
    }
    let out = match clone_and_remap(source, &edits, door_type.shield_cmdl()) {
        Ok(out) => out,
        Err(e) => {
            return Err(e);
        },
    };
    proof {
        assert(source.spec_key().fourcc == FOURCC_CMDL);
    }
    Ok(out)
}

/// A single texture edit applies exactly when the source is a model with a
/// texture table that covers the index; the result is then the padded
/// serialization of the edited model.
proof fn lemma_single_texture_edit(
    kind: ResourceKind,
    edits: Seq<crate::synth::FieldEdit>,
    index: usize,
    id: u32,
)
    requires
        edits =~= seq![crate::synth::FieldEdit::TextureId { index, id }],
    ensures
        crate::synth::spec_clone_and_remap(kind, edits) is Some <==> (kind matches
        ResourceKind::Model(m) && m.texture_ids@.len() > index),
        kind matches ResourceKind::Model(m) ==> (m.texture_ids@.len() > index
            ==> crate::synth::spec_clone_and_remap(kind, edits) == Some(
            crate::synth::spec_pad32(
                crate::synth::spec_model_bytes(
                    m.texture_ids@.update(index as int, id),
                    m.geometry@,
                ),
            ),
        )),
{
    reveal_with_fuel(crate::synth::spec_edit_textures_all, 3);
    assert(edits[0] == crate::synth::FieldEdit::TextureId { index, id });
    assert(edits.drop_first() =~= Seq::<crate::synth::FieldEdit>::empty());
    assert(edits.drop_first().len() == 0);
    match kind {
        ResourceKind::Model(m) => {
            if m.texture_ids@.len() > index {
                let updated = m.texture_ids@.update(index as int, id);
                assert(crate::synth::spec_edit_textures(m.texture_ids@, edits[0]) == Some(
                    updated,
                ));
                assert(crate::synth::spec_edit_textures_all(updated, edits.drop_first())
                    == Some(updated));
                assert(crate::synth::spec_edit_textures_all(m.texture_ids@, edits) == Some(
                    updated,
                ));
            } else {
                assert(crate::synth::spec_edit_textures(m.texture_ids@, edits[0]) is None);
            }
        },
        _ => {},
    }
}

/// The serialization bound of [`clone_and_remap`], checked at run time.
fn source_small_enough(res: &Resource) -> (r: bool)
    ensures
        r == spec_source_small(res.kind),
{
    match &res.kind {
        ResourceKind::Model(m) => m.texture_ids.len() < 0x1000000 && m.geometry.len()
            < 0x10000000,
        ResourceKind::AnimSet(a) => a.part_assets.len() < 0x1000000 && a.body.len() < 0x10000000,
        ResourceKind::Evnt(e) => e.effect_events.len() < 0x1000000,
        ResourceKind::Raw(b) => b.len() < 0x10000000,
        _ => true,
    }
}

/// Two texture edits apply exactly when the source is a model whose table
/// covers both indexes; the result is the padded serialization of the
/// doubly edited model.
proof fn lemma_two_texture_edits(
    kind: ResourceKind,
    edits: Seq<crate::synth::FieldEdit>,
    t1: u32,
    t2: u32,
)
    requires
        edits =~= seq![
            crate::synth::FieldEdit::TextureId { index: 0, id: t1 },
            crate::synth::FieldEdit::TextureId { index: 3, id: t2 },
        ],
    ensures
        crate::synth::spec_clone_and_remap(kind, edits) is Some <==> (kind matches
        ResourceKind::Model(m) && m.texture_ids@.len() > 3),
        kind matches ResourceKind::Model(m) ==> (m.texture_ids@.len() > 3
            ==> crate::synth::spec_clone_and_remap(kind, edits) == Some(
            crate::synth::spec_pad32(
                crate::synth::spec_model_bytes(
                    m.texture_ids@.update(0, t1).update(3, t2),
                    m.geometry@,
                ),
            ),
        )),
{
    reveal_with_fuel(crate::synth::spec_edit_textures_all, 4);
    assert(edits[0] == crate::synth::FieldEdit::TextureId { index: 0, id: t1 });
    assert(edits.drop_first()[0] == crate::synth::FieldEdit::TextureId { index: 3, id: t2 });
    assert(edits.drop_first().drop_first() =~= Seq::<crate::synth::FieldEdit>::empty());
    match kind {
        ResourceKind::Model(m) => {
            if m.texture_ids@.len() > 3 {
                let once = m.texture_ids@.update(0, t1);
                let twice = once.update(3, t2);
                assert(crate::synth::spec_edit_textures_all(m.texture_ids@, edits) == Some(
                    twice,
                ));
            } else if m.texture_ids@.len() > 0 {
                let once = m.texture_ids@.update(0, t1);
                assert(crate::synth::spec_edit_textures(once, edits.drop_first()[0]) is None);
            } else {
                assert(crate::synth::spec_edit_textures(m.texture_ids@, edits[0]) is None);
            }
        },
        _ => {},
    }
}

/// Replacing a model's whole texture list applies to any model; the result
/// is the padded serialization over the new list.
proof fn lemma_all_textures_edit(
    kind: ResourceKind,
    edits: Seq<crate::synth::FieldEdit>,
    ids_vec: Vec<u32>,
)
    requires
        edits =~= seq![crate::synth::FieldEdit::AllTextureIds { ids: ids_vec }],
    ensures
        crate::synth::spec_clone_and_remap(kind, edits) is Some <==> kind is Model,
        kind matches ResourceKind::Model(m) ==> crate::synth::spec_clone_and_remap(kind, edits)
            == Some(
            crate::synth::spec_pad32(crate::synth::spec_model_bytes(ids_vec@, m.geometry@)),
        ),
{
    reveal_with_fuel(crate::synth::spec_edit_textures_all, 3);
    assert(edits[0] == crate::synth::FieldEdit::AllTextureIds { ids: ids_vec });
    assert(edits.drop_first() =~= Seq::<crate::synth::FieldEdit>::empty());
    match kind {
        ResourceKind::Model(m) => {
            assert(crate::synth::spec_edit_textures_all(m.texture_ids@, edits) == Some(
                ids_vec@,
            ));
        },
        _ => {},
    }
}

/// The four-reference rebinding of an animation set applies to any
/// animation set; the result is the padded serialization over the new
/// references.
proof fn lemma_animset_rebind(
    kind: ResourceKind,
    edits: Seq<crate::synth::FieldEdit>,
    cmdl: u32,
    parts_vec: Vec<u32>,
    evnt: u32,
    anim: u32,
)
    requires
        edits =~= seq![
            crate::synth::FieldEdit::ModelRef { id: cmdl },
            crate::synth::FieldEdit::Particles { ids: parts_vec },
            crate::synth::FieldEdit::EventTable { id: evnt },
            crate::synth::FieldEdit::Animation { id: anim },
        ],
    ensures
        crate::synth::spec_clone_and_remap(kind, edits) is Some <==> kind is AnimSet,
        kind matches ResourceKind::AnimSet(a) ==> crate::synth::spec_clone_and_remap(
            kind,
            edits,
        ) == Some(
            crate::synth::spec_pad32(
                crate::synth::spec_animset_bytes(
                    crate::synth::AnimSetRefs { cmdl, parts: parts_vec@, evnt, anim },
                    a.body@,
                ),
            ),
        ),
{
    reveal_with_fuel(crate::synth::spec_edit_animset_all, 6);
    assert(edits[0] == crate::synth::FieldEdit::ModelRef { id: cmdl });
    assert(edits.drop_first()[0] == crate::synth::FieldEdit::Particles { ids: parts_vec });
    assert(edits.drop_first().drop_first()[0] == crate::synth::FieldEdit::EventTable {
        id: evnt,
    });
    assert(edits.drop_first().drop_first().drop_first()[0]
        == crate::synth::FieldEdit::Animation { id: anim });
    assert(edits.drop_first().drop_first().drop_first().drop_first()
        =~= Seq::<crate::synth::FieldEdit>::empty());
    match kind {
        ResourceKind::AnimSet(a) => {
            let refs0 = crate::synth::AnimSetRefs {
                cmdl: a.cmdl,
                parts: a.part_assets@,
                evnt: a.evnt,
                anim: a.anim,
            };
            let refs4 = crate::synth::AnimSetRefs { cmdl, parts: parts_vec@, evnt, anim };
            assert(crate::synth::spec_edit_animset_all(refs0, edits) == Some(refs4));
        },
        _ => {},
    }
}

/// A single rebinding of an animation set's model applies to any animation
/// set; the other references carry over.
proof fn lemma_animset_model_rebind(
    kind: ResourceKind,
    edits: Seq<crate::synth::FieldEdit>,
    cmdl: u32,
)
    requires
        edits =~= seq![crate::synth::FieldEdit::ModelRef { id: cmdl }],
    ensures
        crate::synth::spec_clone_and_remap(kind, edits) is Some <==> kind is AnimSet,
        kind matches ResourceKind::AnimSet(a) ==> crate::synth::spec_clone_and_remap(
            kind,
            edits,
        ) == Some(
            crate::synth::spec_pad32(
                crate::synth::spec_animset_bytes(
                    crate::synth::AnimSetRefs {
                        cmdl,
                        parts: a.part_assets@,
                        evnt: a.evnt,
                        anim: a.anim,
                    },
                    a.body@,
                ),
            ),
        ),
{
    reveal_with_fuel(crate::synth::spec_edit_animset_all, 3);
    assert(edits[0] == crate::synth::FieldEdit::ModelRef { id: cmdl });
    assert(edits.drop_first() =~= Seq::<crate::synth::FieldEdit>::empty());
    match kind {
        ResourceKind::AnimSet(a) => {
            let refs0 = crate::synth::AnimSetRefs {
                cmdl: a.cmdl,
                parts: a.part_assets@,
                evnt: a.evnt,
                anim: a.anim,
            };
            let refs1 = crate::synth::AnimSetRefs {
                cmdl,
                parts: a.part_assets@,
                evnt: a.evnt,
                anim: a.anim,
            };
            assert(crate::synth::spec_edit_animset_all(refs0, edits) == Some(refs1));
        },
        _ => {},
    }
}

/// Retargeting the first two events applies exactly when the table covers
/// them; the result is the padded serialization of the edited table.
proof fn lemma_two_event_edits(kind: ResourceKind, edits: Seq<crate::synth::FieldEdit>, id: u32)
    requires
        edits =~= seq![
            crate::synth::FieldEdit::EffectEvent { index: 0, id },
            crate::synth::FieldEdit::EffectEvent { index: 1, id },
        ],
    ensures
        crate::synth::spec_clone_and_remap(kind, edits) is Some <==> (kind matches
        ResourceKind::Evnt(e) && e.effect_events@.len() > 1),
        kind matches ResourceKind::Evnt(e) ==> (e.effect_events@.len() > 1
            ==> crate::synth::spec_clone_and_remap(kind, edits) == Some(
            crate::synth::spec_pad32(
                crate::synth::spec_evnt_bytes(e.effect_events@.update(0, id).update(1, id)),
            ),
        )),
{
    reveal_with_fuel(crate::synth::spec_edit_evnt_all, 4);
    assert(edits[0] == crate::synth::FieldEdit::EffectEvent { index: 0, id });
    assert(edits.drop_first()[0] == crate::synth::FieldEdit::EffectEvent { index: 1, id });
    assert(edits.drop_first().drop_first() =~= Seq::<crate::synth::FieldEdit>::empty());
    match kind {
        ResourceKind::Evnt(e) => {
            if e.effect_events@.len() > 1 {
                let once = e.effect_events@.update(0, id);
                let twice = once.update(1, id);
                assert(crate::synth::spec_edit_evnt_all(e.effect_events@, edits) == Some(
                    twice,
                ));
            } else if e.effect_events@.len() > 0 {
                let once = e.effect_events@.update(0, id);
                assert(crate::synth::spec_edit_evnt(once, edits.drop_first()[0]) is None);
            } else {
                assert(crate::synth::spec_edit_evnt(e.effect_events@, edits[0]) is None);
            }
        },
        _ => {},
    }
}

/// A raw word splice applies exactly when the payload covers the four
/// bytes; the result is the padded spliced bytes.
proof fn lemma_raw_word_splice(
    kind: ResourceKind,
    edits: Seq<crate::synth::FieldEdit>,
    offset: usize,
    value: u32,
)
    requires
        edits =~= seq![crate::synth::FieldEdit::WriteU32At { offset, value }],
    ensures
        crate::synth::spec_clone_and_remap(kind, edits) is Some <==> (kind matches
        ResourceKind::Raw(b) && offset + 4 <= b@.len()),
        kind matches ResourceKind::Raw(b) ==> (offset + 4 <= b@.len()
            ==> crate::synth::spec_clone_and_remap(kind, edits) == Some(
            crate::synth::spec_pad32(
                b@.subrange(0, offset as int) + crate::synth::u32_be(value) + b@.subrange(
                    offset + 4,
                    b@.len() as int,
                ),
            ),
        )),
{
    reveal_with_fuel(crate::synth::spec_edit_raw_all, 3);
    assert(edits[0] == crate::synth::FieldEdit::WriteU32At { offset, value });
    assert(edits.drop_first() =~= Seq::<crate::synth::FieldEdit>::empty());
    match kind {
        ResourceKind::Raw(b) => {
            if offset + 4 <= b@.len() {
                let spliced = b@.subrange(0, offset as int) + crate::synth::u32_be(value)
                    + b@.subrange(offset + 4, b@.len() as int);
                assert(crate::synth::spec_edit_raw_all(b@, edits) == Some(spliced));
            } else {
                assert(crate::synth::spec_edit_raw(b@, edits[0]) is None);
            }
        },
        _ => {},
    }
}

/// Synthesize a suit icon: the source suit model wearing two new textures,
/// and its animation set rebound to the new model.
pub fn create_suit_icon_cmdl_and_ancs(
    resources: &DependencyPool,
    srcs: &CacheSources,
    new_cmdl_id: u32,
    new_ancs_id: u32,
    new_txtr1: u32,
    new_txtr2: u32,
) -> (r: Result<(Resource, Resource), String>)
    requires
        resources.wf(),
    ensures
        r is Ok <==> {
            &&& resources.spec_contains(ResKey { id: srcs.suit_source_cmdl, fourcc: FOURCC_CMDL })
            &&& spec_source_small(
                resources.spec_entry(
                    ResKey { id: srcs.suit_source_cmdl, fourcc: FOURCC_CMDL },
                ).kind,
            )
            &&& (resources.spec_entry(
                ResKey { id: srcs.suit_source_cmdl, fourcc: FOURCC_CMDL },
            ).kind matches ResourceKind::Model(m) && m.texture_ids@.len() > 3)
            &&& resources.spec_contains(
                ResKey { id: srcs.suit_source_ancs, fourcc: ids::FOURCC_ANCS },
            )
            &&& spec_source_small(
                resources.spec_entry(
                    ResKey { id: srcs.suit_source_ancs, fourcc: ids::FOURCC_ANCS },
                ).kind,
            )
            &&& resources.spec_entry(
                ResKey { id: srcs.suit_source_ancs, fourcc: ids::FOURCC_ANCS },
            ).kind is AnimSet
        },
        r matches Ok(pair) ==> {
            &&& pair.0.file_id == new_cmdl_id
            &&& pair.0.fourcc == FOURCC_CMDL
            &&& !pair.0.compressed
            &&& (pair.0.kind matches ResourceKind::External(b)
                && (resources.spec_entry(
                ResKey { id: srcs.suit_source_cmdl, fourcc: FOURCC_CMDL },
            ).kind matches ResourceKind::Model(m) ==> b@ == crate::synth::spec_pad32(
                crate::synth::spec_model_bytes(
                    m.texture_ids@.update(0, new_txtr1).update(3, new_txtr2),
                    m.geometry@,
                ),
            )) && b@.len() % 32 == 0)
            &&& pair.1.file_id == new_ancs_id
            &&& pair.1.fourcc == ids::FOURCC_ANCS
            &&& !pair.1.compressed
            &&& (pair.1.kind matches ResourceKind::External(b2)
                && (resources.spec_entry(
                ResKey { id: srcs.suit_source_ancs, fourcc: ids::FOURCC_ANCS },
            ).kind matches ResourceKind::AnimSet(a) ==> b2@ == crate::synth::spec_pad32(
                crate::synth::spec_animset_bytes(
                    crate::synth::AnimSetRefs {
                        cmdl: new_cmdl_id,
                        parts: a.part_assets@,
                        evnt: a.evnt,
                        anim: a.anim,
                    },
                    a.body@,
                ),
            )) && b2@.len() % 32 == 0)
        },
{
    let cmdl_src = match resources.get(
        &ResKey { id: srcs.suit_source_cmdl, fourcc: FOURCC_CMDL },
    ) {
        Some(res) => res,
        None => {
            return Err(String::from_str("suit source model is missing from the pool"));
        },
    };
    if !source_small_enough(cmdl_src) {
        return Err(String::from_str("suit source model is too large"));
    }
    let mut cmdl_edits: Vec<FieldEdit> = Vec::new();
    cmdl_edits.push(FieldEdit::TextureId { index: 0, id: new_txtr1 });
    cmdl_edits.push(FieldEdit::TextureId { index: 3, id: new_txtr2 });
    proof {
        lemma_two_texture_edits(cmdl_src.kind, cmdl_edits@, new_txtr1, new_txtr2);
    }
    let new_cmdl = match clone_and_remap(cmdl_src, &cmdl_edits, new_cmdl_id) {
        Ok(out) => out,
        Err(e) => {
            return Err(e);
        },
    };

    let ancs_src = match resources.get(
        &ResKey { id: srcs.suit_source_ancs, fourcc: ids::FOURCC_ANCS },
    ) {
        Some(res) => res,
        None => {
            return Err(String::from_str("suit source animation set is missing from the pool"));
        },
    };
    if !source_small_enough(ancs_src) {
        return Err(String::from_str("suit source animation set is too large"));
    }
    let mut ancs_edits: Vec<FieldEdit> = Vec::new();
    ancs_edits.push(FieldEdit::ModelRef { id: new_cmdl_id });
    proof {
        lemma_animset_model_rebind(ancs_src.kind, ancs_edits@, new_cmdl_id);
    }
    let new_ancs = match clone_and_remap(ancs_src, &ancs_edits, new_ancs_id) {
        Ok(out) => out,
        Err(e) => {
            return Err(e);
        },
    };
    proof {
        assert(cmdl_src.spec_key().fourcc == FOURCC_CMDL);
        assert(ancs_src.spec_key().fourcc == ids::FOURCC_ANCS);
    }
    Ok((new_cmdl, new_ancs))
}

/// Synthesize the shiny missile: a retextured missile model, an animation
/// set rebound to it with a sparkle effect, the retargeted event table, and
/// the animation repointed at that table.
pub fn create_shiny_missile_assets(resources: &DependencyPool, srcs: &CacheSources) -> (r: Result<
    Vec<Resource>,
    String,
>)
    requires
        resources.wf(),
    ensures
        r is Ok <==> {
            &&& resources.spec_contains(
                ResKey { id: srcs.shiny_source_cmdl, fourcc: FOURCC_CMDL },
            )
            &&& spec_source_small(
                resources.spec_entry(
                    ResKey { id: srcs.shiny_source_cmdl, fourcc: FOURCC_CMDL },
                ).kind,
            )
            &&& resources.spec_entry(
                ResKey { id: srcs.shiny_source_cmdl, fourcc: FOURCC_CMDL },
            ).kind is Model
            &&& resources.spec_contains(
                ResKey { id: srcs.shiny_source_ancs, fourcc: ids::FOURCC_ANCS },
            )
            &&& spec_source_small(
                resources.spec_entry(
                    ResKey { id: srcs.shiny_source_ancs, fourcc: ids::FOURCC_ANCS },
                ).kind,
            )
            &&& resources.spec_entry(
                ResKey { id: srcs.shiny_source_ancs, fourcc: ids::FOURCC_ANCS },
            ).kind is AnimSet
            &&& resources.spec_contains(
                ResKey { id: srcs.shiny_source_evnt, fourcc: ids::FOURCC_EVNT },
            )
            &&& spec_source_small(
                resources.spec_entry(
                    ResKey { id: srcs.shiny_source_evnt, fourcc: ids::FOURCC_EVNT },
                ).kind,
            )
            &&& (resources.spec_entry(
                ResKey { id: srcs.shiny_source_evnt, fourcc: ids::FOURCC_EVNT },
            ).kind matches ResourceKind::Evnt(e) && e.effect_events@.len() > 1)
            &&& resources.spec_contains(
                ResKey { id: srcs.shiny_source_anim, fourcc: ids::FOURCC_ANIM },
            )
            &&& spec_source_small(
                resources.spec_entry(
                    ResKey { id: srcs.shiny_source_anim, fourcc: ids::FOURCC_ANIM },
                ).kind,
            )
            &&& (resources.spec_entry(
                ResKey { id: srcs.shiny_source_anim, fourcc: ids::FOURCC_ANIM },
            ).kind matches ResourceKind::Raw(b) && b@.len() >= 12)
        },
        r matches Ok(v) ==> {
            &&& v@.len() == 4
            &&& v@[0].file_id == ids::SHINY_MISSILE_CMDL
            &&& (v@[0].kind matches ResourceKind::External(b)
                && (resources.spec_entry(
                ResKey { id: srcs.shiny_source_cmdl, fourcc: FOURCC_CMDL },
            ).kind matches ResourceKind::Model(m) ==> b@ == crate::synth::spec_pad32(
                crate::synth::spec_model_bytes(
                    seq![
                        ids::SHINY_MISSILE_TXTR0,
                        ids::SHINY_MISSILE_TXTR1,
                        ids::SHINY_MISSILE_TXTR2,
                    ],
                    m.geometry@,
                ),
            )) && b@.len() % 32 == 0)
            &&& v@[1].file_id == ids::SHINY_MISSILE_ANCS
            &&& (v@[1].kind matches ResourceKind::External(b)
                && (resources.spec_entry(
                ResKey { id: srcs.shiny_source_ancs, fourcc: ids::FOURCC_ANCS },
            ).kind matches ResourceKind::AnimSet(a) ==> b@ == crate::synth::spec_pad32(
                crate::synth::spec_animset_bytes(
                    crate::synth::AnimSetRefs {
                        cmdl: ids::SHINY_MISSILE_CMDL,
                        parts: seq![srcs.health_part],
                        evnt: ids::SHINY_MISSILE_EVNT,
                        anim: ids::SHINY_MISSILE_ANIM,
                    },
                    a.body@,
                ),
            )) && b@.len() % 32 == 0)
            &&& v@[2].file_id == ids::SHINY_MISSILE_EVNT
            &&& (v@[2].kind matches ResourceKind::External(b)
                && (resources.spec_entry(
                ResKey { id: srcs.shiny_source_evnt, fourcc: ids::FOURCC_EVNT },
            ).kind matches ResourceKind::Evnt(e) ==> b@ == crate::synth::spec_pad32(
                crate::synth::spec_evnt_bytes(
                    e.effect_events@.update(0, srcs.health_part).update(1, srcs.health_part),
                ),
            )) && b@.len() % 32 == 0)
            &&& v@[3].file_id == ids::SHINY_MISSILE_ANIM
            &&& (v@[3].kind matches ResourceKind::External(b)
                && (resources.spec_entry(
                ResKey { id: srcs.shiny_source_anim, fourcc: ids::FOURCC_ANIM },
            ).kind matches ResourceKind::Raw(raw) ==> b@ == crate::synth::spec_pad32(
                raw@.subrange(0, 8) + crate::synth::u32_be(ids::SHINY_MISSILE_EVNT)
                    + raw@.subrange(12, raw@.len() as int),
            )) && b@.len() % 32 == 0)
        },
{
    let mut out: Vec<Resource> = Vec::new();

    let cmdl_src = match resources.get(
        &ResKey { id: srcs.shiny_source_cmdl, fourcc: FOURCC_CMDL },
    ) {
        Some(res) => res,
        None => {
            return Err(String::from_str("missile source model is missing from the pool"));
        },
    };
    if !source_small_enough(cmdl_src) {
        return Err(String::from_str("missile source model is too large"));
    }
    let mut txtrs: Vec<u32> = Vec::new();
    txtrs.push(ids::SHINY_MISSILE_TXTR0);
    txtrs.push(ids::SHINY_MISSILE_TXTR1);
    txtrs.push(ids::SHINY_MISSILE_TXTR2);
    let ghost g_txtrs = txtrs;
    let mut cmdl_edits: Vec<FieldEdit> = Vec::new();
    cmdl_edits.push(FieldEdit::AllTextureIds { ids: txtrs });
    proof {
        assert(g_txtrs@ =~= seq![
            ids::SHINY_MISSILE_TXTR0,
            ids::SHINY_MISSILE_TXTR1,
            ids::SHINY_MISSILE_TXTR2,
        ]);
        lemma_all_textures_edit(cmdl_src.kind, cmdl_edits@, g_txtrs);
    }
    match clone_and_remap(cmdl_src, &cmdl_edits, ids::SHINY_MISSILE_CMDL) {
        Ok(res) => {
            out.push(res);
        },
        Err(e) => {
            return Err(e);
        },
    }

    let ancs_src = match resources.get(
        &ResKey { id: srcs.shiny_source_ancs, fourcc: ids::FOURCC_ANCS },
    ) {
        Some(res) => res,
        None => {
            return Err(
                String::from_str("missile source animation set is missing from the pool"),
            );
        },
    };
    if !source_small_enough(ancs_src) {
        return Err(String::from_str("missile source animation set is too large"));
    }
    let mut parts: Vec<u32> = Vec::new();
    parts.push(srcs.health_part);
    let ghost g_parts = parts;
    let mut ancs_edits: Vec<FieldEdit> = Vec::new();
    ancs_edits.push(FieldEdit::ModelRef { id: ids::SHINY_MISSILE_CMDL });
    ancs_edits.push(FieldEdit::Particles { ids: parts });
    ancs_edits.push(FieldEdit::EventTable { id: ids::SHINY_MISSILE_EVNT });
    ancs_edits.push(FieldEdit::Animation { id: ids::SHINY_MISSILE_ANIM });
    proof {
        assert(g_parts@ =~= seq![srcs.health_part]);
        lemma_animset_rebind(
            ancs_src.kind,
            ancs_edits@,
            ids::SHINY_MISSILE_CMDL,
            g_parts,
            ids::SHINY_MISSILE_EVNT,
            ids::SHINY_MISSILE_ANIM,
        );
    }
    match clone_and_remap(ancs_src, &ancs_edits, ids::SHINY_MISSILE_ANCS) {
        Ok(res) => {
            out.push(res);
        },
        Err(e) => {
            return Err(e);
        },
    }

    let evnt_src = match resources.get(
        &ResKey { id: srcs.shiny_source_evnt, fourcc: ids::FOURCC_EVNT },
    ) {
        Some(res) => res,
        None => {
            return Err(String::from_str("missile source event table is missing from the pool"));
        },
    };
    if !source_small_enough(evnt_src) {
        return Err(String::from_str("missile source event table is too large"));
    }
    let mut evnt_edits: Vec<FieldEdit> = Vec::new();
    evnt_edits.push(FieldEdit::EffectEvent { index: 0, id: srcs.health_part });
    evnt_edits.push(FieldEdit::EffectEvent { index: 1, id: srcs.health_part });
    proof {
        lemma_two_event_edits(evnt_src.kind, evnt_edits@, srcs.health_part);
    }
    match clone_and_remap(evnt_src, &evnt_edits, ids::SHINY_MISSILE_EVNT) {
        Ok(res) => {
            out.push(res);
        },
        Err(e) => {
            return Err(e);
        },
    }

    let anim_src = match resources.get(
        &ResKey { id: srcs.shiny_source_anim, fourcc: ids::FOURCC_ANIM },
    ) {
        Some(res) => res,
        None => {
            return Err(String::from_str("missile source animation is missing from the pool"));
        },
    };
    if !source_small_enough(anim_src) {
        return Err(String::from_str("missile source animation is too large"));
    }
    let mut anim_edits: Vec<FieldEdit> = Vec::new();
    anim_edits.push(FieldEdit::WriteU32At { offset: 8, value: ids::SHINY_MISSILE_EVNT });
    proof {
        lemma_raw_word_splice(anim_src.kind, anim_edits@, 8, ids::SHINY_MISSILE_EVNT);
    }
    match clone_and_remap(anim_src, &anim_edits, ids::SHINY_MISSILE_ANIM) {
        Ok(res) => {
            out.push(res);
        },
        Err(e) => {
            return Err(e);
        },
    }
    Ok(out)
}

/// Take a synthesized or hand-authored resource into the pool if some
/// variant still waits for its key.
fn absorb(
    pool: &mut DependencyPool,
    looking_for: &mut Vec<ResKey>,
    res: Resource,
) -> (r: Result<(), String>)
    requires
        old(pool).wf(),
    ensures
        final(pool).wf(),
        r is Ok ==> forall|k: ResKey|
            old(pool).spec_contains(k) ==> final(pool).spec_contains(k),
{
    let key = res.key();
    if remove_key(looking_for, key) {
        let ghost pre = pool.resources@;
        match pool.insert(res) {
            Ok(()) => {
                proof {
                    assert forall|k: ResKey| old(pool).spec_contains(k)
                        implies pool.spec_contains(k) by {
                        let i = choose|i: int|
                            0 <= i < pre.len() && pre[i].spec_key() == k;
                        assert(pool.resources@[i] == pre[i]);
                    }
                }
                Ok(())
            },
            Err(e) => Err(e),
        }
    } else {
        Ok(())
    }
}

/// Scan every container of the disc exactly once; any resource whose key a
/// variant still waits for moves into the pool. Containers are read, never
/// mutated.
fn scan_containers(
    pool: &mut DependencyPool,
    looking_for: &mut Vec<ResKey>,
    gc_disc: &GcDisc,
) -> (r: Result<(), String>)
    requires
        old(pool).wf(),
    ensures
        final(pool).wf(),
{
    let mut f: usize = 0;
    while f < gc_disc.files.len()
        invariant
            pool.wf(),
            f <= gc_disc.files@.len(),
        decreases gc_disc.files@.len() - f,
    {
        match &gc_disc.files[f].file {
            FstEntryFile::Pak(pak) => {
                let mut ri: usize = 0;
                while ri < pak.resources.len()
                    invariant
                        pool.wf(),
                        ri <= pak.resources@.len(),
                    decreases pak.resources@.len() - ri,
                {
                    let res = &pak.resources[ri];
                    let key = res.key();
                    if remove_key(looking_for, key) {
                        let copy = match clone_resource(res) {
                            Ok(c) => c,
                            Err(e) => {
                                return Err(e);
                            },
                        };
                        match pool.insert(copy) {
                            Ok(()) => {},
                            Err(e) => {
                                return Err(e);
                            },
                        }
                    }
                    ri += 1;
                }
            },
            _ => {},
        }
        f += 1;
    }
    Ok(())
}

/// Build the pickup Dependency Pool, or fail fast: every dependency any
/// pickup variant declares (and every variant's popup string table) must
/// resolve from hand-authored assets, a container scan, or synthesis.
pub fn collect_pickup_resources(
    gc_disc: &GcDisc,
    table: &PickupTable,
    extra_assets: &Vec<Resource>,
    srcs: &CacheSources,
) -> (r: Result<DependencyPool, String>)
    requires
        table.complete(),
    ensures
        r matches Ok(pool) ==> {
            &&& pool.wf()
            &&& (forall|t: int, d: int|
                0 <= t < table.entries@.len() && 0 <= d
                    < table.entries@[t].dependencies@.len() ==> pool.spec_contains(
                    #[trigger] table.entries@[t].dependencies@[d],
                ))
            &&& (forall|t: int|
                0 <= t < table.entries@.len() ==> pool.spec_contains(
                    ResKey {
                        id: (#[trigger] table.entries@[t]).hudmemo_strg,
                        fourcc: FOURCC_STRG,
                    },
                ))
        },
{
    let mut looking_for: Vec<ResKey> = Vec::new();
    let all = PickupType::iter();
    let mut i: usize = 0;
    while i < all.len()
        invariant
            table.complete(),
            i <= all@.len(),
        decreases all@.len() - i,
    {
        let entry = table.get(all[i]);
        let mut d: usize = 0;
        while d < entry.dependencies.len()
            invariant
                d <= entry.dependencies@.len(),
            decreases entry.dependencies@.len() - d,
        {
            push_unique(&mut looking_for, entry.dependencies[d]);
            d += 1;
        }
        push_unique(
            &mut looking_for,
            ResKey { id: entry.hudmemo_strg, fourcc: FOURCC_STRG },
        );
        i += 1;
    }

    let mut pool = DependencyPool::new();
    let mut e: usize = 0;
    while e < extra_assets.len()
        invariant
            pool.wf(),
            e <= extra_assets@.len(),
        decreases extra_assets@.len() - e,
    {
        let copy = match clone_resource(&extra_assets[e]) {
            Ok(c) => c,
            Err(err) => {
                return Err(err);
            },
        };
        match absorb(&mut pool, &mut looking_for, copy) {
            Ok(()) => {},
            Err(err) => {
                return Err(err);
            },
        }
        e += 1;
    }

    match scan_containers(&mut pool, &mut looking_for, gc_disc) {
        Ok(()) => {},
        Err(err) => {
            return Err(err);
        },
    }

    match create_suit_icon_cmdl_and_ancs(
        &pool,
        srcs,
        ids::NOTHING_CMDL,
        ids::NOTHING_ANCS,
        ids::NOTHING_TXTR,
        ids::PHAZON_SUIT_TXTR2,
    ) {
        Ok((cmdl, ancs)) => {
            match absorb(&mut pool, &mut looking_for, cmdl) {
                Ok(()) => {},
                Err(err) => {
                    return Err(err);
                },
            }
            match absorb(&mut pool, &mut looking_for, ancs) {
                Ok(()) => {},
                Err(err) => {
                    return Err(err);
                },
            }
        },
        Err(err) => {
            return Err(err);
        },
    }
    match create_suit_icon_cmdl_and_ancs(
        &pool,
        srcs,
        ids::PHAZON_SUIT_CMDL,
        ids::PHAZON_SUIT_ANCS,
        ids::PHAZON_SUIT_TXTR1,
        ids::PHAZON_SUIT_TXTR2,
    ) {
        Ok((cmdl, ancs)) => {
            match absorb(&mut pool, &mut looking_for, cmdl) {
                Ok(()) => {},
                Err(err) => {
                    return Err(err);
                },
            }
            match absorb(&mut pool, &mut looking_for, ancs) {
                Ok(()) => {},
                Err(err) => {
                    return Err(err);
                },
            }
        },
        Err(err) => {
            return Err(err);
        },
    }

    let (scan1, strg1) = create_item_scan_strg_pair(
        ids::PHAZON_SUIT_SCAN,
        ids::PHAZON_SUIT_STRG,
        "Phazon Suit\0",
    );
    match absorb(&mut pool, &mut looking_for, scan1) {
        Ok(()) => {},
        Err(err) => {
            return Err(err);
        },
    }
    match absorb(&mut pool, &mut looking_for, strg1) {
        Ok(()) => {},
        Err(err) => {
            return Err(err);
        },
    }
    let (scan2, strg2) = create_item_scan_strg_pair(
        ids::NOTHING_SCAN,
        ids::NOTHING_SCAN_STRG,
        "???\0",
    );
    match absorb(&mut pool, &mut looking_for, scan2) {
        Ok(()) => {},
        Err(err) => {
            return Err(err);
        },
    }
    match absorb(&mut pool, &mut looking_for, strg2) {
        Ok(()) => {},
        Err(err) => {
            return Err(err);
        },
    }
    let (scan3, strg3) = create_item_scan_strg_pair(
        ids::THERMAL_VISOR_SCAN,
        ids::THERMAL_VISOR_STRG,
        "Thermal Visor\0",
    );
    match absorb(&mut pool, &mut looking_for, scan3) {
        Ok(()) => {},
        Err(err) => {
            return Err(err);
        },
    }
    match absorb(&mut pool, &mut looking_for, strg3) {
        Ok(()) => {},
        Err(err) => {
            return Err(err);
        },
    }
    let (scan4, strg4) = create_item_scan_strg_pair(
        ids::SCAN_VISOR_SCAN,
        ids::SCAN_VISOR_SCAN_STRG,
        "Scan Visor\0",
    );
    match absorb(&mut pool, &mut looking_for, scan4) {
        Ok(()) => {},
        Err(err) => {
            return Err(err);
        },
    }
    match absorb(&mut pool, &mut looking_for, strg4) {
        Ok(()) => {},
        Err(err) => {
            return Err(err);
        },
    }
    let (scan5, strg5) = create_item_scan_strg_pair(
        ids::SHINY_MISSILE_SCAN,
        ids::SHINY_MISSILE_SCAN_STRG,
        "Shiny Missile\0",
    );
    match absorb(&mut pool, &mut looking_for, scan5) {
        Ok(()) => {},
        Err(err) => {
            return Err(err);
        },
    }
    match absorb(&mut pool, &mut looking_for, strg5) {
        Ok(()) => {},
        Err(err) => {
            return Err(err);
        },
    }

    let nothing_memo = single_line_strg(
        ids::NOTHING_ACQUIRED_HUDMEMO_STRG,
        "&just=center;Nothing acquired!\0",
    );
    match absorb(&mut pool, &mut looking_for, nothing_memo) {
        Ok(()) => {},
        Err(err) => {
            return Err(err);
        },
    }
    let scan_visor_memo = single_line_strg(
        ids::SCAN_VISOR_ACQUIRED_HUDMEMO_STRG,
        "&just=center;Scan Visor acquired!\0",
    );
    match absorb(&mut pool, &mut looking_for, scan_visor_memo) {
        Ok(()) => {},
        Err(err) => {
            return Err(err);
        },
    }
    let shiny_memo = single_line_strg(
        ids::SHINY_MISSILE_ACQUIRED_HUDMEMO_STRG,
        "&just=center;Shiny Missile acquired!\0",
    );
    match absorb(&mut pool, &mut looking_for, shiny_memo) {
        Ok(()) => {},
        Err(err) => {
            return Err(err);
        },
    }

    match create_shiny_missile_assets(&pool, srcs) {
        Ok(mut assets) => {
            while assets.len() > 0
                invariant
                    pool.wf(),
                decreases assets@.len(),
            {
                let res = assets.remove(0);
                match absorb(&mut pool, &mut looking_for, res) {
                    Ok(()) => {},
                    Err(err) => {
                        return Err(err);
                    },
                }
            }
        },
        Err(err) => {
            return Err(err);
        },
    }

    if looking_for.len() != 0 {
        return Err(String::from_str("unresolved pickup dependencies remain"));
    }

    let mut t: usize = 0;
    while t < PICKUP_TYPE_COUNT
        invariant
            table.complete(),
            pool.wf(),
            t <= PICKUP_TYPE_COUNT,
            forall|t2: int, d: int|
                0 <= t2 < t && 0 <= d < table.entries@[t2].dependencies@.len()
                    ==> pool.spec_contains(#[trigger] table.entries@[t2].dependencies@[d]),
            forall|t2: int|
                0 <= t2 < t ==> pool.spec_contains(
                    ResKey {
                        id: (#[trigger] table.entries@[t2]).hudmemo_strg,
                        fourcc: FOURCC_STRG,
                    },
                ),
        decreases PICKUP_TYPE_COUNT - t,
    {
        let entry = &table.entries[t];
        let mut d: usize = 0;
        while d < entry.dependencies.len()
            invariant
                pool.wf(),
                d <= entry.dependencies@.len(),
                forall|d2: int|
                    0 <= d2 < d ==> pool.spec_contains(#[trigger] entry.dependencies@[d2]),
            decreases entry.dependencies@.len() - d,
        {
            if !pool.contains_key(&entry.dependencies[d]) {
                return Err(String::from_str("a pickup dependency did not resolve"));
            }
            d += 1;
        }
        if !pool.contains_key(&ResKey { id: entry.hudmemo_strg, fourcc: FOURCC_STRG }) {
            return Err(String::from_str("a pickup popup string table did not resolve"));
        }
        t += 1;
    }
    Ok(pool)
}

/// A one-language, one-string table resource.
fn single_line_strg(id: u32, line: &str) -> (r: Resource)
    ensures
        r.file_id == id,
        r.fourcc == FOURCC_STRG,
        r.kind is Strg,
{
    let mut strings: Vec<String> = Vec::new();
    strings.push(String::from_str(line));
    let mut tables: Vec<StrgTable> = Vec::new();
    tables.push(StrgTable { lang: ids::FOURCC_STRG_LANG_ENGL, strings });
    build_resource(id, FOURCC_STRG, ResourceKind::Strg(StrgData { tables }))
}

/// The hand-authored assets bundled with the tool for the pickup pool: the
/// two suit-icon textures and the placeholder item's texture, as raw image
/// bytes.
pub fn extra_assets(
    phazon_suit_txtr1: Vec<u8>,
    phazon_suit_txtr2: Vec<u8>,
    nothing_txtr: Vec<u8>,
) -> (r: Vec<Resource>)
    ensures
        r@.len() == 3,
        r@[0].file_id == ids::PHAZON_SUIT_TXTR1,
        r@[1].file_id == ids::PHAZON_SUIT_TXTR2,
        r@[2].file_id == ids::NOTHING_TXTR,
        forall|i: int| 0 <= i < 3 ==> (#[trigger] r@[i]).fourcc == ids::FOURCC_TXTR,
{
    let mut out: Vec<Resource> = Vec::new();
    out.push(build_resource(
        ids::PHAZON_SUIT_TXTR1,
        ids::FOURCC_TXTR,
        ResourceKind::Raw(phazon_suit_txtr1),
    ));
    out.push(build_resource(
        ids::PHAZON_SUIT_TXTR2,
        ids::FOURCC_TXTR,
        ResourceKind::Raw(phazon_suit_txtr2),
    ));
    out.push(build_resource(
        ids::NOTHING_TXTR,
        ids::FOURCC_TXTR,
        ResourceKind::Raw(nothing_txtr),
    ));
    out
}

/// Build the door Dependency Pool, or fail fast: every dependency any door
/// variant declares must resolve from hand-authored assets, a container
/// scan, or frame-model synthesis.
pub fn collect_door_resources(gc_disc: &GcDisc, extra_assets: &Vec<Resource>) -> (r: Result<
    DependencyPool,
    String,
>)
    ensures
        r matches Ok(pool) ==> {
            &&& pool.wf()
            &&& (forall|v: int, d: int|
                0 <= v < DoorType::spec_all().len() && 0 <= d < DoorType::spec_all()[v]
                    .spec_dependencies().len() ==> pool.spec_contains(
                    #[trigger] DoorType::spec_all()[v].spec_dependencies()[d],
                ))
        },
{
    let mut looking_for: Vec<ResKey> = Vec::new();
    let all = DoorType::iter();
    let mut i: usize = 0;
    while i < all.len()
        invariant
            i <= all@.len(),
        decreases all@.len() - i,
    {
        let deps = all[i].dependencies();
        let mut d: usize = 0;
        while d < deps.len()
            invariant
                d <= deps@.len(),
            decreases deps@.len() - d,
        {
            push_unique(&mut looking_for, deps[d]);
            d += 1;
        }
        i += 1;
    }

    let mut pool = DependencyPool::new();
    let mut e: usize = 0;
    while e < extra_assets.len()
        invariant
            pool.wf(),
            e <= extra_assets@.len(),
        decreases extra_assets@.len() - e,
    {
        let copy = match clone_resource(&extra_assets[e]) {
            Ok(c) => c,
            Err(err) => {
                return Err(err);
            },
        };
        match absorb(&mut pool, &mut looking_for, copy) {
            Ok(()) => {},
            Err(err) => {
                return Err(err);
            },
        }
        e += 1;
    }

    match scan_containers(&mut pool, &mut looking_for, gc_disc) {
        Ok(()) => {},
        Err(err) => {
            return Err(err);
        },
    }

    let all2 = DoorType::iter();
    let mut i: usize = 0;
    while i < all2.len()
        invariant
            pool.wf(),
            i <= all2@.len(),
        decreases all2@.len() - i,
    {
        let dt = all2[i];
        if is_custom_asset(dt.shield_cmdl()) {
            match create_custom_door_cmdl(&pool, dt) {
                Ok(res) => {
                    match absorb(&mut pool, &mut looking_for, res) {
                        Ok(()) => {},
                        Err(err) => {
                            return Err(err);
                        },
                    }
                },
                Err(err) => {
                    return Err(err);
                },
            }
        }
        i += 1;
    }

    if looking_for.len() != 0 {
        return Err(String::from_str("unresolved door dependencies remain"));
    }

    let all3 = DoorType::iter();
    let mut v: usize = 0;
    while v < all3.len()
        invariant
            pool.wf(),
            v <= all3@.len(),
            all3@ == DoorType::spec_all(),
            forall|v2: int, d: int|
                0 <= v2 < v && 0 <= d < DoorType::spec_all()[v2].spec_dependencies().len()
                    ==> pool.spec_contains(
                    #[trigger] DoorType::spec_all()[v2].spec_dependencies()[d],
                ),
        decreases all3@.len() - v,
    {
        let deps = all3[v].dependencies();
        let mut d: usize = 0;
        while d < deps.len()
            invariant
                pool.wf(),
                d <= deps@.len(),
                deps@ == DoorType::spec_all()[v as int].spec_dependencies(),
                v < all3@.len(),
                all3@ == DoorType::spec_all(),
                forall|d2: int| 0 <= d2 < d ==> pool.spec_contains(#[trigger] deps@[d2]),
            decreases deps@.len() - d,
        {
            if !pool.contains_key(&deps[d]) {
                return Err(String::from_str("a door dependency did not resolve"));
            }
            d += 1;
        }
        v += 1;
    }
    Ok(pool)
}

} // verus!
