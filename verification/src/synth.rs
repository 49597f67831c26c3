//! The synthetic asset generator: produce a new binary resource by deep-
//! copying an existing parsed resource, applying an ordered list of
//! field-level substitutions, re-serializing to bytes, and padding the
//! length up to the next 32-byte boundary — the fixed alignment the
//! container format demands.

use vstd::prelude::*;

use crate::pool::{Resource, ResourceKind, build_resource};

verus! {

/// The four big-endian bytes of `v`.
pub open spec fn u32_be(v: u32) -> Seq<u8> {
    seq![
        (v >> 24) as u8,
        ((v >> 16) & 0xFF) as u8,
        ((v >> 8) & 0xFF) as u8,
        (v & 0xFF) as u8,
    ]
}

/// Each word of `s`, big-endian, in order.
pub open spec fn u32s_be(s: Seq<u32>) -> Seq<u8>
    decreases s.len(),
{
    if s.len() == 0 {
        Seq::empty()
    } else {
        u32_be(s[0]) + u32s_be(s.drop_first())
    }
}

/// How many zero bytes take `len` up to the next 32-byte boundary.
pub open spec fn pad_len(len: int) -> int {
    if len % 32 == 0 {
        0
    } else {
        32 - len % 32
    }
}

/// `b` followed by the zero bytes that align its length to 32.
pub open spec fn spec_pad32(b: Seq<u8>) -> Seq<u8> {
    b + Seq::new(pad_len(b.len() as int) as nat, |i: int| 0u8)
}

/// Append the big-endian bytes of `v`.
pub fn push_u32_be(out: &mut Vec<u8>, v: u32)
    requires
        old(out)@.len() + 4 <= usize::MAX,
    ensures
        final(out)@ == old(out)@ + u32_be(v),
{
    out.push((v >> 24) as u8);
    out.push(((v >> 16) & 0xFF) as u8);
    out.push(((v >> 8) & 0xFF) as u8);
    out.push((v & 0xFF) as u8);
    proof {
        assert(final(out)@ =~= old(out)@ + u32_be(v));
    }
}

/// Append each word of `s`, big-endian.
pub fn push_u32s_be(out: &mut Vec<u8>, s: &Vec<u32>)
    requires
        old(out)@.len() + 4 * s@.len() <= usize::MAX,
    ensures
        final(out)@ == old(out)@ + u32s_be(s@),
{
    let ghost base = out@;
    let mut i: usize = 0;
    while i < s.len()
        invariant
            i <= s@.len(),
            base.len() + 4 * s@.len() <= usize::MAX,
            out@.len() == base.len() + 4 * i,
            out@ == base + u32s_be(s@.subrange(0, i as int)),
        decreases s@.len() - i,
    {
        proof {
            reveal_with_fuel(u32s_be, 3);
            assert(seq![s@[i as int]].drop_first() =~= Seq::<u32>::empty());
            assert(u32s_be(seq![s@[i as int]]) =~= u32_be(s@[i as int]));
            assert(s@.subrange(0, i as int + 1) =~= s@.subrange(0, i as int) + seq![
                s@[i as int],
            ]);
            lemma_u32s_be_append(s@.subrange(0, i as int), seq![s@[i as int]]);
            lemma_u32s_be_len(s@.subrange(0, i as int));
        }
        push_u32_be(out, s[i]);
        proof {
            assert(out@ =~= base + u32s_be(s@.subrange(0, i as int + 1)));
        }
        i += 1;
    }
    proof {
        assert(s@.subrange(0, s@.len() as int) =~= s@);
    }
}

/// Serialization distributes over concatenation.
proof fn lemma_u32s_be_append(a: Seq<u32>, b: Seq<u32>)
    ensures
        u32s_be(a + b) == u32s_be(a) + u32s_be(b),
    decreases a.len(),
{
    if a.len() == 0 {
        assert(a + b =~= b);
        assert(u32s_be(a) =~= Seq::<u8>::empty());
        assert(u32s_be(a) + u32s_be(b) =~= u32s_be(b));
    } else {
        lemma_u32s_be_append(a.drop_first(), b);
        assert((a + b).drop_first() =~= a.drop_first() + b);
        assert((a + b)[0] == a[0]);
        assert(u32_be(a[0]) + (u32s_be(a.drop_first()) + u32s_be(b)) =~= (u32_be(a[0]) + u32s_be(
            a.drop_first(),
        )) + u32s_be(b));
    }
}

/// Four bytes per word.
proof fn lemma_u32s_be_len(s: Seq<u32>)
    ensures
        u32s_be(s).len() == 4 * s.len(),
    decreases s.len(),
{
    if s.len() > 0 {
        lemma_u32s_be_len(s.drop_first());
    }
}

/// Pad `bytes` with zeros up to the next 32-byte boundary.
pub fn pad_to_32(bytes: &mut Vec<u8>)
    requires
        old(bytes)@.len() + 31 <= usize::MAX,
    ensures
        final(bytes)@ == spec_pad32(old(bytes)@),
        final(bytes)@.len() % 32 == 0,
{
    let rem = bytes.len() % 32;
    if rem != 0 {
        let need = 32 - rem;
        let mut k: usize = 0;
        while k < need
            invariant
                k <= need,
                need == pad_len(old(bytes)@.len() as int),
                bytes@ == old(bytes)@ + Seq::new(k as nat, |i: int| 0u8),
                bytes@.len() == old(bytes)@.len() + k,
                old(bytes)@.len() + 31 <= usize::MAX,
            decreases need - k,
        {
            bytes.push(0u8);
            proof {
                assert(bytes@ =~= old(bytes)@ + Seq::new((k + 1) as nat, |i: int| 0u8));
            }
            k += 1;
        }
    }
    proof {
        assert(final(bytes)@ =~= spec_pad32(old(bytes)@));
    }
}

/// One field-level substitution of `clone_and_remap`.
#[derive(Clone, Debug)]
pub enum FieldEdit {
    /// Repoint one texture reference of a model.
    TextureId { index: usize, id: u32 },
    /// Replace a model's whole texture list.
    AllTextureIds { ids: Vec<u32> },
    /// Rebind the model an animation set drives.
    ModelRef { id: u32 },
    /// Replace the particle effects an animation set spawns.
    Particles { ids: Vec<u32> },
    /// Rebind an animation set's event table.
    EventTable { id: u32 },
    /// Rebind an animation set's animation.
    Animation { id: u32 },
    /// Repoint the effect one event of an event table spawns.
    EffectEvent { index: usize, id: u32 },
    /// Overwrite four raw bytes with a big-endian word.
    WriteU32At { offset: usize, value: u32 },
}

/// Apply one edit to a model's texture list.
pub open spec fn spec_edit_textures(ids: Seq<u32>, e: FieldEdit) -> Option<Seq<u32>> {
    match e {
        FieldEdit::TextureId { index, id } => if index < ids.len() {
            Some(ids.update(index as int, id))
        } else {
            None
        },
        FieldEdit::AllTextureIds { ids: new_ids } => Some(new_ids@),
        _ => None,
    }
}

/// Apply `edits` to a model's texture list, left to right.
pub open spec fn spec_edit_textures_all(ids: Seq<u32>, edits: Seq<FieldEdit>) -> Option<Seq<u32>>
    decreases edits.len(),
{
    if edits.len() == 0 {
        Some(ids)
    } else {
        match spec_edit_textures(ids, edits[0]) {
            Some(ids2) => spec_edit_textures_all(ids2, edits.drop_first()),
            None => None,
        }
    }
}

/// The four remappable references of an animation set.
pub struct AnimSetRefs {
    pub cmdl: u32,
    pub parts: Seq<u32>,
    pub evnt: u32,
    pub anim: u32,
}

/// Apply one edit to an animation set's references.
pub open spec fn spec_edit_animset(a: AnimSetRefs, e: FieldEdit) -> Option<AnimSetRefs> {
    match e {
        FieldEdit::ModelRef { id } => Some(AnimSetRefs { cmdl: id, ..a }),
        FieldEdit::Particles { ids } => Some(AnimSetRefs { parts: ids@, ..a }),
        FieldEdit::EventTable { id } => Some(AnimSetRefs { evnt: id, ..a }),
        FieldEdit::Animation { id } => Some(AnimSetRefs { anim: id, ..a }),
        _ => None,
    }
}

/// Apply `edits` to an animation set's references, left to right.
pub open spec fn spec_edit_animset_all(a: AnimSetRefs, edits: Seq<FieldEdit>) -> Option<AnimSetRefs>
    decreases edits.len(),
{
    if edits.len() == 0 {
        Some(a)
    } else {
        match spec_edit_animset(a, edits[0]) {
            Some(a2) => spec_edit_animset_all(a2, edits.drop_first()),
            None => None,
        }
    }
}

/// Apply one edit to an event table's effect list.
pub open spec fn spec_edit_evnt(events: Seq<u32>, e: FieldEdit) -> Option<Seq<u32>> {
    match e {
        FieldEdit::EffectEvent { index, id } => if index < events.len() {
            Some(events.update(index as int, id))
        } else {
            None
        },
        _ => None,
    }
}

/// Apply `edits` to an event table, left to right.
pub open spec fn spec_edit_evnt_all(events: Seq<u32>, edits: Seq<FieldEdit>) -> Option<Seq<u32>>
    decreases edits.len(),
{
    if edits.len() == 0 {
        Some(events)
    } else {
        match spec_edit_evnt(events, edits[0]) {
            Some(ev2) => spec_edit_evnt_all(ev2, edits.drop_first()),
            None => None,
        }
    }
}

/// Apply one edit to raw bytes.
pub open spec fn spec_edit_raw(b: Seq<u8>, e: FieldEdit) -> Option<Seq<u8>> {
    match e {
        FieldEdit::WriteU32At { offset, value } => if offset + 4 <= b.len() {
            Some(
                b.subrange(0, offset as int) + u32_be(value) + b.subrange(
                    offset + 4,
                    b.len() as int,
                ),
            )
        } else {
            None
        },
        _ => None,
    }
}

/// Apply `edits` to raw bytes, left to right.
pub open spec fn spec_edit_raw_all(b: Seq<u8>, edits: Seq<FieldEdit>) -> Option<Seq<u8>>
    decreases edits.len(),
{
    if edits.len() == 0 {
        Some(b)
    } else {
        match spec_edit_raw(b, edits[0]) {
            Some(b2) => spec_edit_raw_all(b2, edits.drop_first()),
            None => None,
        }
    }
}

/// The serialized form of a model: texture count, texture ids, geometry.
pub open spec fn spec_model_bytes(ids: Seq<u32>, geometry: Seq<u8>) -> Seq<u8> {
    u32_be(ids.len() as u32) + u32s_be(ids) + geometry
}

/// The serialized form of an animation set.
pub open spec fn spec_animset_bytes(a: AnimSetRefs, body: Seq<u8>) -> Seq<u8> {
    u32_be(a.cmdl) + u32_be(a.parts.len() as u32) + u32s_be(a.parts) + u32_be(a.evnt) + u32_be(
        a.anim,
    ) + body
}

/// The serialized form of an event table.
pub open spec fn spec_evnt_bytes(events: Seq<u32>) -> Seq<u8> {
    u32_be(events.len() as u32) + u32s_be(events)
}

/// What `clone_and_remap` produces for a source payload and an edit list:
/// the padded serialized bytes, or nothing where the payload is not of a
/// kind the edits apply to.
pub open spec fn spec_clone_and_remap(kind: ResourceKind, edits: Seq<FieldEdit>) -> Option<
    Seq<u8>,
> {
    match kind {
        ResourceKind::Model(m) => match spec_edit_textures_all(m.texture_ids@, edits) {
            Some(ids) => Some(spec_pad32(spec_model_bytes(ids, m.geometry@))),
            None => None,
        },
        ResourceKind::AnimSet(a) => {
            let refs = AnimSetRefs {
                cmdl: a.cmdl,
                parts: a.part_assets@,
                evnt: a.evnt,
                anim: a.anim,
            };
            match spec_edit_animset_all(refs, edits) {
                Some(r) => Some(spec_pad32(spec_animset_bytes(r, a.body@))),
                None => None,
            }
        },
        ResourceKind::Evnt(e) => match spec_edit_evnt_all(e.effect_events@, edits) {
            Some(ev) => Some(spec_pad32(spec_evnt_bytes(ev))),
            None => None,
        },
        ResourceKind::Raw(b) => match spec_edit_raw_all(b@, edits) {
            Some(b2) => Some(spec_pad32(b2)),
            None => None,
        },
        _ => None,
    }
}

/// Machine bound under which serialization arithmetic cannot overflow.
pub open spec fn spec_source_small(kind: ResourceKind) -> bool {
    match kind {
        ResourceKind::Model(m) => m.texture_ids@.len() < 0x1000000 && m.geometry@.len()
            < 0x10000000,
        ResourceKind::AnimSet(a) => a.part_assets@.len() < 0x1000000 && a.body@.len() < 0x10000000,
        ResourceKind::Evnt(e) => e.effect_events@.len() < 0x1000000,
        ResourceKind::Raw(b) => b@.len() < 0x10000000,
        _ => true,
    }
}

/// Append every byte of `src`.
fn push_bytes(out: &mut Vec<u8>, src: &Vec<u8>)
    requires
        old(out)@.len() + src@.len() <= usize::MAX,
    ensures
        final(out)@ == old(out)@ + src@,
{
    let ghost base = out@;
    let mut i: usize = 0;
    while i < src.len()
        invariant
            i <= src@.len(),
            base.len() + src@.len() <= usize::MAX,
            out@ == base + src@.subrange(0, i as int),
            out@.len() == base.len() + i,
        decreases src@.len() - i,
    {
        out.push(src[i]);
        proof {
            assert(out@ =~= base + src@.subrange(0, i as int + 1));
        }
        i += 1;
    }
    proof {
        assert(src@.subrange(0, src@.len() as int) =~= src@);
    }
}

/// A list replacement carried by an edit stays under the serialization
/// bound.
pub open spec fn spec_edit_small(e: FieldEdit) -> bool {
    match e {
        FieldEdit::AllTextureIds { ids } => ids@.len() < 0x1000000,
        FieldEdit::Particles { ids } => ids@.len() < 0x1000000,
        _ => true,
    }
}

pub open spec fn spec_edits_small(edits: Seq<FieldEdit>) -> bool {
    forall|i: int| 0 <= i < edits.len() ==> spec_edit_small(#[trigger] edits[i])
}

/// A fresh copy of a word list.
pub(crate) fn dup_u32s(src: &Vec<u32>) -> (r: Vec<u32>)
    ensures
        r@ == src@,
{
    let mut r: Vec<u32> = Vec::new();
    let mut i: usize = 0;
    while i < src.len()
        invariant
            i <= src@.len(),
            r@ == src@.subrange(0, i as int),
        decreases src@.len() - i,
    {
        r.push(src[i]);
        proof {
            assert(r@ =~= src@.subrange(0, i as int + 1));
        }
        i += 1;
    }
    proof {
        assert(src@.subrange(0, src@.len() as int) =~= src@);
    }
    r
}

/// A fresh copy of a byte list.
pub(crate) fn dup_bytes(src: &Vec<u8>) -> (r: Vec<u8>)
    ensures
        r@ == src@,
{
    let mut r: Vec<u8> = Vec::new();
    let mut i: usize = 0;
    while i < src.len()
        invariant
            i <= src@.len(),
            r@ == src@.subrange(0, i as int),
        decreases src@.len() - i,
    {
        r.push(src[i]);
        proof {
            assert(r@ =~= src@.subrange(0, i as int + 1));
        }
        i += 1;
    }
    proof {
        assert(src@.subrange(0, src@.len() as int) =~= src@);
    }
    r
}

/// Clone a fully-parsed source resource, apply an ordered list of
/// field-level substitutions, re-serialize it, and pad the bytes to a
/// 32-byte boundary. A source whose kind the edits do not apply to is a
/// configuration error, never a silent fallback.
pub fn clone_and_remap(source: &Resource, edits: &Vec<FieldEdit>, new_id: u32) -> (r: Result<
    Resource,
    String,
>)
    requires
        spec_source_small(source.kind),
        spec_edits_small(edits@),
    ensures
        match r {
            Ok(res) => {
                &&& res.file_id == new_id
                &&& res.fourcc == source.fourcc
                &&& !res.compressed
                &&& res.kind matches ResourceKind::External(b)
                    && spec_clone_and_remap(source.kind, edits@) == Some(b@)
                    && b@.len() % 32 == 0
            },
            Err(_) => spec_clone_and_remap(source.kind, edits@) is None,
        },
{
    match &source.kind {
        ResourceKind::Model(m) => {
            let mut ids = dup_u32s(&m.texture_ids);
            proof {
                assert(edits@.subrange(0, edits@.len() as int) =~= edits@);
            }
            let mut i: usize = 0;
            while i < edits.len()
                invariant
                    source.kind is Model,
                    i <= edits@.len(),
                    spec_edits_small(edits@),
                    ids@.len() < 0x1000000,
                    spec_edit_textures_all(
                        ids@,
                        edits@.subrange(i as int, edits@.len() as int),
                    ) == spec_edit_textures_all(source.kind->Model_0.texture_ids@, edits@),
                decreases edits@.len() - i,
            {
                proof {
                    assert(edits@.subrange(i as int, edits@.len() as int)[0] == edits@[i as int]);
                    assert(edits@.subrange(i as int, edits@.len() as int).drop_first()
                        =~= edits@.subrange(i as int + 1, edits@.len() as int));
                }
                match &edits[i] {
                    FieldEdit::TextureId { index, id } => {
                        if *index >= ids.len() {
                            return Err(String::from_str("texture edit out of range"));
                        }
                        ids.set(*index, *id);
                    },
                    FieldEdit::AllTextureIds { ids: new_ids } => {
                        ids = dup_u32s(new_ids);
                    },
                    _ => {
                        return Err(String::from_str("edit does not apply to a model"));
                    },
                }
                i += 1;
            }
            proof {
                assert(edits@.subrange(edits@.len() as int, edits@.len() as int)
                    =~= Seq::<FieldEdit>::empty());
            }
            let mut out: Vec<u8> = Vec::new();
            #[verifier::truncate]
            let count = ids.len() as u32;
            push_u32_be(&mut out, count);
            proof {
                lemma_u32s_be_len(ids@);
            }
            push_u32s_be(&mut out, &ids);
            push_bytes(&mut out, &m.geometry);
            proof {
                assert(out@ =~= spec_model_bytes(ids@, m.geometry@));
            }
            pad_to_32(&mut out);
            Ok(build_resource(new_id, source.fourcc, ResourceKind::External(out)))
        },
        ResourceKind::AnimSet(a) => {
            let mut cmdl = a.cmdl;
            let mut parts = dup_u32s(&a.part_assets);
            let mut evnt = a.evnt;
            let mut anim = a.anim;
            proof {
                assert(edits@.subrange(0, edits@.len() as int) =~= edits@);
            }
            let mut i: usize = 0;
            while i < edits.len()
                invariant
                    source.kind is AnimSet,
                    i <= edits@.len(),
                    spec_edits_small(edits@),
                    parts@.len() < 0x1000000,
                    spec_edit_animset_all(
                        AnimSetRefs { cmdl, parts: parts@, evnt, anim },
                        edits@.subrange(i as int, edits@.len() as int),
                    ) == spec_edit_animset_all(
                        AnimSetRefs {
                            cmdl: source.kind->AnimSet_0.cmdl,
                            parts: source.kind->AnimSet_0.part_assets@,
                            evnt: source.kind->AnimSet_0.evnt,
                            anim: source.kind->AnimSet_0.anim,
                        },
                        edits@,
                    ),
                decreases edits@.len() - i,
            {
                proof {
                    assert(edits@.subrange(i as int, edits@.len() as int)[0] == edits@[i as int]);
                    assert(edits@.subrange(i as int, edits@.len() as int).drop_first()
                        =~= edits@.subrange(i as int + 1, edits@.len() as int));
                }
                match &edits[i] {
                    FieldEdit::ModelRef { id } => {
                        cmdl = *id;
                    },
                    FieldEdit::Particles { ids } => {
                        parts = dup_u32s(ids);
                    },
                    FieldEdit::EventTable { id } => {
                        evnt = *id;
                    },
                    FieldEdit::Animation { id } => {
                        anim = *id;
                    },
                    _ => {
                        return Err(String::from_str("edit does not apply to an animation set"));
                    },
                }
                i += 1;
            }
            proof {
                assert(edits@.subrange(edits@.len() as int, edits@.len() as int)
                    =~= Seq::<FieldEdit>::empty());
            }
            let mut out: Vec<u8> = Vec::new();
            push_u32_be(&mut out, cmdl);
            #[verifier::truncate]
            let count = parts.len() as u32;
            push_u32_be(&mut out, count);
            proof {
                lemma_u32s_be_len(parts@);
            }
            push_u32s_be(&mut out, &parts);
            push_u32_be(&mut out, evnt);
            push_u32_be(&mut out, anim);
            push_bytes(&mut out, &a.body);
            proof {
                assert(out@ =~= spec_animset_bytes(
                    AnimSetRefs { cmdl, parts: parts@, evnt, anim },
                    a.body@,
                ));
            }
            pad_to_32(&mut out);
            Ok(build_resource(new_id, source.fourcc, ResourceKind::External(out)))
        },
        ResourceKind::Evnt(e) => {
            let mut events = dup_u32s(&e.effect_events);
            proof {
                assert(edits@.subrange(0, edits@.len() as int) =~= edits@);
            }
            let mut i: usize = 0;
            while i < edits.len()
                invariant
                    source.kind is Evnt,
                    i <= edits@.len(),
                    events@.len() < 0x1000000,
                    spec_edit_evnt_all(
                        events@,
                        edits@.subrange(i as int, edits@.len() as int),
                    ) == spec_edit_evnt_all(source.kind->Evnt_0.effect_events@, edits@),
                decreases edits@.len() - i,
            {
                proof {
                    assert(edits@.subrange(i as int, edits@.len() as int)[0] == edits@[i as int]);
                    assert(edits@.subrange(i as int, edits@.len() as int).drop_first()
                        =~= edits@.subrange(i as int + 1, edits@.len() as int));
                }
                match &edits[i] {
                    FieldEdit::EffectEvent { index, id } => {
                        if *index >= events.len() {
                            return Err(String::from_str("event edit out of range"));
                        }
                        events.set(*index, *id);
                    },
                    _ => {
                        return Err(String::from_str("edit does not apply to an event table"));
                    },
                }
                i += 1;
            }
            proof {
                assert(edits@.subrange(edits@.len() as int, edits@.len() as int)
                    =~= Seq::<FieldEdit>::empty());
            }
            let mut out: Vec<u8> = Vec::new();
            #[verifier::truncate]
            let count = events.len() as u32;
            push_u32_be(&mut out, count);
            proof {
                lemma_u32s_be_len(events@);
            }
            push_u32s_be(&mut out, &events);
            proof {
                assert(out@ =~= spec_evnt_bytes(events@));
            }
            pad_to_32(&mut out);
            Ok(build_resource(new_id, source.fourcc, ResourceKind::External(out)))
        },
        ResourceKind::Raw(raw) => {
            let mut bytes = dup_bytes(raw);
            proof {
                assert(edits@.subrange(0, edits@.len() as int) =~= edits@);
            }
            let mut i: usize = 0;
            while i < edits.len()
                invariant
                    source.kind is Raw,
                    i <= edits@.len(),
                    bytes@.len() == source.kind->Raw_0@.len(),
                    bytes@.len() < 0x10000000,
                    spec_edit_raw_all(bytes@, edits@.subrange(i as int, edits@.len() as int))
                        == spec_edit_raw_all(source.kind->Raw_0@, edits@),
                decreases edits@.len() - i,
            {
                proof {
                    assert(edits@.subrange(i as int, edits@.len() as int)[0] == edits@[i as int]);
                    assert(edits@.subrange(i as int, edits@.len() as int).drop_first()
                        =~= edits@.subrange(i as int + 1, edits@.len() as int));
                }
                match &edits[i] {
                    FieldEdit::WriteU32At { offset, value } => {
                        if *offset >= bytes.len() || bytes.len() - *offset < 4 {
                            return Err(String::from_str("raw edit out of range"));
                        }
                        let ghost pre = bytes@;
                        let off = *offset;
                        let v = *value;
                        bytes.set(off, (v >> 24) as u8);
                        bytes.set(off + 1, ((v >> 16) & 0xFF) as u8);
                        bytes.set(off + 2, ((v >> 8) & 0xFF) as u8);
                        bytes.set(off + 3, (v & 0xFF) as u8);
                        proof {
                            assert(bytes@ =~= pre.subrange(0, off as int) + u32_be(v)
                                + pre.subrange(off as int + 4, pre.len() as int));
                        }
                    },
                    _ => {
                        return Err(String::from_str("edit does not apply to raw bytes"));
                    },
                }
                i += 1;
            }
            proof {
                assert(edits@.subrange(edits@.len() as int, edits@.len() as int)
                    =~= Seq::<FieldEdit>::empty());
            }
            pad_to_32(&mut bytes);
            Ok(build_resource(new_id, source.fourcc, ResourceKind::External(bytes)))
        },
        _ => Err(String::from_str("source resource kind cannot be remapped")),
    }
}

/// Synthetic generation is deterministic: identical inputs yield
/// byte-identical output, whose length is a multiple of 32.
pub proof fn lemma_clone_and_remap_deterministic(
    kind1: ResourceKind,
    kind2: ResourceKind,
    edits1: Seq<FieldEdit>,
    edits2: Seq<FieldEdit>,
)
    requires
        kind1 == kind2,
        edits1 == edits2,
    ensures
        spec_clone_and_remap(kind1, edits1) == spec_clone_and_remap(kind2, edits2),
        spec_clone_and_remap(kind1, edits1) matches Some(b) ==> b.len() % 32 == 0,
{
    if spec_clone_and_remap(kind1, edits1) is Some {
        let b = spec_clone_and_remap(kind1, edits1)->0;
        assert(b.len() % 32 == 0) by {
            match kind1 {
                ResourceKind::Model(m) => {
                    let ids = spec_edit_textures_all(m.texture_ids@, edits1)->0;
                    lemma_pad32_aligned(spec_model_bytes(ids, m.geometry@));
                },
                ResourceKind::AnimSet(a) => {
                    let refs = AnimSetRefs {
                        cmdl: a.cmdl,
                        parts: a.part_assets@,
                        evnt: a.evnt,
                        anim: a.anim,
                    };
                    let r = spec_edit_animset_all(refs, edits1)->0;
                    lemma_pad32_aligned(spec_animset_bytes(r, a.body@));
                },
                ResourceKind::Evnt(e) => {
                    let ev = spec_edit_evnt_all(e.effect_events@, edits1)->0;
                    lemma_pad32_aligned(spec_evnt_bytes(ev));
                },
                ResourceKind::Raw(raw) => {
                    let b2 = spec_edit_raw_all(raw@, edits1)->0;
                    lemma_pad32_aligned(b2);
                },
                _ => {},
            }
        }
    }
}

/// Padding always lands on a 32-byte boundary.
pub proof fn lemma_pad32_aligned(b: Seq<u8>)
    ensures
        spec_pad32(b).len() % 32 == 0,
{
}

} // verus!
