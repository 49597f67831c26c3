use randomprime::ids;
use randomprime::pool::{build_resource, ModelData, Resource, ResourceKind};
use randomprime::resdata::ResourceData;
use randomprime::synth::{clone_and_remap, FieldEdit};

fn model_source() -> Resource {
    build_resource(
        0x1000,
        ids::FOURCC_CMDL,
        ResourceKind::Model(ModelData {
            texture_ids: vec![0x11, 0x22, 0x33],
            geometry: vec![1, 2, 3, 4, 5],
        }),
    )
}

#[test]
fn clone_and_remap_is_deterministic_and_padded() {
    let source = model_source();
    let edits = vec![FieldEdit::TextureId { index: 0, id: 0xDEAF0070 }];
    let a = clone_and_remap(&source, &edits, 0xDEAF0050).unwrap();
    let b = clone_and_remap(&source, &edits, 0xDEAF0050).unwrap();
    let (bytes_a, bytes_b) = match (&a.kind, &b.kind) {
        (ResourceKind::External(x), ResourceKind::External(y)) => (x.clone(), y.clone()),
        _ => panic!("remapped resources must be serialized bytes"),
    };
    assert_eq!(bytes_a, bytes_b);
    assert_eq!(bytes_a.len() % 32, 0);
    assert!(!bytes_a.is_empty());
}

#[test]
fn clone_and_remap_serializes_the_edited_texture_table() {
    let source = model_source();
    let edits = vec![FieldEdit::TextureId { index: 1, id: 0xAABBCCDD }];
    let out = clone_and_remap(&source, &edits, 0x2000).unwrap();
    assert_eq!(out.file_id, 0x2000);
    assert_eq!(out.fourcc, ids::FOURCC_CMDL);
    let bytes = match &out.kind {
        ResourceKind::External(b) => b.clone(),
        _ => panic!("expected serialized bytes"),
    };
    // Count, three texture words (big-endian), then the geometry.
    assert_eq!(&bytes[0..4], &[0, 0, 0, 3]);
    assert_eq!(&bytes[4..8], &[0, 0, 0, 0x11]);
    assert_eq!(&bytes[8..12], &[0xAA, 0xBB, 0xCC, 0xDD]);
    assert_eq!(&bytes[12..16], &[0, 0, 0, 0x33]);
    assert_eq!(&bytes[16..21], &[1, 2, 3, 4, 5]);
    for &z in &bytes[21..32] {
        assert_eq!(z, 0);
    }
    assert_eq!(bytes.len(), 32);
}

#[test]
fn clone_and_remap_refuses_an_out_of_range_edit() {
    let source = model_source();
    let edits = vec![FieldEdit::TextureId { index: 9, id: 1 }];
    assert!(clone_and_remap(&source, &edits, 0x2000).is_err());
}

#[test]
fn clone_and_remap_refuses_a_mismatched_edit_kind() {
    let source = model_source();
    let edits = vec![FieldEdit::ModelRef { id: 1 }];
    assert!(clone_and_remap(&source, &edits, 0x2000).is_err());
}

#[test]
fn raw_edit_writes_a_big_endian_word_and_pads() {
    let source = build_resource(7, ids::FOURCC_ANIM, ResourceKind::Raw(vec![0u8; 12]));
    let edits = vec![FieldEdit::WriteU32At { offset: 8, value: 0xDEAF0048 }];
    let out = clone_and_remap(&source, &edits, 8).unwrap();
    let bytes = match &out.kind {
        ResourceKind::External(b) => b.clone(),
        _ => panic!("expected serialized bytes"),
    };
    assert_eq!(bytes.len(), 32);
    assert_eq!(&bytes[8..12], &[0xDE, 0xAF, 0x00, 0x48]);
}

#[test]
fn resource_data_passes_plain_payloads_through() {
    let res = build_resource(1, ids::FOURCC_TXTR, ResourceKind::Raw(vec![9, 8, 7]));
    let rd = ResourceData::new(&res).unwrap();
    assert_eq!(rd.decompress().unwrap(), vec![9, 8, 7]);
}

#[test]
fn resource_data_inflates_a_compressed_payload() {
    let payload: Vec<u8> = (0u8..200).cycle().take(1000).collect();
    let mut compressor = flate2::Compress::new(flate2::Compression::default(), false);
    let mut deflated = vec![0u8; 2048];
    let status = compressor
        .compress(&payload, &mut deflated, flate2::FlushCompress::Finish)
        .unwrap();
    assert!(matches!(status, flate2::Status::StreamEnd));
    deflated.truncate(compressor.total_out() as usize);

    let mut stored = Vec::new();
    stored.extend_from_slice(&(payload.len() as u32).to_be_bytes());
    stored.extend_from_slice(&[0, 0]);
    stored.extend_from_slice(&deflated);

    let mut res = build_resource(2, ids::FOURCC_CMDL, ResourceKind::Raw(stored));
    res.compressed = true;
    let rd = ResourceData::new(&res).unwrap();
    assert_eq!(rd.decompress().unwrap(), payload);
}

#[test]
fn an_oversize_size_field_pads_the_decoded_payload_with_zeros() {
    let payload: Vec<u8> = (1u8..=50).collect();
    let mut compressor = flate2::Compress::new(flate2::Compression::default(), false);
    let mut deflated = vec![0u8; 512];
    let status = compressor
        .compress(&payload, &mut deflated, flate2::FlushCompress::Finish)
        .unwrap();
    assert!(matches!(status, flate2::Status::StreamEnd));
    deflated.truncate(compressor.total_out() as usize);

    // The size field declares five bytes more than the stream inflates to:
    // the decoded buffer keeps exactly that declared size, zero-filled.
    let declared = payload.len() as u32 + 5;
    let mut stored = Vec::new();
    stored.extend_from_slice(&declared.to_be_bytes());
    stored.extend_from_slice(&[0, 0]);
    stored.extend_from_slice(&deflated);

    let mut res = build_resource(4, ids::FOURCC_CMDL, ResourceKind::Raw(stored));
    res.compressed = true;
    let rd = ResourceData::new(&res).unwrap();
    let out = rd.decompress().unwrap();
    assert_eq!(out.len(), declared as usize);
    assert_eq!(&out[..payload.len()], &payload[..]);
    assert!(out[payload.len()..].iter().all(|&b| b == 0));
}

#[test]
fn resource_data_refuses_a_parsed_payload() {
    let res = model_source();
    assert!(ResourceData::new(&res).is_err());
}

#[test]
fn resource_data_reports_a_corrupt_stream() {
    let mut res = build_resource(
        3,
        ids::FOURCC_CMDL,
        ResourceKind::Raw(vec![0, 0, 0, 10, 0, 0, 0xFF, 0xFF, 0xFF]),
    );
    res.compressed = true;
    let rd = ResourceData::new(&res).unwrap();
    assert!(rd.decompress().is_err());
}
