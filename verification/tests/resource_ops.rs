use randomprime::cache::{add_skip_hudmemos_strgs, create_item_scan_strg_pair, extra_assets};
use randomprime::door_meta::DoorType;
use randomprime::elevators::SpawnRoom;
use randomprime::ids;
use randomprime::patcher::{BnrData, FstEntryFile, Pak};
use randomprime::patches::{
    empty_frigate_pak, patch_artifact_totem_scan_strg, patch_bnr, patch_credits,
    patch_main_menu, patch_main_plaza_locked_door_map_icon, patch_main_strg,
    patch_map_door_icon, patch_mines_savw_for_phazon_suit_scan, replace_strg_single,
};
use randomprime::pickup_meta::{PickupData, PickupTable, PickupType};
use randomprime::pipeline::create_rel_config_file;
use randomprime::pool::{
    build_resource, DependencyPool, FrmeData, MapaData, MapaObject, ResourceKind, SavwData,
    StrgData, StrgTable,
};
use randomprime::layout::sha512;
use randomprime::scly::Vec3;

fn strg_resource(id: u32, tables: Vec<(u32, Vec<&str>)>) -> randomprime::pool::Resource {
    build_resource(
        id,
        ids::FOURCC_STRG,
        ResourceKind::Strg(StrgData {
            tables: tables
                .into_iter()
                .map(|(lang, strings)| StrgTable {
                    lang,
                    strings: strings.into_iter().map(|s| s.to_string()).collect(),
                })
                .collect(),
        }),
    )
}

#[test]
fn totem_scan_text_replaces_the_last_line_of_every_table() {
    let mut res = strg_resource(
        1,
        vec![
            (ids::FOURCC_STRG_LANG_ENGL, vec!["a\0", "b\0"]),
            (0x46524E43, vec!["c\0"]),
        ],
    );
    patch_artifact_totem_scan_strg(&mut res, &"hint\0".to_string()).unwrap();
    match &res.kind {
        ResourceKind::Strg(sd) => {
            assert_eq!(sd.tables[0].strings, vec!["a\0".to_string(), "hint\0".to_string()]);
            assert_eq!(sd.tables[1].strings, vec!["hint\0".to_string()]);
        },
        _ => panic!("string table lost its kind"),
    }
}

#[test]
fn elevator_strings_are_replaced_outright() {
    let mut res = strg_resource(2, vec![(ids::FOURCC_STRG_LANG_ENGL, vec!["old\0"])]);
    replace_strg_single(&mut res, &"Transport to Landing Site\0".to_string());
    match &res.kind {
        ResourceKind::Strg(sd) => {
            assert_eq!(sd.tables.len(), 1);
            assert_eq!(sd.tables[0].lang, ids::FOURCC_STRG_LANG_ENGL);
            assert_eq!(sd.tables[0].strings, vec!["Transport to Landing Site\0".to_string()]);
        },
        _ => panic!("string table lost its kind"),
    }
}

#[test]
fn main_menu_string_table_is_retitled_and_extended() {
    let mut res = strg_resource(
        3,
        vec![(
            ids::FOURCC_STRG_LANG_ENGL,
            vec!["Play\0", "Metroid Fusion Connection Bonuses\0"],
        )],
    );
    patch_main_strg(&mut res, &"hello there".to_string()).unwrap();
    match &res.kind {
        ResourceKind::Strg(sd) => {
            assert_eq!(sd.tables[0].strings[1], "Extras\0");
            assert_eq!(sd.tables[0].strings[2], "hello there\0");
        },
        _ => panic!("string table lost its kind"),
    }
}

#[test]
fn credits_gain_the_location_listing() {
    let mut res = strg_resource(4, vec![(ids::FOURCC_STRG_LANG_ENGL, vec!["credits\0"])]);
    patch_credits(&mut res, &"Major Item Locations\0".to_string()).unwrap();
    match &res.kind {
        ResourceKind::Strg(sd) => {
            assert_eq!(sd.tables[0].strings.len(), 2);
            assert_eq!(sd.tables[0].strings[1], "Major Item Locations\0");
        },
        _ => panic!("string table lost its kind"),
    }
}

#[test]
fn the_mines_save_world_learns_the_new_scan() {
    let mut res = build_resource(
        5,
        ids::FOURCC_SAVW,
        ResourceKind::Savw(SavwData { scan_array: Vec::new() }),
    );
    patch_mines_savw_for_phazon_suit_scan(&mut res).unwrap();
    match &res.kind {
        ResourceKind::Savw(sw) => {
            assert_eq!(sw.scan_array.len(), 1);
            assert_eq!(sw.scan_array[0].scan, ids::PHAZON_SUIT_SCAN);
        },
        _ => panic!("save world lost its kind"),
    }
}

#[test]
fn map_icons_recolor_except_vertical_ones() {
    let mut res = build_resource(
        6,
        ids::FOURCC_MAPA,
        ResourceKind::Mapa(MapaData {
            objects: vec![
                MapaObject { editor_id: 10, type_code: 0, is_vertical: false },
                MapaObject { editor_id: 11, type_code: 0, is_vertical: true },
            ],
        }),
    );
    patch_map_door_icon(&mut res, 10, DoorType::Red, true).unwrap();
    patch_map_door_icon(&mut res, 11, DoorType::Red, true).unwrap();
    match &res.kind {
        ResourceKind::Mapa(m) => {
            assert_eq!(m.objects[0].type_code, DoorType::Red.map_object_type());
            assert_eq!(m.objects[1].type_code, 0);
        },
        _ => panic!("map lost its kind"),
    }
}

#[test]
fn the_plaza_map_icon_targets_its_fixed_door() {
    let mut res = build_resource(
        7,
        ids::FOURCC_MAPA,
        ResourceKind::Mapa(MapaData {
            objects: vec![MapaObject { editor_id: 0x20060, type_code: 0, is_vertical: false }],
        }),
    );
    patch_main_plaza_locked_door_map_icon(&mut res, DoorType::Blue).unwrap();
    match &res.kind {
        ResourceKind::Mapa(m) => {
            assert_eq!(m.objects[0].type_code, DoorType::Blue.map_object_type());
        },
        _ => panic!("map lost its kind"),
    }
}

#[test]
fn the_main_menu_frame_gains_its_two_panes() {
    let mut res = build_resource(
        8,
        ids::FOURCC_FRME,
        ResourceKind::Frme(FrmeData { widgets: Vec::new() }),
    );
    patch_main_menu(&mut res).unwrap();
    match &res.kind {
        ResourceKind::Frme(f) => {
            assert_eq!(f.widgets.len(), 2);
            assert_eq!(f.widgets[0].name, "textpane_identifier");
            assert_eq!(f.widgets[1].name, "textpane_identifierb");
        },
        _ => panic!("frame lost its kind"),
    }
}

#[test]
fn emptying_the_frigate_container_leaves_one_placeholder() {
    let mut file = FstEntryFile::Pak(Pak {
        resources: vec![build_resource(9, ids::FOURCC_TXTR, ResourceKind::Raw(vec![1]))],
    });
    empty_frigate_pak(&mut file).unwrap();
    match &file {
        FstEntryFile::Pak(p) => {
            assert_eq!(p.resources.len(), 1);
            assert_eq!(p.resources[0].file_id, 0);
            assert_eq!(p.resources[0].fourcc, ids::FOURCC_XXXX);
        },
        _ => panic!("file lost its kind"),
    }
}

#[test]
fn banner_fields_are_encoded_into_their_slots() {
    let mut file = FstEntryFile::Bnr(BnrData {
        pixels: Vec::new(),
        game_name: vec![0; 32],
        developer: vec![0; 32],
        game_name_full: vec![0; 64],
        developer_full: vec![0; 64],
        description: vec![0; 128],
    });
    patch_bnr(
        &mut file,
        &vec![1, 2, 3],
        &Some("metroid prime".to_string()),
        &None,
        &None,
        &None,
        &Some("a shuffled run".to_string()),
    )
    .unwrap();
    match &file {
        FstEntryFile::Bnr(bnr) => {
            assert_eq!(bnr.pixels, vec![1, 2, 3]);
            assert_eq!(&bnr.game_name[..13], b"metroid prime");
            assert!(bnr.game_name[13..].iter().all(|&b| b == 0));
            assert_eq!(bnr.game_name.len(), 32);
            assert_eq!(&bnr.description[..14], b"a shuffled run");
        },
        _ => panic!("banner lost its kind"),
    }
}

#[test]
fn an_oversize_banner_field_is_refused() {
    let mut file = FstEntryFile::Bnr(BnrData {
        pixels: Vec::new(),
        game_name: vec![0; 8],
        developer: vec![0; 32],
        game_name_full: vec![0; 64],
        developer_full: vec![0; 64],
        description: vec![0; 128],
    });
    let r = patch_bnr(
        &mut file,
        &Vec::new(),
        &Some("far too long for the slot".to_string()),
        &None,
        &None,
        &None,
        &None,
    );
    assert!(r.is_err());
}

#[test]
fn the_quickplay_side_channel_is_little_endian() {
    let spawn = SpawnRoom::landing_site_spawn_room();
    let on = create_rel_config_file(&spawn, true).unwrap();
    assert_eq!(on.len(), 8);
    assert_eq!(&on[0..4], &spawn.mlvl.to_le_bytes());
    assert_eq!(&on[4..8], &spawn.mrea.to_le_bytes());
    let off = create_rel_config_file(&spawn, false).unwrap();
    assert_eq!(off, vec![0xFF; 8]);
}

#[test]
fn scan_and_string_pairs_are_linked() {
    let (scan, strg) = create_item_scan_strg_pair(0xDEAF0000, 0xDEAF0001, "Phazon Suit\0");
    assert_eq!(scan.file_id, 0xDEAF0000);
    match &scan.kind {
        ResourceKind::Scan(sc) => {
            assert_eq!(sc.strg, 0xDEAF0001);
            assert_eq!(sc.frme, 0xFFFFFFFF);
        },
        _ => panic!("scan lost its kind"),
    }
    match &strg.kind {
        ResourceKind::Strg(sd) => {
            assert_eq!(sd.tables[0].strings, vec!["Phazon Suit\0".to_string()]);
        },
        _ => panic!("string table lost its kind"),
    }
}

#[test]
fn skip_hudmemo_tables_name_their_items() {
    let entries = PickupType::iter()
        .into_iter()
        .map(|pt| PickupData {
            pickup: randomprime::scly::Pickup {
                name: pt.name().to_string(),
                position: Vec3 { x: 0, y: 0, z: 0 },
                scan_offset: Vec3 { x: 0, y: 0, z: 0 },
                hitbox: Vec3 { x: 0, y: 0, z: 0 },
                kind: pt.idx() as u32,
                max_increase: 0,
                curr_increase: 0,
                cmdl: 0,
                ancs_file_id: 0,
                fade_in_timer_ms: 0,
                spawn_delay_ms: 0,
                active: true,
            },
            hudmemo_strg: 1,
            attainment_audio_file_name: String::new(),
            dependencies: Vec::new(),
        })
        .collect();
    let table = PickupTable::new(entries).unwrap();
    let mut pool = DependencyPool::new();
    add_skip_hudmemos_strgs(&mut pool, &table).unwrap();
    let key = ids::ResKey::new(
        PickupType::PhazonSuit.skip_hudmemos_strg(),
        ids::FOURCC_STRG,
    );
    let res = pool.get(&key).unwrap();
    match &res.kind {
        ResourceKind::Strg(sd) => {
            assert_eq!(
                sd.tables[0].strings[0],
                "&just=center;Phazon Suit acquired!\0"
            );
        },
        _ => panic!("string table lost its kind"),
    }
}

#[test]
fn bundled_extra_assets_take_the_reserved_ids() {
    let assets = extra_assets(vec![1], vec![2], vec![3]);
    assert_eq!(assets.len(), 3);
    assert_eq!(assets[0].file_id, ids::PHAZON_SUIT_TXTR1);
    assert_eq!(assets[2].file_id, ids::NOTHING_TXTR);
}

#[test]
fn the_digest_depends_on_its_input() {
    let a = sha512(b"");
    let b = sha512(b"layout");
    assert_eq!(a.len(), 64);
    assert_eq!(b.len(), 64);
    assert_ne!(a, b);
    assert_eq!(sha512(b"layout"), b);
}
