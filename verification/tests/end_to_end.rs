use randomprime::cache::{collect_door_resources, collect_pickup_resources, CacheSources};
use randomprime::door_meta::{DoorLocation, DoorType, Weights};
use randomprime::ids;
use randomprime::patcher::{FstEntryFile, FstFile, GcDisc, GcDiscHeader, Pak};
use randomprime::patches::{door_type_from_roll, patch_door, ArtifactHintBehavior, IsoFormat};
use randomprime::pickup_meta::{
    PakLocations, PickupData, PickupTable, PickupType, RoomInfo, ScriptObjectLocation,
};
use randomprime::pipeline::{
    apply_all_patches, detect_version, AreaRef, DoorOverride, FixedIds, ParsedConfig,
    ResourceRef, Version,
};
use randomprime::pool::{
    build_resource, AnimSetData, EvntData, ModelData, Resource, ResourceKind, StrgData, StrgTable,
};
use randomprime::scly::{
    Actor, DamageableTrigger, Door, MlvlArea, SclyLayer, SclyObject, SclyProperty, Vec3,
};
use randomprime::vuln::VULN_IMMUNE;

const DOOR_ROOM_MREA: u32 = 0xAAAA0001;
const DOOR_FORCE_ID: u32 = 100;
const DOOR_SHIELD_ID: u32 = 101;
const DOOR_ID: u32 = 102;
const SHARED_HUDMEMO_STRG: u32 = 0x9000;
const SUIT_CMDL: u32 = 0x5001;
const SUIT_ANCS: u32 = 0x5002;
const SHINY_CMDL: u32 = 0x5003;
const SHINY_ANCS: u32 = 0x5004;
const SHINY_EVNT: u32 = 0x5005;
const SHINY_ANIM: u32 = 0x5006;

fn raw(id: u32, fourcc: u32) -> Resource {
    build_resource(id, fourcc, ResourceKind::Raw(vec![id as u8; 8]))
}

fn model(id: u32) -> Resource {
    build_resource(
        id,
        ids::FOURCC_CMDL,
        ResourceKind::Model(ModelData {
            texture_ids: vec![0x88ED4593, 2, 3, 4],
            geometry: vec![1, 2, 3],
        }),
    )
}

fn sources() -> CacheSources {
    CacheSources {
        suit_source_cmdl: SUIT_CMDL,
        suit_source_ancs: SUIT_ANCS,
        shiny_source_cmdl: SHINY_CMDL,
        shiny_source_ancs: SHINY_ANCS,
        shiny_source_evnt: SHINY_EVNT,
        shiny_source_anim: SHINY_ANIM,
        health_part: 0x7777,
    }
}

fn door_area() -> MlvlArea {
    let base_vuln = DoorType::Blue.vulnerability();
    let force = SclyObject {
        instance_id: DOOR_FORCE_ID,
        property_data: SclyProperty::DamageableTrigger(DamageableTrigger {
            name: "DoorForce".to_string(),
            position: Vec3 { x: 0, y: 0, z: 0 },
            scale: Vec3 { x: 1000, y: 1000, z: 1000 },
            health_ms: 1000,
            damage_vulnerability: base_vuln,
            render_side: 3,
            pattern_txtr0: 0,
            pattern_txtr1: 0,
            color_txtr: 0x8A7F3683,
            lock_on: false,
            active: true,
            target_passthrough: false,
        }),
        connections: Vec::new(),
    };
    let shield = SclyObject {
        instance_id: DOOR_SHIELD_ID,
        property_data: SclyProperty::Actor(Actor {
            name: "DoorShield".to_string(),
            position: Vec3 { x: 0, y: 0, z: 0 },
            cmdl: 0x0734977A,
            ancs_file_id: 0xFFFFFFFF,
            active: true,
            target_passthrough: false,
        }),
        connections: Vec::new(),
    };
    let door = SclyObject {
        instance_id: DOOR_ID,
        property_data: SclyProperty::Door(Door {
            name: "Door".to_string(),
            ancs_file_id: 1,
            ancs_unknown: 0,
            projectiles_collide: true,
        }),
        connections: Vec::new(),
    };
    MlvlArea {
        mrea_id: DOOR_ROOM_MREA,
        layer_flags: 1,
        layers: vec![SclyLayer { objects: vec![force, shield, door] }],
        layer_names: vec!["Default".to_string()],
        layer_deps: vec![Vec::new()],
    }
}

fn door_fixture_resources() -> Vec<Resource> {
    let mut res = Vec::new();
    // The two frame models synthesis clones must be parsed models.
    res.push(model(0x0734977A));
    res.push(model(0x18D0AEE6));
    // The other vanilla frame models.
    for id in [0x33188D1Bu32, 0x59649E9D, 0xBBBA1EC7, 0x095B0B93, 0xB7A8A4C9] {
        res.push(raw(id, ids::FOURCC_CMDL));
    }
    // The vanilla forcefield and rim textures.
    for id in [
        0x8A7F3683u32,
        0xF68DF7F1,
        0xBE4CD99D,
        0xFC095F6C,
        0x1D588B22,
        0x8344BEC8,
        0xD5C17775,
        0x717AABCE,
        0x88ED4593,
        0xAB031EA9,
        0xF6870C9F,
        0x61A6945B,
        0x459582C1,
        0xC7C8AF66,
    ] {
        res.push(raw(id, ids::FOURCC_TXTR));
    }
    res
}

fn extra_door_assets() -> Vec<Resource> {
    let mut res = Vec::new();
    for id in [
        ids::POWER_BOMB_DOOR_TXTR,
        ids::MORPH_BALL_BOMB_DOOR_TXTR,
        ids::SUPER_MISSILE_DOOR_TXTR,
        ids::WAVEBUSTER_DOOR_TXTR,
        ids::ICESPREADER_DOOR_TXTR,
        ids::FLAMETHROWER_DOOR_TXTR,
        ids::AI_DOOR_TXTR,
    ] {
        res.push(raw(id, ids::FOURCC_TXTR));
    }
    res
}

fn pickup_fixture_resources() -> Vec<Resource> {
    let mut res = Vec::new();
    res.push(model(SUIT_CMDL));
    res.push(build_resource(
        SUIT_ANCS,
        ids::FOURCC_ANCS,
        ResourceKind::AnimSet(AnimSetData {
            cmdl: SUIT_CMDL,
            part_assets: vec![],
            evnt: 0,
            anim: 0,
            body: vec![1, 2],
        }),
    ));
    res.push(model(SHINY_CMDL));
    res.push(build_resource(
        SHINY_ANCS,
        ids::FOURCC_ANCS,
        ResourceKind::AnimSet(AnimSetData {
            cmdl: SHINY_CMDL,
            part_assets: vec![1],
            evnt: 0,
            anim: 0,
            body: vec![3],
        }),
    ));
    res.push(build_resource(
        SHINY_EVNT,
        ids::FOURCC_EVNT,
        ResourceKind::Evnt(EvntData { effect_events: vec![0, 0, 5] }),
    ));
    res.push(build_resource(
        SHINY_ANIM,
        ids::FOURCC_ANIM,
        ResourceKind::Raw(vec![0u8; 16]),
    ));
    res.push(build_resource(
        SHARED_HUDMEMO_STRG,
        ids::FOURCC_STRG,
        ResourceKind::Strg(StrgData {
            tables: vec![StrgTable {
                lang: ids::FOURCC_STRG_LANG_ENGL,
                strings: vec!["item\0".to_string()],
            }],
        }),
    ));
    res
}

fn pickup_template(kind: u32) -> randomprime::scly::Pickup {
    randomprime::scly::Pickup {
        name: "item".to_string(),
        position: Vec3 { x: 0, y: 0, z: 0 },
        scan_offset: Vec3 { x: 0, y: 0, z: 0 },
        hitbox: Vec3 { x: 1000, y: 1000, z: 1000 },
        kind,
        max_increase: 1,
        curr_increase: 1,
        cmdl: 0xFFFFFFFF,
        ancs_file_id: 0xFFFFFFFF,
        fade_in_timer_ms: 0,
        spawn_delay_ms: 0,
        active: true,
    }
}

fn table() -> PickupTable {
    let mut entries = Vec::new();
    for pt in PickupType::iter() {
        let deps = if pt == PickupType::Missile {
            vec![
                ids::ResKey::new(SUIT_CMDL, ids::FOURCC_CMDL),
                ids::ResKey::new(SUIT_ANCS, ids::FOURCC_ANCS),
                ids::ResKey::new(SHINY_CMDL, ids::FOURCC_CMDL),
                ids::ResKey::new(SHINY_ANCS, ids::FOURCC_ANCS),
                ids::ResKey::new(SHINY_EVNT, ids::FOURCC_EVNT),
                ids::ResKey::new(SHINY_ANIM, ids::FOURCC_ANIM),
            ]
        } else {
            Vec::new()
        };
        entries.push(PickupData {
            pickup: pickup_template(pt.idx() as u32),
            hudmemo_strg: SHARED_HUDMEMO_STRG,
            attainment_audio_file_name: "audio/jingle.dsp".to_string(),
            dependencies: deps,
        });
    }
    PickupTable::new(entries).unwrap()
}

fn rooms_db() -> Vec<PakLocations> {
    vec![
        PakLocations {
            pak_name: "Metroid2.pak".to_string(),
            rooms: vec![RoomInfo {
                room_id: DOOR_ROOM_MREA,
                name: "Test Door Room".to_string(),
                name_id: 1,
                mapa_id: 0,
                pickup_locations: Vec::new(),
                door_locations: vec![DoorLocation {
                    door_location: ScriptObjectLocation { layer: 0, instance_id: DOOR_ID },
                    door_force_location: ScriptObjectLocation {
                        layer: 0,
                        instance_id: DOOR_FORCE_ID,
                    },
                    door_shield_location: Some(ScriptObjectLocation {
                        layer: 0,
                        instance_id: DOOR_SHIELD_ID,
                    }),
                    dock_number: Some(0),
                }],
                objects_to_remove: Vec::new(),
            }],
        },
        PakLocations {
            pak_name: "Metroid4.pak".to_string(),
            rooms: vec![RoomInfo {
                room_id: randomprime::elevators::LANDING_SITE_MREA,
                name: "Landing Site".to_string(),
                name_id: 2,
                mapa_id: 0,
                pickup_locations: Vec::new(),
                door_locations: Vec::new(),
                objects_to_remove: Vec::new(),
            }],
        },
    ]
}

fn fixture_disc(already_marked: bool) -> GcDisc {
    let mut pak2 = door_fixture_resources();
    pak2.extend(pickup_fixture_resources());
    pak2.push(build_resource(
        DOOR_ROOM_MREA,
        ids::FOURCC_MREA,
        ResourceKind::Area(door_area()),
    ));
    let mut files = vec![
        FstFile {
            name: "Metroid2.pak".to_string(),
            file: FstEntryFile::Pak(Pak { resources: pak2 }),
        },
        FstFile {
            name: "Metroid4.pak".to_string(),
            file: FstEntryFile::Pak(Pak { resources: Vec::new() }),
        },
    ];
    if already_marked {
        files.push(FstFile {
            name: "randomprime.txt".to_string(),
            file: FstEntryFile::Unknown(Vec::new()),
        });
    }
    GcDisc {
        header: GcDiscHeader {
            game_id: vec![0x47, 0x4D, 0x38, 0x45, 0x30, 0x31],
            disc_id: 0,
            version: 0,
        },
        files,
    }
}

fn dummy_area_ref() -> AreaRef {
    AreaRef { pak_name: "Metroid2.pak".to_string(), mrea: 0 }
}

fn dummy_res_ref() -> ResourceRef {
    ResourceRef { pak_name: "Metroid2.pak".to_string(), id: 0, fourcc: ids::FOURCC_STRG }
}

fn fixed_ids() -> FixedIds {
    FixedIds {
        artifact_totem_strgs: Vec::new(),
        stonehenge: dummy_area_ref(),
        main_strg: dummy_res_ref(),
        main_menu_frme: dummy_res_ref(),
        credits_strg: dummy_res_ref(),
        mines_savw: dummy_res_ref(),
        save_banner_txtr: dummy_res_ref(),
        intro_hanger: dummy_area_ref(),
        sunchamber: dummy_area_ref(),
        sun_tower: dummy_area_ref(),
        temple_security: dummy_area_ref(),
        ridley_shorelines: dummy_area_ref(),
        vent_shaft_b: dummy_area_ref(),
        lab_hydra: dummy_area_ref(),
        research_core: dummy_area_ref(),
        observatory: dummy_area_ref(),
        mines_security: dummy_area_ref(),
        gravity_chamber: dummy_area_ref(),
        elite_research: dummy_area_ref(),
        elite_control_pirates: dummy_area_ref(),
        main_quarry: dummy_area_ref(),
        geothermal: dummy_area_ref(),
        hive_totem: dummy_area_ref(),
        ruined_courtyard: dummy_area_ref(),
        ore_processing: dummy_area_ref(),
        main_plaza_vault: dummy_area_ref(),
        main_plaza_mapa: dummy_res_ref(),
        end_cinema: dummy_area_ref(),
        landing_site: dummy_area_ref(),
    }
}

fn base_config() -> ParsedConfig {
    ParsedConfig {
        layout_string: "fixture".to_string(),
        is_item_randomized: None,
        pickup_layout: Vec::new(),
        elevator_layout: Vec::new(),
        elevator_layout_override: Vec::new(),
        starting_room: "Tallon Overworld:Landing Site".to_string(),
        item_seed: 1,
        seed: 1,
        door_weights: Weights {
            chozo_ruins: [100, 0, 0, 0],
            phendrana_drifts: [100, 0, 0, 0],
            tallon_overworld: [100, 0, 0, 0],
            phazon_mines: [100, 0, 0, 0],
            magmoor_caverns: [100, 0, 0, 0],
        },
        excluded_doors: Vec::new(),
        patch_map: false,
        iso_format: IsoFormat::Iso,
        skip_frigate: false,
        skip_hudmenus: false,
        keep_fmvs: true,
        obfuscate_items: false,
        nonvaria_heat_damage: false,
        staggered_suit_damage: false,
        auto_enabled_elevators: false,
        powerbomb_lockpick: false,
        quiet: true,
        tiny_elvetator_samus: false,
        skip_impact_crater: false,
        enable_vault_ledge_door: false,
        artifact_hint_behavior: ArtifactHintBehavior::Vanilla,
        patch_vertical_to_blue: false,
        starting_items: None,
        starting_items_frigate: None,
        comment: "fixture run".to_string(),
        main_menu_message: "fixture".to_string(),
        quickplay: false,
        bnr_game_name: None,
        bnr_developer: None,
        bnr_game_name_full: None,
        bnr_developer_full: None,
        bnr_description: None,
        pal_override: false,
    }
}

fn find_door_force(disc: &GcDisc) -> DamageableTrigger {
    for f in &disc.files {
        if f.name == "Metroid2.pak" {
            if let FstEntryFile::Pak(pak) = &f.file {
                for res in &pak.resources {
                    if let ResourceKind::Area(area) = &res.kind {
                        for o in &area.layers[0].objects {
                            if o.instance_id == DOOR_FORCE_ID {
                                if let SclyProperty::DamageableTrigger(dt) = &o.property_data {
                                    return dt.clone();
                                }
                            }
                        }
                    }
                }
            }
        }
    }
    panic!("door force not found");
}

#[test]
fn detect_version_identifies_revisions() {
    let disc = fixture_disc(false);
    assert_eq!(detect_version(&disc).unwrap(), Version::Ntsc0_00);
    let mut pal = fixture_disc(false);
    pal.header.game_id[3] = 0x50;
    assert_eq!(detect_version(&pal).unwrap(), Version::Pal);
    let mut bogus = fixture_disc(false);
    bogus.header.game_id[0] = 0x5A;
    assert!(detect_version(&bogus).is_err());
}

#[test]
fn dependency_pools_close_over_the_fixture_containers() {
    let disc = fixture_disc(false);
    let doors = collect_door_resources(&disc, &extra_door_assets()).unwrap();
    for dt in DoorType::iter() {
        for key in dt.dependencies() {
            assert!(doors.contains_key(&key), "missing door dependency");
        }
    }
    let t = table();
    let pickups = collect_pickup_resources(&disc, &t, &Vec::new(), &sources()).unwrap();
    for entry in &t.entries {
        for key in &entry.dependencies {
            assert!(pickups.contains_key(key));
        }
        assert!(pickups.contains_key(&ids::ResKey::new(
            entry.hudmemo_strg,
            ids::FOURCC_STRG
        )));
    }
}

#[test]
fn a_missing_dependency_fails_the_pool_build_fast() {
    let mut disc = fixture_disc(false);
    // Drop one vanilla texture every door variant family needs.
    if let FstEntryFile::Pak(pak) = &mut disc.files[0].file {
        pak.resources.retain(|r| r.file_id != 0x8A7F3683);
    }
    assert!(collect_door_resources(&disc, &extra_door_assets()).is_err());
}

#[test]
fn full_weight_on_blue_selects_blue_for_every_roll() {
    for roll in 0..100u8 {
        let dt = door_type_from_roll(&[100, 0, 0, 0], roll).unwrap();
        assert_eq!(dt, DoorType::Blue);
    }
}

#[test]
fn weights_not_summing_to_one_hundred_are_fatal() {
    assert!(door_type_from_roll(&[50, 0, 0, 0], 10).is_err());
    assert!(door_type_from_roll(&[50, 20, 20, 20], 10).is_err());
}

#[test]
fn weighted_blue_roll_recolors_the_door_deterministically() {
    let disc = fixture_disc(false);
    let doors = collect_door_resources(&disc, &extra_door_assets()).unwrap();
    let mut area = door_area();
    let mut rng = randomprime::rng::rng_from_seed(42);
    let weights = base_config().door_weights;
    let dt = randomprime::patches::calculate_door_type("Metroid2.pak", &mut rng, &weights)
        .unwrap();
    assert_eq!(dt, DoorType::Blue);
    let loc = rooms_db()[0].rooms[0].door_locations[0].clone();
    patch_door(&mut area, &loc, dt, &doors, false).unwrap();
    let force = {
        let o = &area.layers[0].objects[0];
        match &o.property_data {
            SclyProperty::DamageableTrigger(dtr) => dtr.clone(),
            _ => panic!("door lock lost its kind"),
        }
    };
    assert_eq!(force.color_txtr, DoorType::Blue.forcefield_txtr());
    assert_eq!(force.damage_vulnerability, DoorType::Blue.vulnerability());
}

#[test]
fn explicit_missile_override_beats_the_random_weights() {
    let mut disc = fixture_disc(true);
    let mut config = base_config();
    config.excluded_doors.push(DoorOverride {
        world_idx: 1,
        room_name: "Test Door Room".to_string(),
        dock: 0,
        value: "missile".to_string(),
    });
    let version = detect_version(&disc).unwrap();
    apply_all_patches(
        &mut disc,
        &config,
        version,
        &rooms_db(),
        &Vec::new(),
        table(),
        &Vec::new(),
        &extra_door_assets(),
        &sources(),
        &fixed_ids(),
    )
    .unwrap();
    let force = find_door_force(&disc);
    assert_eq!(force.color_txtr, DoorType::Missile.forcefield_txtr());
    assert_eq!(force.damage_vulnerability, DoorType::Missile.vulnerability());
    assert_eq!(force.damage_vulnerability.power_bomb, VULN_IMMUNE);
}

#[test]
fn an_unknown_override_name_is_a_fatal_configuration_error() {
    let mut disc = fixture_disc(true);
    let mut config = base_config();
    config.excluded_doors.push(DoorOverride {
        world_idx: 1,
        room_name: "Test Door Room".to_string(),
        dock: 0,
        value: "bogus".to_string(),
    });
    let version = detect_version(&disc).unwrap();
    let r = apply_all_patches(
        &mut disc,
        &config,
        version,
        &rooms_db(),
        &Vec::new(),
        table(),
        &Vec::new(),
        &extra_door_assets(),
        &sources(),
        &fixed_ids(),
    );
    assert!(r.is_err());
}

#[test]
fn a_second_tool_marker_refuses_the_input() {
    let mut disc = fixture_disc(false);
    disc.files.push(FstFile {
        name: "mpdr.txt".to_string(),
        file: FstEntryFile::Unknown(Vec::new()),
    });
    let config = base_config();
    let r = apply_all_patches(
        &mut disc,
        &config,
        Version::Ntsc0_00,
        &rooms_db(),
        &Vec::new(),
        table(),
        &Vec::new(),
        &extra_door_assets(),
        &sources(),
        &fixed_ids(),
    );
    assert!(r.is_err());
}

#[test]
fn a_successful_run_stamps_its_marker_files() {
    let mut disc = fixture_disc(true);
    let config = base_config();
    let version = detect_version(&disc).unwrap();
    apply_all_patches(
        &mut disc,
        &config,
        version,
        &rooms_db(),
        &Vec::new(),
        table(),
        &Vec::new(),
        &extra_door_assets(),
        &sources(),
        &fixed_ids(),
    )
    .unwrap();
    assert!(disc.files.iter().any(|f| f.name == "mpdr.txt"));
    assert!(disc.files.iter().filter(|f| f.name == "randomprime.txt").count() == 2);
}
