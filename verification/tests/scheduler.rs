use randomprime::door_meta::{DoorLocation, DoorType};
use randomprime::ids;
use randomprime::ids::ResKey;
use randomprime::patcher::{FstEntryFile, FstFile, GcDisc, GcDiscHeader, Pak, PrimePatcher};
use randomprime::patches::{patch_door, PatchContext, PatchOp};
use randomprime::pickup_meta::{PickupData, PickupTable, PickupType, ScriptObjectLocation};
use randomprime::pool::{
    build_resource, DependencyPool, ResourceKind, StrgData, StrgTable,
};
use randomprime::scly::{
    DamageableTrigger, MlvlArea, SclyLayer, SclyObject, SclyProperty, Vec3,
};
use randomprime::vuln::VULN_NORMAL;

fn empty_table() -> PickupTable {
    let entries = PickupType::iter()
        .into_iter()
        .map(|pt| PickupData {
            pickup: randomprime::scly::Pickup {
                name: pt.name().to_string(),
                position: Vec3 { x: 0, y: 0, z: 0 },
                scan_offset: Vec3 { x: 0, y: 0, z: 0 },
                hitbox: Vec3 { x: 0, y: 0, z: 0 },
                kind: pt.idx() as u32,
                max_increase: 0,
                curr_increase: 0,
                cmdl: 0,
                ancs_file_id: 0,
                fade_in_timer_ms: 0,
                spawn_delay_ms: 0,
                active: true,
            },
            hudmemo_strg: 1,
            attainment_audio_file_name: String::new(),
            dependencies: Vec::new(),
        })
        .collect();
    PickupTable::new(entries).unwrap()
}

fn ctx() -> PatchContext {
    PatchContext {
        pickup_resources: DependencyPool::new(),
        door_resources: DependencyPool::new(),
        pickup_table: empty_table(),
        skip_hudmenus: false,
        obfuscate_items: false,
        powerbomb_lockpick: false,
    }
}

fn credits_resource() -> randomprime::pool::Resource {
    build_resource(
        0x7000,
        ids::FOURCC_STRG,
        ResourceKind::Strg(StrgData {
            tables: vec![StrgTable {
                lang: ids::FOURCC_STRG_LANG_ENGL,
                strings: vec!["credits\0".to_string()],
            }],
        }),
    )
}

fn disc_with_strg() -> GcDisc {
    GcDisc {
        header: GcDiscHeader { game_id: b"GM8E01".to_vec(), disc_id: 0, version: 0 },
        files: vec![FstFile {
            name: "Metroid2.pak".to_string(),
            file: FstEntryFile::Pak(Pak { resources: vec![credits_resource()] }),
        }],
    }
}

#[test]
fn later_patches_observe_earlier_effects_on_the_same_target() {
    let mut disc = disc_with_strg();
    let mut patcher = PrimePatcher::new();
    let key = ResKey::new(0x7000, ids::FOURCC_STRG);
    patcher.add_resource_patch(
        "Metroid2.pak".to_string(),
        key,
        PatchOp::CreditsText { text: "first\0".to_string() },
    );
    patcher.add_resource_patch(
        "Metroid2.pak".to_string(),
        key,
        PatchOp::CreditsText { text: "second\0".to_string() },
    );
    patcher.run(&mut disc, &ctx()).unwrap();
    match &disc.files[0].file {
        FstEntryFile::Pak(pak) => match &pak.resources[0].kind {
            ResourceKind::Strg(sd) => {
                assert_eq!(
                    sd.tables[0].strings,
                    vec![
                        "credits\0".to_string(),
                        "first\0".to_string(),
                        "second\0".to_string(),
                    ]
                );
            },
            _ => panic!("string table lost its kind"),
        },
        _ => panic!("container lost its kind"),
    }
}

#[test]
fn a_missing_target_aborts_the_run() {
    let mut disc = disc_with_strg();
    let mut patcher = PrimePatcher::new();
    patcher.add_resource_patch(
        "Metroid2.pak".to_string(),
        ResKey::new(0xBAD, ids::FOURCC_STRG),
        PatchOp::CreditsText { text: "first\0".to_string() },
    );
    assert!(patcher.run(&mut disc, &ctx()).is_err());

    let mut patcher = PrimePatcher::new();
    patcher.add_scly_patch(
        "NoSuch.pak".to_string(),
        0x1234,
        PatchOp::TempleSecurityTrigger,
    );
    assert!(patcher.run(&mut disc, &ctx()).is_err());
}

#[test]
fn a_failing_operation_aborts_before_later_registrations() {
    let mut disc = disc_with_strg();
    let mut patcher = PrimePatcher::new();
    let key = ResKey::new(0x7000, ids::FOURCC_STRG);
    // The save-world operation cannot apply to a string table.
    patcher.add_resource_patch("Metroid2.pak".to_string(), key, PatchOp::MinesSavwScan);
    patcher.add_resource_patch(
        "Metroid2.pak".to_string(),
        key,
        PatchOp::CreditsText { text: "never\0".to_string() },
    );
    assert!(patcher.run(&mut disc, &ctx()).is_err());
    match &disc.files[0].file {
        FstEntryFile::Pak(pak) => match &pak.resources[0].kind {
            ResourceKind::Strg(sd) => {
                assert_eq!(sd.tables[0].strings, vec!["credits\0".to_string()]);
            },
            _ => panic!("string table lost its kind"),
        },
        _ => panic!("container lost its kind"),
    }
}

fn door_area() -> MlvlArea {
    let force = SclyObject {
        instance_id: 100,
        property_data: SclyProperty::DamageableTrigger(DamageableTrigger {
            name: "DoorForce".to_string(),
            position: Vec3 { x: 0, y: 0, z: 0 },
            scale: Vec3 { x: 1, y: 1, z: 1 },
            health_ms: 1000,
            damage_vulnerability: DoorType::Blue.vulnerability(),
            render_side: 3,
            pattern_txtr0: 0,
            pattern_txtr1: 0,
            color_txtr: 0,
            lock_on: false,
            active: true,
            target_passthrough: false,
        }),
        connections: Vec::new(),
    };
    MlvlArea {
        mrea_id: 1,
        layer_flags: 1,
        layers: vec![SclyLayer { objects: vec![force] }],
        layer_names: vec!["Default".to_string()],
        layer_deps: vec![Vec::new()],
    }
}

fn door_pool() -> DependencyPool {
    let mut pool = DependencyPool::new();
    for key in DoorType::PowerBomb.dependencies() {
        pool.insert(build_resource(key.id, key.fourcc, ResourceKind::Raw(Vec::new())))
            .unwrap();
    }
    pool
}

#[test]
fn the_lock_pick_override_lets_power_bombs_land() {
    let loc = DoorLocation {
        door_location: ScriptObjectLocation { layer: 0, instance_id: 102 },
        door_force_location: ScriptObjectLocation { layer: 0, instance_id: 100 },
        door_shield_location: None,
        dock_number: Some(0),
    };
    let mut area = door_area();
    patch_door(&mut area, &loc, DoorType::PowerBomb, &door_pool(), true).unwrap();
    match &area.layers[0].objects[0].property_data {
        SclyProperty::DamageableTrigger(dt) => {
            assert_eq!(dt.damage_vulnerability.power_bomb, VULN_NORMAL);
            assert_eq!(dt.color_txtr, DoorType::PowerBomb.forcefield_txtr());
        },
        _ => panic!("lock lost its kind"),
    }
}
