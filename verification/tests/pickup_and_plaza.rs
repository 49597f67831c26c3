use randomprime::door_meta::DoorType;
use randomprime::ids;
use randomprime::patcher::PatcherState;
use randomprime::patches::{make_main_plaza_locked_door_two_ways, modify_pickups_in_mrea};
use randomprime::pickup_meta::{
    PickupData, PickupLocation, PickupTable, PickupType, ScriptObjectLocation,
};
use randomprime::pool::{build_resource, DependencyPool, ResourceKind, StrgData, StrgTable};
use randomprime::scly::{
    Connection, ConnectionMsg, ConnectionState, Door, HudMemo, IdAllocator, MlvlArea,
    PointOfInterest, SclyLayer, SclyObject, SclyProperty, StreamedAudio, Trigger, Vec3,
};

const SHARED_STRG: u32 = 0x9000;

fn table() -> PickupTable {
    let entries = PickupType::iter()
        .into_iter()
        .map(|pt| PickupData {
            pickup: randomprime::scly::Pickup {
                name: pt.name().to_string(),
                position: Vec3 { x: 0, y: 0, z: 0 },
                scan_offset: Vec3 { x: 0, y: 0, z: 0 },
                hitbox: Vec3 { x: 0, y: 0, z: 0 },
                kind: pt.idx() as u32,
                max_increase: 5,
                curr_increase: 5,
                cmdl: 0x4000 + pt.idx() as u32,
                ancs_file_id: 0x5000 + pt.idx() as u32,
                fade_in_timer_ms: 0,
                spawn_delay_ms: 0,
                active: true,
            },
            hudmemo_strg: SHARED_STRG,
            attainment_audio_file_name: format!("audio/{}.dsp", pt.idx()),
            dependencies: Vec::new(),
        })
        .collect();
    PickupTable::new(entries).unwrap()
}

fn pool_with_strgs() -> DependencyPool {
    let mut pool = DependencyPool::new();
    pool.insert(build_resource(
        SHARED_STRG,
        ids::FOURCC_STRG,
        ResourceKind::Strg(StrgData {
            tables: vec![StrgTable {
                lang: ids::FOURCC_STRG_LANG_ENGL,
                strings: vec!["item\0".to_string()],
            }],
        }),
    ))
    .unwrap();
    for pt in PickupType::iter() {
        pool.insert(build_resource(
            pt.skip_hudmemos_strg(),
            ids::FOURCC_STRG,
            ResourceKind::Strg(StrgData { tables: Vec::new() }),
        ))
        .unwrap();
    }
    pool
}

fn pickup_area() -> MlvlArea {
    let pickup = SclyObject {
        instance_id: 500,
        property_data: SclyProperty::Pickup(randomprime::scly::Pickup {
            name: "vanilla".to_string(),
            position: Vec3 { x: 100, y: 200, z: 300 },
            scan_offset: Vec3 { x: 0, y: 0, z: 0 },
            hitbox: Vec3 { x: 9, y: 9, z: 9 },
            kind: 0,
            max_increase: 1,
            curr_increase: 1,
            cmdl: 1,
            ancs_file_id: 2,
            fade_in_timer_ms: 700,
            spawn_delay_ms: 0,
            active: true,
        }),
        connections: vec![Connection {
            state: ConnectionState::Arrived,
            message: ConnectionMsg::Activate,
            target_object_id: 999,
        }],
    };
    let hudmemo = SclyObject {
        instance_id: 501,
        property_data: SclyProperty::HudMemo(HudMemo {
            name: "memo".to_string(),
            first_message_timer_ms: 3000,
            memo_type: 1,
            strg: 7,
        }),
        connections: Vec::new(),
    };
    let audio = SclyObject {
        instance_id: 502,
        property_data: SclyProperty::StreamedAudio(StreamedAudio {
            name: "audio".to_string(),
            audio_file_name: "old.dsp".to_string(),
        }),
        connections: Vec::new(),
    };
    MlvlArea {
        mrea_id: 0xBBBB0001,
        layer_flags: 1,
        layers: vec![SclyLayer { objects: vec![pickup, hudmemo, audio] }],
        layer_names: vec!["Default".to_string()],
        layer_deps: vec![Vec::new()],
    }
}

fn location() -> PickupLocation {
    PickupLocation {
        location: ScriptObjectLocation { layer: 0, instance_id: 500 },
        attainment_audio: ScriptObjectLocation { layer: 0, instance_id: 502 },
        hudmemo: ScriptObjectLocation { layer: 0, instance_id: 501 },
        post_pickup_relay_connections: vec![Connection {
            state: ConnectionState::Zero,
            message: ConnectionMsg::SetToZero,
            target_object_id: 123,
        }],
    }
}

#[test]
fn rewriting_a_location_swaps_item_popup_and_jingle() {
    let mut area = pickup_area();
    let mut ps = PatcherState { fresh_instance_id_range: IdAllocator::new_above(1000) };
    let t = table();
    modify_pickups_in_mrea(
        &mut ps,
        &mut area,
        PickupType::PhazonSuit,
        &location(),
        &pool_with_strgs(),
        &t,
        false,
        false,
        Vec3 { x: 0, y: 0, z: 0 },
    )
    .unwrap();

    // A fresh layer now carries the post-pickup relay.
    assert_eq!(area.layers.len(), 2);
    assert_eq!(area.layer_deps[1].len(), 1);
    assert_eq!(area.layers[1].objects.len(), 1);
    let relay = &area.layers[1].objects[0];
    assert!(relay.instance_id > 1000);
    assert!(matches!(relay.property_data, SclyProperty::Relay(_)));
    assert_eq!(relay.connections[0].target_object_id, 123);

    // The pickup now hands out the new item and signals the relay.
    let pickup = &area.layers[0].objects[0];
    match &pickup.property_data {
        SclyProperty::Pickup(p) => {
            assert_eq!(p.kind, PickupType::PhazonSuit.idx() as u32);
            assert_eq!(p.cmdl, 0x4000 + PickupType::PhazonSuit.idx() as u32);
            assert_eq!(p.position, Vec3 { x: 100, y: 200, z: 300 });
            assert_eq!(p.fade_in_timer_ms, 700);
            assert_eq!(p.hitbox, Vec3 { x: 9, y: 9, z: 9 });
        },
        _ => panic!("pickup lost its kind"),
    }
    assert_eq!(pickup.connections.len(), 2);
    assert_eq!(pickup.connections[1].target_object_id, relay.instance_id);

    // The popup and jingle follow the new item.
    match &area.layers[0].objects[1].property_data {
        SclyProperty::HudMemo(h) => assert_eq!(h.strg, SHARED_STRG),
        _ => panic!("hudmemo lost its kind"),
    }
    match &area.layers[0].objects[2].property_data {
        SclyProperty::StreamedAudio(a) => {
            assert_eq!(
                a.audio_file_name,
                format!("audio/{}.dsp", PickupType::PhazonSuit.idx())
            )
        },
        _ => panic!("audio lost its kind"),
    }
}

#[test]
fn an_artifact_location_also_gains_its_layer_switch() {
    let mut area = pickup_area();
    let mut ps = PatcherState { fresh_instance_id_range: IdAllocator::new_above(1000) };
    let t = table();
    modify_pickups_in_mrea(
        &mut ps,
        &mut area,
        PickupType::ArtifactOfTruth,
        &location(),
        &pool_with_strgs(),
        &t,
        true,
        false,
        Vec3 { x: 0, y: 0, z: 0 },
    )
    .unwrap();
    // The relay plus the artifact layer switch.
    assert_eq!(area.layers[1].objects.len(), 2);
    assert!(matches!(
        area.layers[1].objects[1].property_data,
        SclyProperty::SpecialFunction(_)
    ));
    // The quick popup replaces the modal one when popups are skipped.
    match &area.layers[0].objects[1].property_data {
        SclyProperty::HudMemo(h) => {
            assert_eq!(h.strg, PickupType::ArtifactOfTruth.skip_hudmemos_strg());
            assert_eq!(h.first_message_timer_ms, 5000);
        },
        _ => panic!("hudmemo lost its kind"),
    }
}

fn plaza_area() -> MlvlArea {
    let scan_target = SclyObject {
        instance_id: 0x202F4,
        property_data: SclyProperty::PointOfInterest(PointOfInterest {
            name: "scan".to_string(),
            active: true,
            scan: 55,
        }),
        connections: Vec::new(),
    };
    let door = SclyObject {
        instance_id: 0x20060,
        property_data: SclyProperty::Door(Door {
            name: "vault door".to_string(),
            ancs_file_id: 3,
            ancs_unknown: 0,
            projectiles_collide: true,
        }),
        connections: Vec::new(),
    };
    let remover = SclyObject {
        instance_id: 0x202B8,
        property_data: SclyProperty::Trigger(Trigger {
            name: "remove scan".to_string(),
            position: Vec3 { x: 0, y: 0, z: 0 },
            scale: Vec3 { x: 1, y: 1, z: 1 },
            active: true,
        }),
        connections: Vec::new(),
    };
    MlvlArea {
        mrea_id: 0xCCCC0001,
        layer_flags: 1,
        layers: vec![SclyLayer { objects: vec![scan_target, door, remover] }],
        layer_names: vec!["Default".to_string()],
        layer_deps: vec![Vec::new()],
    }
}

#[test]
fn the_plaza_vault_door_opens_both_ways() {
    let mut area = plaza_area();
    let mut ps = PatcherState { fresh_instance_id_range: IdAllocator::new_above(0x30000) };
    make_main_plaza_locked_door_two_ways(&mut ps, &mut area, DoorType::Red, true, false)
        .unwrap();
    assert_eq!(area.layers[0].objects.len(), 8);

    let find = |id: u32| {
        area.layers[0]
            .objects
            .iter()
            .find(|o| o.instance_id == id)
            .expect("inserted lock object")
    };
    // The new lock wears the chosen color.
    match &find(0x2000F).property_data {
        SclyProperty::DamageableTrigger(dt) => {
            assert_eq!(dt.color_txtr, DoorType::Red.forcefield_txtr());
            assert_eq!(dt.damage_vulnerability.plasma, 1);
            // Without the lock-pick override, power bombs stay deflected.
            assert_eq!(dt.damage_vulnerability.power_bomb, 2);
        },
        _ => panic!("lock lost its kind"),
    }
    match &find(0x20004).property_data {
        SclyProperty::Actor(a) => assert_eq!(a.cmdl, DoorType::Red.shield_cmdl()),
        _ => panic!("shield lost its kind"),
    }
    // The scan target is retired and the door rewired.
    match &find(0x202F4).property_data {
        SclyProperty::PointOfInterest(poi) => {
            assert!(!poi.active);
            assert_eq!(poi.scan, 0xFFFFFFFF);
        },
        _ => panic!("scan target lost its kind"),
    }
    let door = find(0x20060);
    match &door.property_data {
        SclyProperty::Door(d) => {
            assert_eq!(d.ancs_file_id, 0x26886945);
            assert!(!d.projectiles_collide);
        },
        _ => panic!("door lost its kind"),
    }
    assert_eq!(door.connections.len(), 8);
}
