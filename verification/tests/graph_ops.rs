use randomprime::patcher::PatcherState;
use randomprime::patches::fix_artifact_of_truth_requirements;
use randomprime::pickup_meta::{PickupData, PickupTable, PickupType};
use randomprime::patches::{
    patch_ending_scene_straight_to_credits, patch_ridley_phendrana_shorelines_cinematic,
    patch_starting_pickups, patch_temple_security_station_cutscene_trigger,
    remove_instances_from_layer, update_attainment_audio, update_hudmemo, update_pickup,
};
use randomprime::scly::{
    Connection, ConnectionMsg, ConnectionState, HudMemo, IdAllocator, MlvlArea, SclyLayer,
    SclyObject, SclyProperty, SpawnPoint, StreamedAudio, Trigger, Vec3,
};

fn trigger_obj(id: u32) -> SclyObject {
    SclyObject {
        instance_id: id,
        property_data: SclyProperty::Trigger(Trigger {
            name: "t".to_string(),
            position: Vec3 { x: 0, y: 0, z: 0 },
            scale: Vec3 { x: 1, y: 1, z: 1 },
            active: true,
        }),
        connections: Vec::new(),
    }
}

fn spawn_obj(id: u32) -> SclyObject {
    SclyObject {
        instance_id: id,
        property_data: SclyProperty::SpawnPoint(SpawnPoint {
            name: "spawn".to_string(),
            scan_visor: 9,
            missiles: 9,
            energy_tanks: 9,
            power_bombs: 9,
            wave: 9,
            ice: 9,
            plasma: 9,
            charge: 9,
            morph_ball: 9,
            bombs: 9,
            spider_ball: 9,
            boost_ball: 9,
            varia_suit: 9,
            gravity_suit: 9,
            phazon_suit: 9,
            thermal_visor: 9,
            xray: 9,
            space_jump: 9,
            grapple: 9,
            super_missile: 9,
            wavebuster: 9,
            ice_spreader: 9,
            flamethrower: 9,
        }),
        connections: Vec::new(),
    }
}

fn area_with(objs: Vec<SclyObject>) -> MlvlArea {
    MlvlArea {
        mrea_id: 1,
        layer_flags: 1,
        layers: vec![SclyLayer { objects: objs }],
        layer_names: vec!["Default".to_string()],
        layer_deps: vec![Vec::new()],
    }
}

fn ps() -> PatcherState {
    PatcherState { fresh_instance_id_range: IdAllocator::new_above(1000) }
}

#[test]
fn starting_pickups_decode_the_packed_word_exactly() {
    // scan visor on, 37 missiles, 3 energy tanks, 5 power bombs, wave and
    // charge beams, morph ball, space jump.
    let word: u64 = 1
        | (37 << 1)
        | (3 << 9)
        | (5 << 13)
        | (1 << 17)
        | (1 << 20)
        | (1 << 21)
        | (1 << 30);
    let mut area = area_with(vec![trigger_obj(1), spawn_obj(2)]);
    patch_starting_pickups(&mut area, word).unwrap();
    let sp = match &area.layers[0].objects[1].property_data {
        SclyProperty::SpawnPoint(sp) => sp.clone(),
        _ => panic!("spawn point lost its kind"),
    };
    assert_eq!(sp.scan_visor, 1);
    assert_eq!(sp.missiles, 37);
    assert_eq!(sp.energy_tanks, 3);
    assert_eq!(sp.power_bombs, 5);
    assert_eq!(sp.wave, 1);
    assert_eq!(sp.ice, 0);
    assert_eq!(sp.plasma, 0);
    assert_eq!(sp.charge, 1);
    assert_eq!(sp.morph_ball, 1);
    assert_eq!(sp.bombs, 0);
    assert_eq!(sp.space_jump, 1);
    assert_eq!(sp.grapple, 0);
    assert_eq!(sp.flamethrower, 0);
    // The trigger next to it is untouched.
    match &area.layers[0].objects[0].property_data {
        SclyProperty::Trigger(t) => assert!(t.active),
        _ => panic!("trigger lost its kind"),
    }
}

#[test]
fn deactivating_a_cutscene_trigger_flips_only_its_flag() {
    let mut area = area_with(vec![trigger_obj(0x70067), trigger_obj(7)]);
    patch_temple_security_station_cutscene_trigger(&mut ps(), &mut area).unwrap();
    match &area.layers[0].objects[0].property_data {
        SclyProperty::Trigger(t) => assert!(!t.active),
        _ => panic!("trigger lost its kind"),
    }
    match &area.layers[0].objects[1].property_data {
        SclyProperty::Trigger(t) => assert!(t.active),
        _ => panic!("second trigger must stay active"),
    }
}

#[test]
fn a_missing_expected_instance_is_fatal() {
    let mut area = area_with(vec![trigger_obj(1)]);
    assert!(patch_temple_security_station_cutscene_trigger(&mut ps(), &mut area).is_err());
}

#[test]
fn removing_instances_keeps_the_rest_in_order() {
    let mut area = area_with(vec![trigger_obj(1), trigger_obj(2), trigger_obj(3)]);
    remove_instances_from_layer(&mut area, 0, &vec![2]).unwrap();
    let ids: Vec<u32> = area.layers[0].objects.iter().map(|o| o.instance_id).collect();
    assert_eq!(ids, vec![1, 3]);
}

#[test]
fn clearing_the_cinematic_layer_empties_it() {
    let mut area = MlvlArea {
        mrea_id: 1,
        layer_flags: 0x1F,
        layers: vec![
            SclyLayer { objects: vec![trigger_obj(1)] },
            SclyLayer { objects: vec![] },
            SclyLayer { objects: vec![] },
            SclyLayer { objects: vec![] },
            SclyLayer { objects: vec![trigger_obj(9)] },
        ],
        layer_names: (0..5).map(|i| format!("L{}", i)).collect(),
        layer_deps: (0..5).map(|_| Vec::new()).collect(),
    };
    patch_ridley_phendrana_shorelines_cinematic(&mut ps(), &mut area).unwrap();
    assert!(area.layers[4].objects.is_empty());
    assert_eq!(area.layers[0].objects.len(), 1);
}

#[test]
fn ending_scene_gains_the_credits_edge() {
    let mut area = area_with(vec![trigger_obj(1103)]);
    patch_ending_scene_straight_to_credits(&mut ps(), &mut area).unwrap();
    let conns = &area.layers[0].objects[0].connections;
    assert_eq!(conns.len(), 1);
    assert_eq!(
        conns[0],
        Connection {
            state: ConnectionState::Entered,
            message: ConnectionMsg::Action,
            target_object_id: 1241,
        }
    );
}

#[test]
fn artifact_layers_follow_the_shuffled_layout() {
    let entries = PickupType::iter()
        .into_iter()
        .map(|pt| PickupData {
            pickup: randomprime::scly::Pickup {
                name: pt.name().to_string(),
                position: Vec3 { x: 0, y: 0, z: 0 },
                scan_offset: Vec3 { x: 0, y: 0, z: 0 },
                hitbox: Vec3 { x: 0, y: 0, z: 0 },
                // Artifacts carry the in-game kinds from 29 up, with the
                // Artifact of Truth first.
                kind: if pt == PickupType::ArtifactOfTruth {
                    29
                } else if pt.is_artifact() {
                    pt.idx() as u32 + 7
                } else {
                    pt.idx() as u32
                },
                max_increase: 0,
                curr_increase: 0,
                cmdl: 0,
                ancs_file_id: 0,
                fade_in_timer_ms: 0,
                spawn_delay_ms: 0,
                active: true,
            },
            hudmemo_strg: 1,
            attainment_audio_file_name: String::new(),
            dependencies: Vec::new(),
        })
        .collect();
    let table = PickupTable::new(entries).unwrap();

    let mut layers: Vec<SclyLayer> = (0..24).map(|_| SclyLayer { objects: vec![] }).collect();
    layers[1].objects.push(SclyObject {
        instance_id: 68158836,
        property_data: SclyProperty::Relay(randomprime::scly::Relay {
            name: "progress".to_string(),
            active: true,
        }),
        connections: vec![Connection {
            state: ConnectionState::Zero,
            message: ConnectionMsg::SetToZero,
            target_object_id: 1048869,
        }],
    });
    let mut area = MlvlArea {
        mrea_id: 1,
        layer_flags: 0,
        layers,
        layer_names: (0..24).map(|i| format!("L{}", i)).collect(),
        layer_deps: (0..24).map(|_| Vec::new()).collect(),
    };

    // Sixty-four locations: the Artifact of Chozo hides out in the world,
    // and the Artifact of Truth sits at the temple itself.
    let mut layout = vec![PickupType::Missile; 64];
    layout[5] = PickupType::ArtifactOfChozo;
    layout[63] = PickupType::ArtifactOfTruth;

    let mut ps = ps();
    fix_artifact_of_truth_requirements(&mut ps, &mut area, &layout, &table).unwrap();

    // The Artifact of Truth (kind 29) sits at the temple itself: its gate
    // layer starts on.
    assert_eq!((area.layer_flags >> 24) & 1, 1);
    // The Artifact of Chozo (kind 37) exists elsewhere: its layer starts
    // off, to be turned on when it is collected.
    assert_eq!((area.layer_flags >> 9) & 1, 0);
    // An absent artifact's layer starts on.
    assert_eq!((area.layer_flags >> 3) & 1, 1);

    // The progress relay now routes through the fresh gate relay.
    assert_eq!(area.layers.len(), 25);
    let gate = &area.layers[24].objects[0];
    let relay = &area.layers[1].objects[0];
    assert_eq!(relay.connections.len(), 1);
    assert_eq!(relay.connections[0].target_object_id, gate.instance_id);
}

#[test]
fn update_pickup_recenters_and_keeps_location_timing() {
    let mut obj = SclyObject {
        instance_id: 50,
        property_data: SclyProperty::Pickup(randomprime::scly::Pickup {
            name: "orig".to_string(),
            position: Vec3 { x: 1000, y: 2000, z: 3000 },
            scan_offset: Vec3 { x: 10, y: 20, z: 30 },
            hitbox: Vec3 { x: 7, y: 8, z: 9 },
            kind: 4,
            max_increase: 5,
            curr_increase: 5,
            cmdl: 111,
            ancs_file_id: 222,
            fade_in_timer_ms: 1500,
            spawn_delay_ms: 250,
            active: true,
        }),
        connections: Vec::new(),
    };
    let template = randomprime::scly::Pickup {
        name: "new item".to_string(),
        position: Vec3 { x: 0, y: 0, z: 0 },
        scan_offset: Vec3 { x: 0, y: 0, z: 0 },
        hitbox: Vec3 { x: 0, y: 0, z: 0 },
        kind: 9,
        max_increase: 2,
        curr_increase: 2,
        cmdl: 333,
        ancs_file_id: 444,
        fade_in_timer_ms: 0,
        spawn_delay_ms: 0,
        active: false,
    };
    update_pickup(&mut obj, &template, Vec3 { x: 100, y: -100, z: 0 }).unwrap();
    let p = match &obj.property_data {
        SclyProperty::Pickup(p) => p.clone(),
        _ => panic!("pickup lost its kind"),
    };
    assert_eq!(p.position, Vec3 { x: 900, y: 2100, z: 3000 });
    assert_eq!(p.scan_offset, Vec3 { x: 110, y: -80, z: 30 });
    assert_eq!(p.hitbox, Vec3 { x: 7, y: 8, z: 9 });
    assert_eq!(p.fade_in_timer_ms, 1500);
    assert_eq!(p.spawn_delay_ms, 250);
    assert!(p.active);
    assert_eq!(p.kind, 9);
    assert_eq!(p.cmdl, 333);
    assert_eq!(p.name, "new item");
}

#[test]
fn update_hudmemo_switches_to_the_quick_popup() {
    let mut obj = SclyObject {
        instance_id: 60,
        property_data: SclyProperty::HudMemo(HudMemo {
            name: "memo".to_string(),
            first_message_timer_ms: 3000,
            memo_type: 1,
            strg: 77,
        }),
        connections: Vec::new(),
    };
    update_hudmemo(&mut obj, 0xDEAF0011, true, false).unwrap();
    match &obj.property_data {
        SclyProperty::HudMemo(h) => {
            assert_eq!(h.strg, 0xDEAF0011);
            assert_eq!(h.first_message_timer_ms, 5000);
            assert_eq!(h.memo_type, 0);
        },
        _ => panic!("hudmemo lost its kind"),
    }
}

#[test]
fn update_hudmemo_keeps_the_modal_popup_when_required() {
    let mut obj = SclyObject {
        instance_id: 61,
        property_data: SclyProperty::HudMemo(HudMemo {
            name: "memo".to_string(),
            first_message_timer_ms: 3000,
            memo_type: 1,
            strg: 77,
        }),
        connections: Vec::new(),
    };
    update_hudmemo(&mut obj, 88, true, true).unwrap();
    match &obj.property_data {
        SclyProperty::HudMemo(h) => {
            assert_eq!(h.strg, 88);
            assert_eq!(h.first_message_timer_ms, 3000);
            assert_eq!(h.memo_type, 1);
        },
        _ => panic!("hudmemo lost its kind"),
    }
}

#[test]
fn update_attainment_audio_repoints_the_stream() {
    let mut obj = SclyObject {
        instance_id: 62,
        property_data: SclyProperty::StreamedAudio(StreamedAudio {
            name: "audio".to_string(),
            audio_file_name: "old.dsp".to_string(),
        }),
        connections: Vec::new(),
    };
    update_attainment_audio(&mut obj, &"audio/jingle.dsp".to_string()).unwrap();
    match &obj.property_data {
        SclyProperty::StreamedAudio(a) => assert_eq!(a.audio_file_name, "audio/jingle.dsp"),
        _ => panic!("audio lost its kind"),
    }
}
