use randomprime::door_meta::{BlastShieldType, DoorType};
use randomprime::ids;
use randomprime::vuln::{VULN_IMMUNE, VULN_NORMAL, VULN_REFLECT};
use randomprime::door_meta::{MAPA_DOOR_NORMAL, MAPA_DOOR_PLASMA, MAPA_DOOR_SHIELD};

fn is_vuln_value(v: u32) -> bool {
    v == VULN_NORMAL || v == VULN_REFLECT || v == VULN_IMMUNE
}

#[test]
fn every_profile_field_is_one_of_three_values() {
    for dt in DoorType::iter() {
        let p = dt.vulnerability();
        let fields = [
            p.power,
            p.ice,
            p.wave,
            p.plasma,
            p.bomb,
            p.power_bomb,
            p.missile,
            p.boost_ball,
            p.phazon,
            p.enemy_weapon0,
            p.enemy_weapon1,
            p.enemy_weapon2,
            p.enemy_weapon3,
            p.unknown_weapon0,
            p.unknown_weapon1,
            p.unknown_weapon2,
            p.charged_beams.power,
            p.charged_beams.ice,
            p.charged_beams.wave,
            p.charged_beams.plasma,
            p.charged_beams.phazon,
            p.beam_combos.power,
            p.beam_combos.ice,
            p.beam_combos.wave,
            p.beam_combos.plasma,
            p.beam_combos.phazon,
        ];
        for f in fields {
            assert!(is_vuln_value(f));
        }
    }
}

#[test]
fn vertical_variants_mirror_their_base() {
    for dt in DoorType::iter() {
        if !dt.is_vertical() {
            let v = dt.to_vertical();
            assert_eq!(v.vulnerability(), dt.vulnerability());
            assert_eq!(v.forcefield_txtr(), dt.forcefield_txtr());
            assert_eq!(v.holorim_texture(), dt.holorim_texture());
        }
    }
}

#[test]
fn to_vertical_maps_blue_and_keeps_vertical() {
    assert_eq!(DoorType::Blue.to_vertical(), DoorType::VerticalBlue);
    assert_eq!(DoorType::VerticalRed.to_vertical(), DoorType::VerticalRed);
    assert!(DoorType::VerticalMissile.is_vertical());
    assert!(!DoorType::Missile.is_vertical());
}

#[test]
fn dependencies_are_nonempty_unique_and_carry_the_frame_model() {
    for dt in DoorType::iter() {
        let deps = dt.dependencies();
        assert!(!deps.is_empty());
        for (i, a) in deps.iter().enumerate() {
            assert!(a.id != 0 && a.id != 0xFFFFFFFF);
            for b in deps.iter().skip(i + 1) {
                assert!(a != b);
            }
        }
        assert!(deps.iter().any(|k| k.id == dt.shield_cmdl() && k.fourcc == ids::FOURCC_CMDL));
    }
}

#[test]
fn disabled_door_duplicate_textures_are_deduplicated() {
    let deps = DoorType::Disabled.dependencies();
    // Its forcefield and rim share one texture id, which must appear once.
    let count = deps
        .iter()
        .filter(|k| k.id == 0x717AABCE && k.fourcc == ids::FOURCC_TXTR)
        .count();
    assert_eq!(count, 1);
}

#[test]
fn shield_dependencies_are_wellformed() {
    for bs in BlastShieldType::iter() {
        let deps = bs.dependencies();
        assert!(!deps.is_empty());
        for (i, a) in deps.iter().enumerate() {
            assert!(a.id != 0 && a.id != 0xFFFFFFFF);
            for b in deps.iter().skip(i + 1) {
                assert!(a != b);
            }
        }
        assert!(deps.iter().any(|k| k.id == bs.cmdl() && k.fourcc == ids::FOURCC_CMDL));
    }
}

#[test]
fn missile_lock_has_no_scan_dependencies() {
    let deps = BlastShieldType::Missile.dependencies();
    assert!(deps.iter().all(|k| k.fourcc != ids::FOURCC_SCAN));
    assert!(deps.iter().all(|k| k.fourcc != ids::FOURCC_STRG));
}

#[test]
fn from_string_resolves_the_synonym_table() {
    let cases = [
        ("blue", DoorType::Blue),
        ("wave", DoorType::Purple),
        ("wavebeam", DoorType::Purple),
        ("purple", DoorType::Purple),
        ("ice", DoorType::White),
        ("icebeam", DoorType::White),
        ("white", DoorType::White),
        ("plasma", DoorType::Red),
        ("plasmabeam", DoorType::Red),
        ("red", DoorType::Red),
        ("poweronly", DoorType::PowerOnly),
        ("powerbomb", DoorType::PowerBomb),
        ("bomb", DoorType::Bomb),
        ("bombs", DoorType::Bomb),
        ("missile", DoorType::Missile),
        ("missiles", DoorType::Missile),
        ("charge", DoorType::Charge),
        ("chargebeam", DoorType::Charge),
        ("super", DoorType::Super),
        ("supermissile", DoorType::Super),
        ("supermissiles", DoorType::Super),
        ("disabled", DoorType::Disabled),
        ("wavebuster", DoorType::Wavebuster),
        ("icespreader", DoorType::Icespreader),
        ("flamethrower", DoorType::Flamethrower),
        ("ai", DoorType::Ai),
    ];
    for (name, expected) in cases {
        assert_eq!(DoorType::from_string(name.to_string()), Some(expected));
    }
}

#[test]
fn from_string_is_insensitive_to_case_spaces_and_underscores() {
    assert_eq!(DoorType::from_string("  Power_Bomb ".to_string()), Some(DoorType::PowerBomb));
    assert_eq!(DoorType::from_string("Wave Beam".to_string()), Some(DoorType::Purple));
    assert_eq!(DoorType::from_string("PLASMA".to_string()), Some(DoorType::Red));
}

#[test]
fn from_string_rejects_unknown_names() {
    assert_eq!(DoorType::from_string("bogus".to_string()), None);
    assert_eq!(DoorType::from_string("".to_string()), None);
    assert_eq!(DoorType::from_string("bluee".to_string()), None);
}

#[test]
fn from_cmdl_and_from_txtr_resolve_vanilla_assets() {
    assert_eq!(DoorType::from_cmdl(&0x0734977A), Some(DoorType::Blue));
    assert_eq!(DoorType::from_cmdl(&0x18D0AEE6), Some(DoorType::VerticalBlue));
    assert_eq!(DoorType::from_cmdl(&0xDEADBEEF), None);
    assert_eq!(DoorType::from_txtr(&0x8A7F3683), Some(DoorType::Blue));
    assert_eq!(DoorType::from_txtr(&0xFC095F6C), Some(DoorType::Red));
    assert_eq!(DoorType::from_txtr(&0x12345678), None);
}

#[test]
fn blast_shield_from_str_and_counterpart() {
    assert_eq!(BlastShieldType::from_str("missile"), Some(BlastShieldType::Missile));
    assert_eq!(BlastShieldType::from_str("Power Bombs"), Some(BlastShieldType::PowerBomb));
    assert_eq!(BlastShieldType::from_str("bogus"), None);
    for bs in BlastShieldType::iter() {
        assert_eq!(bs.vulnerability(), bs.door_type_counterpart().vulnerability());
    }
    assert_eq!(BlastShieldType::Missile.door_type_counterpart(), DoorType::Missile);
}

#[test]
fn scan_text_is_never_empty() {
    for bs in BlastShieldType::iter() {
        let lines = bs.scan_text();
        assert!(!lines.is_empty());
        for line in &lines {
            assert!(line.ends_with('\0'));
        }
    }
}

#[test]
fn missile_profile_opens_to_missiles_only() {
    let p = DoorType::Missile.vulnerability();
    assert_eq!(p.missile, VULN_NORMAL);
    assert_eq!(p.power, VULN_REFLECT);
    assert_eq!(p.bomb, VULN_IMMUNE);
    assert_eq!(p.power_bomb, VULN_IMMUNE);
    assert_eq!(p.phazon, VULN_IMMUNE);
}

#[test]
fn catalog_iteration_is_complete_and_unique() {
    let all = DoorType::iter();
    assert_eq!(all.len(), 31);
    for (i, a) in all.iter().enumerate() {
        for b in all.iter().skip(i + 1) {
            assert!(a != b);
        }
    }
}

#[test]
fn map_object_type_matches_color_families() {
    assert_eq!(DoorType::Blue.map_object_type(), MAPA_DOOR_NORMAL);
    assert_eq!(DoorType::Red.map_object_type(), MAPA_DOOR_PLASMA);
    assert_eq!(DoorType::Missile.map_object_type(), MAPA_DOOR_SHIELD);
}
