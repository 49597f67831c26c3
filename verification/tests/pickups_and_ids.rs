use randomprime::ids;
use randomprime::ids::ResKey;
use randomprime::pickup_meta::{PickupType, PICKUP_TYPE_COUNT};
use randomprime::scly::IdAllocator;

#[test]
fn pickup_index_round_trips() {
    for pt in PickupType::iter() {
        let idx = pt.idx();
        assert!(idx < PICKUP_TYPE_COUNT);
        assert_eq!(PickupType::from_idx(idx), Some(pt));
    }
    assert_eq!(PickupType::from_idx(37), None);
    assert_eq!(PickupType::from_idx(1000), None);
}

#[test]
fn shiny_missile_shares_the_missile_slot() {
    assert_eq!(PickupType::ShinyMissile.idx(), PickupType::Missile.idx());
    assert_eq!(
        PickupType::from_idx(PickupType::ShinyMissile.idx()),
        Some(PickupType::Missile)
    );
}

#[test]
fn artifacts_are_exactly_the_artifact_block() {
    for pt in PickupType::iter() {
        let expected = pt.idx() >= 23 && pt.idx() <= 34;
        assert_eq!(pt.is_artifact(), expected);
    }
    assert!(PickupType::ArtifactOfTruth.is_artifact());
    assert!(!PickupType::PhazonSuit.is_artifact());
}

#[test]
fn pickup_names_are_distinct() {
    let all = PickupType::iter();
    for (i, a) in all.iter().enumerate() {
        for b in all.iter().skip(i + 1) {
            assert_ne!(a.name(), b.name());
        }
    }
    assert_eq!(PickupType::PhazonSuit.name(), "Phazon Suit");
}

#[test]
fn skip_hudmemo_ids_sit_in_the_reserved_block() {
    for pt in PickupType::iter() {
        let id = pt.skip_hudmemos_strg();
        assert!(id >= ids::SKIP_HUDMEMO_STRG_START);
        assert!(id < ids::SKIP_HUDMEMO_STRG_END);
        assert!(randomprime::ids::is_custom_asset(id));
    }
    assert_eq!(
        PickupType::Missile.skip_hudmemos_strg(),
        ids::SKIP_HUDMEMO_STRG_START
    );
}

#[test]
fn custom_asset_threshold_separates_id_spaces() {
    assert!(ids::is_custom_asset(ids::CUSTOM_ASSET_ID_BASE));
    assert!(ids::is_custom_asset(ids::POWER_BOMB_DOOR_CMDL));
    assert!(!ids::is_custom_asset(0x0734977A));
    assert!(!ids::is_custom_asset(0));
}

#[test]
fn fresh_ids_never_collide_with_existing_instances() {
    let existing: Vec<u32> = vec![3, 17, 4096, 90000, 1048869];
    let max = *existing.iter().max().unwrap();
    let mut alloc = IdAllocator::new_above(max);
    let mut seen = Vec::new();
    for _ in 0..10000 {
        let id = alloc.fresh();
        assert!(!existing.contains(&id));
        seen.push(id);
    }
    for w in seen.windows(2) {
        assert!(w[0] < w[1]);
    }
}

#[test]
fn push_unique_filters_sentinels_and_duplicates() {
    let mut deps: Vec<ResKey> = Vec::new();
    randomprime::ids::push_unique(&mut deps, ResKey::new(5, ids::FOURCC_TXTR));
    randomprime::ids::push_unique(&mut deps, ResKey::new(0, ids::FOURCC_TXTR));
    randomprime::ids::push_unique(&mut deps, ResKey::new(0xFFFFFFFF, ids::FOURCC_TXTR));
    randomprime::ids::push_unique(&mut deps, ResKey::new(5, ids::FOURCC_TXTR));
    randomprime::ids::push_unique(&mut deps, ResKey::new(5, ids::FOURCC_CMDL));
    assert_eq!(deps.len(), 2);
    assert_eq!(deps[0], ResKey::new(5, ids::FOURCC_TXTR));
    assert_eq!(deps[1], ResKey::new(5, ids::FOURCC_CMDL));
}
