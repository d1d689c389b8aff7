use meta_timer::meta::MapMetaKind;

#[test]
fn test_meta_iter() {
    let mut meta_iter = MapMetaKind::WorldBosses.into_iter().time(8 * 60 + 41);
    assert_eq!(meta_iter.next().unwrap().schedule.name, "Fire Elemental");
    assert_eq!(meta_iter.next().unwrap().schedule.name, "Admiral Taidha Covington");
    assert_eq!(meta_iter.next().unwrap().schedule.name, "Great Jungle Wurm");
    assert_eq!(meta_iter.next().unwrap().schedule.name, "Megadestroyer");
    assert_eq!(meta_iter.next().unwrap().schedule.name, "Shadow Behemoth");
    assert_eq!(meta_iter.next().unwrap().schedule.name, "The Shatterer");
    assert_eq!(meta_iter.next().unwrap().schedule.name, "Svanir Shaman Chief");
    assert_eq!(meta_iter.next().unwrap().schedule.name, "Modniir Ulgoth");
    assert_eq!(meta_iter.next().unwrap().schedule.name, "Fire Elemental");
    assert_eq!(meta_iter.next().unwrap().schedule.name, "Golem Mark II");
    assert_eq!(meta_iter.next().unwrap().schedule.name, "Great Jungle Wurm");
    assert_eq!(meta_iter.next().unwrap().schedule.name, "Claw of Jormag");
    assert_eq!(meta_iter.next().unwrap().schedule.name, "Shadow Behemoth");
    assert_eq!(meta_iter.next().unwrap().schedule.name, "Admiral Taidha Covington");
    assert_eq!(meta_iter.next().unwrap().schedule.name, "Svanir Shaman Chief");
    assert_eq!(meta_iter.clone().next().unwrap().schedule.name, "Megadestroyer");
    assert_eq!(meta_iter.clone().next().unwrap().schedule.name, "Megadestroyer");
    assert_eq!(meta_iter.clone().next().unwrap().schedule.name, "Megadestroyer");
}

#[test]
fn test_hard_world_bosses() {
    let mut meta_iter = MapMetaKind::HardWorldBosses.into_iter();
    assert_eq!(meta_iter.next().unwrap().schedule.name, "Triple Trouble");
    assert_eq!(meta_iter.next().unwrap().schedule.name, "Karka Queen");
    assert_eq!(meta_iter.next().unwrap().schedule.name, "Tequatl the Sunless");
    assert_eq!(meta_iter.next().unwrap().schedule.name, "Triple Trouble");
    assert_eq!(meta_iter.next().unwrap().schedule.name, "Karka Queen");
    assert_eq!(meta_iter.next().unwrap().schedule.name, "Tequatl the Sunless");
    assert_eq!(meta_iter.next().unwrap().schedule.name, "Triple Trouble");
    assert_eq!(meta_iter.next().unwrap().schedule.name, "Karka Queen");
    assert_eq!(meta_iter.next().unwrap().schedule.name, "Tequatl the Sunless");
    assert_eq!(meta_iter.next().unwrap().schedule.name, "Triple Trouble");
    assert_eq!(meta_iter.next().unwrap().schedule.name, "Karka Queen");
    assert_eq!(meta_iter.next().unwrap().schedule.name, "Tequatl the Sunless");
    assert_eq!(meta_iter.next().unwrap().schedule.name, "Triple Trouble");
    assert_eq!(meta_iter.next().unwrap().schedule.name, "Karka Queen");
    assert_eq!(meta_iter.next().unwrap().schedule.name, "Tequatl the Sunless");
    assert_eq!(meta_iter.next().unwrap().schedule.name, "Triple Trouble");
    assert_eq!(meta_iter.next().unwrap().schedule.name, "Karka Queen");
    assert_eq!(meta_iter.next().unwrap().schedule.name, "Tequatl the Sunless");
    assert_eq!(meta_iter.next().unwrap().schedule.name, "Triple Trouble");
    assert_eq!(meta_iter.next().unwrap().schedule.name, "Karka Queen");
    assert_eq!(meta_iter.next().unwrap().schedule.name, "Tequatl the Sunless");
    assert_eq!(meta_iter.next().unwrap().schedule.name, "Triple Trouble");
    assert_eq!(meta_iter.next().unwrap().schedule.name, "Karka Queen");
}

#[test]
fn test_meta_iter_fns() {
    let mut meta_iter = MapMetaKind::LakeDoric
        .into_iter()
        .time(4 * 60 + 10)
        .fast_forward(60);
    assert_eq!(meta_iter.next().unwrap().schedule.name, "New Loamhurst");
    assert_eq!(meta_iter.next().unwrap().schedule.name, "Noran's Homestead");
}

#[test]
fn test_meta_now() {
    let now = MapMetaKind::LeyLineAnomaly.into_iter().time(0).now();
    assert!(now.is_none());

    let now = MapMetaKind::LeyLineAnomaly.into_iter().time(19).now();
    assert!(now.is_none());

    let now = MapMetaKind::LeyLineAnomaly.into_iter().time(20).now();
    assert!(now.is_some());

    let now = MapMetaKind::LeyLineAnomaly.into_iter().time(40).now();
    assert!(now.is_none());

    let now = MapMetaKind::LeyLineAnomaly.into_iter().time(2 * 60).now();
    assert!(now.is_none());

    let now = MapMetaKind::LeyLineAnomaly.into_iter().time(2 * 60 + 19).now();
    assert!(now.is_none());

    let now = MapMetaKind::LeyLineAnomaly.into_iter().time(2 * 60 + 20).now();
    assert!(now.is_some());

    let now = MapMetaKind::LeyLineAnomaly.into_iter().time(2 * 60 + 40).now();
    assert!(now.is_none());
}
