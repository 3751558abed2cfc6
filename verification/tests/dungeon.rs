use gw2_dungeons::dungeon::Dungeon;
use gw2_dungeons::dungeon::Path;

#[test]
fn all_dungeons() {
    assert_eq!(Dungeon::all().len(), 8);
}

#[test]
fn all_paths() {
    assert_eq!(Path::all().len(), 33);
}

#[test]
fn from_id() {
    assert_eq!(Path::from_id("coe_story").unwrap().id(), "coe_story");
    assert!(Path::from_id("bad_id").is_none());
}

#[test]
fn from_dungeon_frequenter_index() {
    assert_eq!(
        Path::from_dungeon_frequenter_index(5)
            .unwrap()
            .dungeon_frequenter_index(),
        Some(5)
    );
    assert!(Path::from_dungeon_frequenter_index(100).is_none());
}

#[test]
fn ac_story_rewards() {
    let path = Path::from_id("ac_story").unwrap();

    assert_eq!(13_00, path.coins());
    assert_eq!(13_00, path.repeat_coins());

    assert_eq!(0, path.tokens());
    assert_eq!(0, path.repeat_tokens());
}

#[test]
fn ac_p1_rewards() {
    let path = Path::from_id("hodgins").unwrap();

    assert_eq!(50_00 + 26_00, path.coins());
    assert_eq!(26_00, path.repeat_coins());

    assert_eq!(100, path.tokens());
    assert_eq!(20, path.repeat_tokens());
}

/// Looking a path up by its own id finds it, for every path, and it
/// occurs exactly once in the flattened catalogue.
#[test]
fn from_id_every_path() {
    for path in Path::all() {
        let found = Path::from_id(path.id()).unwrap();
        assert_eq!(found.id(), path.id());
        let occurrences = Path::all().iter().filter(|p| p.id() == path.id()).count();
        assert_eq!(1, occurrences, "path: {}", path.id());
    }
}

/// Every path is found among the paths of its own dungeon.
#[test]
fn path_in_its_dungeon() {
    for path in Path::all() {
        let dungeon = path.dungeon();
        assert!(
            dungeon.paths().iter().any(|p| p.id() == path.id()),
            "path: {}",
            path.id()
        );
    }
}

/// The rotation indices over the whole catalogue are exactly the
/// interval below thirty-two, with no duplicates; only one path takes
/// no part in the rotation.
#[test]
fn rotation_indices_cover_space() {
    let mut seen = [false; 32];
    let mut unassigned = 0;
    for path in Path::all() {
        match path.dungeon_frequenter_index() {
            Some(i) => {
                assert!(i < 32, "path: {}", path.id());
                assert!(!seen[i as usize], "path: {}", path.id());
                seen[i as usize] = true;
            }
            None => unassigned += 1,
        }
    }
    assert!(seen.iter().all(|&b| b));
    assert_eq!(1, unassigned);
}

/// The dungeon getters hand back the catalogue entry's fields.
#[test]
fn dungeon_getters() {
    let dungeons = Dungeon::all();
    let ac = &dungeons[0];
    assert_eq!("Ascalonian Catacombs", ac.name());
    assert_eq!("ac", ac.short_name());
    assert_eq!(1725, ac.collection_id());
    assert_eq!(5, ac.currency_id());
    assert_eq!(4, ac.paths().len());
    let arah = &dungeons[7];
    assert_eq!("The Ruined City of Arah", arah.name());
    assert_eq!(5, arah.paths().len());
}
