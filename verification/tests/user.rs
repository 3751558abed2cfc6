use gw2_dungeons::dungeon::Path;
use gw2_dungeons::dungeon::UserProgress;

#[test]
fn ran_none() {
    let info = UserProgress::new();
    for path in Path::all() {
        // all paths that can give progress do
        assert_eq!(
            path.dungeon_frequenter_index().is_some(),
            info.gives_dungeon_frequenter_credit(&path),
            "path: {}",
            path.id()
        );
        // not ran any paths today
        assert!(!info.has_ran_today(&path), "path: {}", path.id());
    }
}

#[test]
fn ran_one() {
    for path in Path::all() {
        let mut info = UserProgress::new();
        info.run_path(&path);

        assert!(
            !info.gives_dungeon_frequenter_credit(&path),
            "path: {}",
            path.id()
        );
        assert!(info.has_ran_today(&path), "path: {}", path.id());
        if path.dungeon_frequenter_index().is_some() {
            assert_eq!(1, info.rotation_filled_count());
        } else {
            assert_eq!(0, info.rotation_filled_count());
        }
    }
}

#[test]
fn ran_one_yesterday() {
    let mut info = UserProgress::new();
    let ran_path = Path::from_id("ac_story").unwrap();
    info.run_path(&ran_path);
    info.daily_reset();

    assert!(!info.has_ran_today(&ran_path));
    assert!(!info.gives_dungeon_frequenter_credit(&ran_path));
}

#[test]
fn frequenter_finished() {
    let mut info = UserProgress::new();
    [
        "ac_story", "hodgins", "detha", "tzark", "cm_story", "asura", "seraph", "butler",
        "ta_story",
    ]
    .iter()
    .map(|id| Path::from_id(id).unwrap())
    .for_each(|path| info.run_path(&path));

    // dungeon frequenter should have completed right before ta_story,
    // so only ta_story should be in the dungeon frequenter set.
    assert_eq!(1, info.rotation_filled_count());
    let ta_story = Path::from_id("ta_story").unwrap();
    assert!(!info.gives_dungeon_frequenter_credit(&ta_story));
}

#[test]
fn daily_reset() {
    let mut info = UserProgress::new();
    let path = Path::from_id("ac_story").unwrap();
    info.run_path(&path);
    info.daily_reset();

    assert!(!info.has_ran_today(&path));
}

/// Starting from an empty tracker, a path with an open rotation slot is
/// owed credit before it is run and none immediately after.
#[test]
fn credit_flips_on_first_run() {
    let mut info = UserProgress::new();
    let ac_story = Path::from_id("ac_story").unwrap();
    assert!(info.gives_dungeon_frequenter_credit(&ac_story));
    info.run_path(&ac_story);
    assert!(info.has_ran_today(&ac_story));
    assert!(!info.gives_dungeon_frequenter_credit(&ac_story));
}

/// Running a path twice in a day changes nothing the second time.
#[test]
fn run_twice_is_idempotent() {
    let mut info = UserProgress::new();
    let hodgins = Path::from_id("hodgins").unwrap();
    info.run_path(&hodgins);
    info.run_path(&hodgins);
    assert!(info.has_ran_today(&hodgins));
    assert_eq!(1, info.rotation_filled_count());
}

/// A path stays "ran today" through any further runs, until the reset.
#[test]
fn ran_today_is_monotone() {
    let mut info = UserProgress::new();
    let first = Path::from_id("ac_story").unwrap();
    info.run_path(&first);
    for id in ["hodgins", "detha", "seer", "arah_story"] {
        info.run_path(&Path::from_id(id).unwrap());
        assert!(info.has_ran_today(&first));
    }
    info.daily_reset();
    assert!(!info.has_ran_today(&first));
}

/// Running all thirty-two rotation-eligible paths wraps the cycle four
/// times and ends with it empty; the next eligible run is owed credit
/// and becomes the sole filled slot.
#[test]
fn rotation_full_cycle() {
    let mut info = UserProgress::new();
    let eligible: Vec<Path> = Path::all()
        .into_iter()
        .filter(|p| p.dungeon_frequenter_index().is_some())
        .collect();
    assert_eq!(32, eligible.len());
    for path in &eligible {
        assert!(info.gives_dungeon_frequenter_credit(path), "path: {}", path.id());
        info.run_path(path);
    }
    assert_eq!(0, info.rotation_filled_count());
    let again = &eligible[0];
    assert!(info.gives_dungeon_frequenter_credit(again));
    info.run_path(again);
    assert_eq!(1, info.rotation_filled_count());
    assert!(!info.gives_dungeon_frequenter_credit(again));
}

/// A snapshot of fetched progress restores both sets.
#[test]
fn snapshot_restores_state() {
    let info = UserProgress::from_snapshot(
        vec!["ac_story".to_string(), "hodgins".to_string()],
        vec![4, 5],
    );
    let ac_story = Path::from_id("ac_story").unwrap();
    let hodgins = Path::from_id("hodgins").unwrap();
    let detha = Path::from_id("detha").unwrap();
    assert!(info.has_ran_today(&ac_story));
    assert!(info.has_ran_today(&hodgins));
    assert!(!info.has_ran_today(&detha));
    assert_eq!(2, info.rotation_filled_count());
    assert!(!info.gives_dungeon_frequenter_credit(&ac_story));
    assert!(info.gives_dungeon_frequenter_credit(&detha));
}
