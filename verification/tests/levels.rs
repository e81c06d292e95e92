use office_fever::level::{advance_level, spawn_plan, CurrentLevel, LevelAssetKind};
use office_fever::level_select::{
    can_enter_level, level_info, level_square_text, select_after_clicks, selection_texts,
    LEVEL_COUNT,
};

#[test]
fn levels_cycle_in_order() {
    let start = CurrentLevel::default();
    assert_eq!(start, CurrentLevel::DayOne);
    assert_eq!(start.next(), CurrentLevel::DayTwo);
    assert_eq!(start.next().next(), CurrentLevel::Train);
    assert_eq!(start.next().next().next(), CurrentLevel::Karoline);
    assert_eq!(start.next().next().next().next(), CurrentLevel::DayOne);
}

#[test]
fn four_advances_return_to_every_level() {
    for level in [CurrentLevel::DayOne, CurrentLevel::DayTwo, CurrentLevel::Train, CurrentLevel::Karoline] {
        assert_eq!(level.next().next().next().next(), level);
        assert_ne!(level.next(), level);
    }
}

#[test]
fn advancing_loads_the_next_levels_assets() {
    assert_eq!(advance_level(CurrentLevel::DayOne), (LevelAssetKind::Two, CurrentLevel::DayTwo));
    assert_eq!(advance_level(CurrentLevel::DayTwo), (LevelAssetKind::Train, CurrentLevel::Train));
    assert_eq!(advance_level(CurrentLevel::Train), (LevelAssetKind::Karoline, CurrentLevel::Karoline));
    assert_eq!(advance_level(CurrentLevel::Karoline), (LevelAssetKind::Main, CurrentLevel::DayOne));
    for level in [CurrentLevel::DayOne, CurrentLevel::DayTwo, CurrentLevel::Train, CurrentLevel::Karoline] {
        let (assets, next) = advance_level(level);
        assert_eq!(spawn_plan(next).scene_assets, assets);
    }
}

#[test]
fn spawn_plans() {
    let one = spawn_plan(CurrentLevel::DayOne);
    assert!(one.clock_in_objective && !one.landscape);
    assert_eq!(one.navmesh_assets, LevelAssetKind::Main);
    let two = spawn_plan(CurrentLevel::DayTwo);
    assert!(two.clock_in_objective && two.landscape);
    assert_eq!(two.scene_assets, LevelAssetKind::Two);
    assert_eq!(two.navmesh_assets, LevelAssetKind::Main);
    let train = spawn_plan(CurrentLevel::Train);
    assert!(!train.clock_in_objective && !train.landscape);
    assert_eq!(train.navmesh_assets, LevelAssetKind::Train);
    let k = spawn_plan(CurrentLevel::Karoline);
    assert_eq!(k.scene_assets, LevelAssetKind::Karoline);
}

#[test]
fn level_table() {
    assert_eq!(LEVEL_COUNT, 6);
    let first = level_info(0);
    assert_eq!(first.name, "LEVEL 1");
    assert!(!first.locked);
    let last = level_info(5);
    assert_eq!(last.name, "LEVEL 6");
    assert_eq!(last.objective, "Placeholder objective for level 6");
    assert!(last.locked);
}

#[test]
fn only_the_first_level_is_open() {
    assert!(can_enter_level(0));
    for idx in 1..LEVEL_COUNT {
        assert!(!can_enter_level(idx));
    }
}

#[test]
fn square_labels() {
    assert_eq!(level_square_text(0), "L1");
    assert_eq!(level_square_text(1), "???");
}

#[test]
fn selection_texts_of_open_and_locked_levels() {
    let (name, objective, description) = selection_texts(0);
    assert_eq!(name, "LEVEL 1");
    assert_eq!(objective, "OBJECTIVE: Placeholder objective for level 1");
    assert_eq!(
        description,
        "Placeholder description for level 1. This text will be replaced with actual level details."
    );
    let (name, objective, description) = selection_texts(3);
    assert_eq!(name, "???");
    assert_eq!(objective, "OBJECTIVE: ???");
    assert_eq!(description, "Locked level. Complete previous levels to unlock.");
}

#[test]
fn last_click_selects() {
    assert_eq!(select_after_clicks(2, &vec![]), 2);
    assert_eq!(select_after_clicks(2, &vec![4, 1]), 1);
}
