use azookey_windows::engine::engine_health::{menu_notice, EngineHealth};
use azookey_windows::engine::input_mode::InputMode;
use azookey_windows::tsf::langbar_menu::{
    build_menu, from_id, id, menu_entries, mode_id_range, mode_of, picked, MenuEntry, MenuItem,
    MenuRow,
};

const EVERY_ITEM: [MenuItem; 3] = [MenuItem::Kana, MenuItem::Latin, MenuItem::Settings];

#[test]
fn every_item_survives_the_round_trip_through_its_command_id() {
    for item in EVERY_ITEM {
        assert_eq!(from_id(id(item)), Some(item));
    }
}

#[test]
fn an_item_turns_on_the_mode_that_it_names() {
    assert_eq!(mode_of(MenuItem::Kana), Some(InputMode::Kana));
    assert_eq!(mode_of(MenuItem::Latin), Some(InputMode::Latin));
    assert_eq!(mode_of(MenuItem::Settings), None);
}

#[test]
fn every_item_has_its_own_command_id() {
    let mut ids: Vec<u32> = EVERY_ITEM.iter().map(|item| id(*item)).collect();
    let count = ids.len();
    ids.sort_unstable();
    ids.dedup();
    assert_eq!(ids.len(), count, "two menu items share a command id");
}

#[test]
fn an_id_we_never_handed_out_is_not_an_item() {
    assert_eq!(from_id(0), None);
    assert_eq!(from_id(u32::MAX), None);

    let unused = EVERY_ITEM.iter().map(|item| id(*item)).max().unwrap() + 1;
    assert_eq!(from_id(unused), None);
}

#[test]
fn the_radio_range_covers_the_modes_and_nothing_else() {
    let (first, last) = mode_id_range();
    assert!(first <= last);

    for item in EVERY_ITEM {
        let inside = (first..=last).contains(&id(item));
        let is_mode = matches!(item, MenuItem::Kana | MenuItem::Latin);
        assert_eq!(
            inside, is_mode,
            "{item:?} is on the wrong side of the range"
        );
    }
}

fn labels(entries: &[MenuEntry]) -> Vec<&'static str> {
    entries
        .iter()
        .filter_map(|entry| match entry {
            MenuEntry::Mode { label, .. } | MenuEntry::Command { label, .. } => Some(*label),
            MenuEntry::Notice(text) => Some(*text),
            MenuEntry::Separator => None,
        })
        .collect()
}

fn bulleted(entries: &[MenuEntry]) -> Vec<MenuItem> {
    entries
        .iter()
        .filter_map(|entry| match entry {
            MenuEntry::Mode { item, current, .. } if *current => Some(*item),
            MenuEntry::Mode { .. }
            | MenuEntry::Command { .. }
            | MenuEntry::Separator
            | MenuEntry::Notice(_) => None,
        })
        .collect()
}

#[test]
fn the_mode_we_are_in_is_the_one_that_is_bulleted() {
    for (mode, expected) in [
        (InputMode::Kana, MenuItem::Kana),
        (InputMode::Latin, MenuItem::Latin),
    ] {
        let entries = menu_entries(mode, EngineHealth::Reachable);
        assert_eq!(bulleted(&entries), vec![expected], "for {mode:?}");
    }
}

#[test]
fn both_modes_and_the_settings_item_are_offered() {
    let entries = menu_entries(InputMode::Kana, EngineHealth::Reachable);
    let items: Vec<MenuItem> = entries
        .iter()
        .filter_map(|entry| match entry {
            MenuEntry::Mode { item, .. } | MenuEntry::Command { item, .. } => Some(*item),
            MenuEntry::Separator | MenuEntry::Notice(_) => None,
        })
        .collect();

    assert_eq!(
        items,
        vec![MenuItem::Kana, MenuItem::Latin, MenuItem::Settings]
    );
}

#[test]
fn a_healthy_engine_adds_nothing_to_the_menu() {
    for health in [EngineHealth::Reachable, EngineHealth::Unknown] {
        let entries = menu_entries(InputMode::Kana, health);
        assert_eq!(
            labels(&entries).len(),
            3,
            "{health:?} should add no row: {entries:?}"
        );
    }
}

#[test]
fn an_unreachable_engine_is_said_out_loud_at_the_top() {
    let entries = menu_entries(InputMode::Kana, EngineHealth::Unreachable);

    assert_eq!(
        entries.first(),
        Some(&MenuEntry::Notice(
            menu_notice(EngineHealth::Unreachable).unwrap()
        ))
    );
    assert_eq!(labels(&entries).len(), 4);
}

#[test]
fn the_rows_follow_the_entries_and_one_is_marked() {
    let entries = menu_entries(InputMode::Latin, EngineHealth::Unreachable);
    let (rows, marked) = build_menu(&entries);
    assert_eq!(rows.len(), entries.len());
    assert_eq!(marked, Some(id(MenuItem::Latin)));
    assert_eq!(
        rows[0],
        MenuRow::Grayed(menu_notice(EngineHealth::Unreachable).unwrap())
    );
    assert!(rows.contains(&MenuRow::Separator));
}

#[test]
fn a_dismissed_menu_picks_nothing() {
    assert_eq!(picked(0), None);
    assert_eq!(picked(-1), None);
    assert_eq!(picked(id(MenuItem::Settings) as i32), Some(MenuItem::Settings));
}
