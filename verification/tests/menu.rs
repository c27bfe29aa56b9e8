use asteroids::menu::{
    clamp_title_selection, mode_hint, title_index, title_item, title_items, title_label, title_rows,
    MenuBuild, TitleItem,
};
use asteroids::types::{AsteroidsGame, ChaosMode, GameMode, GameState};

#[test]
fn every_mode_has_a_hint() {
    for mode in ChaosMode::all() {
        assert!(!mode_hint(mode).is_empty(), "{mode:?} needs a mode-select hint");
    }
}

#[test]
fn mode_hints_read_as_written() {
    assert_eq!(mode_hint(ChaosMode::Insane), "Rocks fly 60% faster and mercy is brief.");
    assert_eq!(mode_hint(ChaosMode::Normal), "The classic belt. Rocks split, you drift.");
}

#[test]
fn title_rows_and_indices_agree() {
    for build in [MenuBuild::Desktop, MenuBuild::Web] {
        let items = title_items(build);
        assert_eq!(items.len(), title_rows(build) as usize);
        for (row, item) in items.iter().enumerate() {
            assert_eq!(title_index(build, *item) as usize, row);
            assert_eq!(title_item(build, row as u8), *item);
        }
    }
    assert_eq!(title_index(MenuBuild::Desktop, TitleItem::Achievements), 2);
    assert_eq!(title_label(TitleItem::TwoPlayerCoop), "2 Player Co-op");
    assert_eq!(title_label(TitleItem::Exit), "Exit");
}

#[test]
fn out_of_range_title_selection_clamps() {
    assert_eq!(clamp_title_selection(MenuBuild::Desktop, 2), 2);
    assert_eq!(clamp_title_selection(MenuBuild::Desktop, 3), 3);
    assert_eq!(clamp_title_selection(MenuBuild::Desktop, 9), 3);
    assert_eq!(clamp_title_selection(MenuBuild::Web, 3), 2);
}

#[test]
fn web_title_menu_leaves_out_achievements() {
    assert_eq!(
        title_items(MenuBuild::Web),
        vec![TitleItem::OnePlayer, TitleItem::TwoPlayerCoop, TitleItem::Exit]
    );
    assert_eq!(title_rows(MenuBuild::Desktop), 4);
    assert_eq!(title_rows(MenuBuild::Web), 3);
    assert_eq!(title_index(MenuBuild::Web, TitleItem::Exit), 2);
    assert_eq!(title_index(MenuBuild::Web, TitleItem::Achievements), 0);
    let mut game = AsteroidsGame::default();
    assert!(game.apply_title_input(MenuBuild::Web, 2, true));
    assert_eq!(game.state, GameState::TitleScreen { selection: 2 });
    game.leave_achievements(MenuBuild::Web);
    assert_eq!(game.state, GameState::TitleScreen { selection: 0 });
}

#[test]
fn confirming_title_rows() {
    let mut game = AsteroidsGame::default();
    assert!(!game.apply_title_input(MenuBuild::Desktop, 1, false));
    assert_eq!(game.state, GameState::TitleScreen { selection: 1 });
    assert!(!game.apply_title_input(MenuBuild::Desktop, 1, true));
    assert_eq!(game.mode, GameMode::TwoPlayerCoop);
    assert_eq!(game.state, GameState::ModeSelect { selection: 0 });

    let mut game = AsteroidsGame::default();
    assert!(!game.apply_title_input(MenuBuild::Desktop, 2, true));
    assert_eq!(game.state, GameState::Achievements);
    game.leave_achievements(MenuBuild::Desktop);
    assert_eq!(game.state, GameState::TitleScreen { selection: 2 });

    let mut game = AsteroidsGame::default();
    assert!(game.apply_title_input(MenuBuild::Desktop, 3, true));
    assert_eq!(game.state, GameState::TitleScreen { selection: 3 });
}

#[test]
fn mode_select_back_and_confirm() {
    let mut game = AsteroidsGame::default();
    assert!(!game.apply_mode_select_input(2, false, false));
    assert_eq!(game.state, GameState::ModeSelect { selection: 2 });
    assert_eq!(game.chaos_mode, ChaosMode::Normal);
    assert!(!game.apply_mode_select_input(2, true, true));
    assert_eq!(game.state, GameState::TitleScreen { selection: 0 });
    assert!(game.apply_mode_select_input(3, false, true));
    assert_eq!(game.chaos_mode, ChaosMode::Insiculous);
}

#[test]
fn mode_select_back_with_any_row() {
    let mut game = AsteroidsGame::default();
    assert!(!game.apply_mode_select_input(7, true, true));
    assert_eq!(game.state, GameState::TitleScreen { selection: 0 });
    assert!(!game.apply_mode_select_input(9, false, false));
    assert_eq!(game.state, GameState::ModeSelect { selection: 9 });
    assert_eq!(game.chaos_mode, ChaosMode::Normal);
}
