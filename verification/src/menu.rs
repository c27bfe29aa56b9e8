//! Menu screens: the rows of the title menu, their labels, the chaos-mode
//! hints, and what confirming a row does.

use vstd::prelude::*;
use crate::types::{chaos_mode_at, spec_player_count, AsteroidsGame, ChaosMode, GameMode, GameState};

verus! {

/// Title-screen menu entries. Input hit-testing and drawing both derive
/// rows from `title_items`, so keyboard, mouse and the drawn panel can
/// never disagree about what row N is.
#[derive(Clone, Copy, Debug, PartialEq, Eq, Structural)]
pub enum TitleItem {
    OnePlayer,
    TwoPlayerCoop,
    Achievements,
    Exit,
}

/// Which build's title menu. The desktop build offers the achievements
/// page in-game; on the web that page lives on the site (it reads the
/// shared save), so the web menu leaves the entry out.
#[derive(Clone, Copy, Debug, PartialEq, Eq, Structural)]
pub enum MenuBuild {
    Desktop,
    Web,
}

/// Rows of the title menu of `build`.
pub open spec fn spec_title_rows(build: MenuBuild) -> u8 {
    match build {
        MenuBuild::Desktop => 4,
        MenuBuild::Web => 3,
    }
}

/// Whether the title menu of `build` offers `item`.
pub open spec fn offers(build: MenuBuild, item: TitleItem) -> bool {
    !(build == MenuBuild::Web && item == TitleItem::Achievements)
}

/// The entry on row `row` of the title menu of `build`.
pub open spec fn title_item_at(build: MenuBuild, row: int) -> TitleItem {
    if row == 0 {
        TitleItem::OnePlayer
    } else if row == 1 {
        TitleItem::TwoPlayerCoop
    } else if row == 2 && build == MenuBuild::Desktop {
        TitleItem::Achievements
    } else {
        TitleItem::Exit
    }
}

/// The row of `item` on the title menu of `build`; an entry that menu does
/// not offer falls back to the first row.
pub open spec fn spec_title_index(build: MenuBuild, item: TitleItem) -> u8 {
    match item {
        TitleItem::OnePlayer => 0,
        TitleItem::TwoPlayerCoop => 1,
        TitleItem::Achievements => if build == MenuBuild::Desktop {
            2
        } else {
            0
        },
        TitleItem::Exit => (spec_title_rows(build) - 1) as u8,
    }
}

/// Row index and entry agree both ways: every entry a menu offers sits on
/// exactly one of its rows, and every row holds exactly one offered entry.
pub proof fn title_rows_round_trip(build: MenuBuild, item: TitleItem, row: u8)
    ensures
        offers(build, item) ==> title_item_at(build, spec_title_index(build, item) as int) == item
            && spec_title_index(build, item) < spec_title_rows(build),
        row < spec_title_rows(build) ==> offers(build, title_item_at(build, row as int))
            && spec_title_index(build, title_item_at(build, row as int)) == row,
{
}

/// Rows of the title menu of `build`.
pub fn title_rows(build: MenuBuild) -> (rows: u8)
    ensures
        rows == spec_title_rows(build),
{
    match build {
        MenuBuild::Desktop => 4,
        MenuBuild::Web => 3,
    }
}

/// The entries of the title menu of `build`, in row order.
pub fn title_items(build: MenuBuild) -> (items: Vec<TitleItem>)
    ensures
        items@.len() == spec_title_rows(build),
        forall|i: int| 0 <= i < items@.len() ==> items@[i] == title_item_at(build, i),
{
    match build {
        MenuBuild::Desktop => vec![
            TitleItem::OnePlayer,
            TitleItem::TwoPlayerCoop,
            TitleItem::Achievements,
            TitleItem::Exit,
        ],
        MenuBuild::Web => vec![TitleItem::OnePlayer, TitleItem::TwoPlayerCoop, TitleItem::Exit],
    }
}

/// The entry on row `row` of the title menu of `build`.
pub fn title_item(build: MenuBuild, row: u8) -> (item: TitleItem)
    requires
        row < spec_title_rows(build),
    ensures
        item == title_item_at(build, row as int),
{
    if row == 0 {
        TitleItem::OnePlayer
    } else if row == 1 {
        TitleItem::TwoPlayerCoop
    } else if row == 2 && build == MenuBuild::Desktop {
        TitleItem::Achievements
    } else {
        TitleItem::Exit
    }
}

/// Row index of `item` on the title menu of `build` (the first row for an
/// entry that menu does not offer).
pub fn title_index(build: MenuBuild, item: TitleItem) -> (row: u8)
    ensures
        row == spec_title_index(build, item),
{
    match item {
        TitleItem::OnePlayer => 0,
        TitleItem::TwoPlayerCoop => 1,
        TitleItem::Achievements => if build == MenuBuild::Desktop {
            2
        } else {
            0
        },
        TitleItem::Exit => title_rows(build) - 1,
    }
}

pub open spec fn spec_title_label(item: TitleItem) -> Seq<char> {
    match item {
        TitleItem::OnePlayer => "1 Player"@,
        TitleItem::TwoPlayerCoop => "2 Player Co-op"@,
        TitleItem::Achievements => "Achievements"@,
        TitleItem::Exit => "Exit"@,
    }
}

/// The text drawn for a title-menu entry.
pub fn title_label(item: TitleItem) -> (label: &'static str)
    ensures
        label@ == spec_title_label(item),
{
    match item {
        TitleItem::OnePlayer => "1 Player",
        TitleItem::TwoPlayerCoop => "2 Player Co-op",
        TitleItem::Achievements => "Achievements",
        TitleItem::Exit => "Exit",
    }
}

pub open spec fn spec_mode_hint(mode: ChaosMode) -> Seq<char> {
    match mode {
        ChaosMode::Normal => "The classic belt. Rocks split, you drift."@,
        ChaosMode::Insane => "Rocks fly 60% faster and mercy is brief."@,
        ChaosMode::Ridiculous => "Big rocks shatter into three - and bring a friend."@,
        ChaosMode::Insiculous => "Triple splits, extra rocks, everything faster."@,
    }
}

/// One-line description of what each chaos mode means in this game; no
/// mode is left without one.
pub fn mode_hint(mode: ChaosMode) -> (hint: &'static str)
    ensures
        hint@ == spec_mode_hint(mode),
        hint@.len() > 0,
{
    match mode {
        ChaosMode::Normal => {
            proof {
                reveal_strlit("The classic belt. Rocks split, you drift.");
            }
            "The classic belt. Rocks split, you drift."
        },
        ChaosMode::Insane => {
            proof {
                reveal_strlit("Rocks fly 60% faster and mercy is brief.");
            }
            "Rocks fly 60% faster and mercy is brief."
        },
        ChaosMode::Ridiculous => {
            proof {
                reveal_strlit("Big rocks shatter into three - and bring a friend.");
            }
            "Big rocks shatter into three - and bring a friend."
        },
        ChaosMode::Insiculous => {
            proof {
                reveal_strlit("Triple splits, extra rocks, everything faster.");
            }
            "Triple splits, extra rocks, everything faster."
        },
    }
}

/// A stored title selection out of range (e.g. from the longer menu)
/// clamps to the last row instead of indexing past the menu.
pub fn clamp_title_selection(build: MenuBuild, selection: u8) -> (row: u8)
    ensures
        row == if selection < spec_title_rows(build) {
            selection
        } else {
            (spec_title_rows(build) - 1) as u8
        },
{
    let rows = title_rows(build);
    if selection < rows {
        selection
    } else {
        rows - 1
    }
}

/// What confirming a title row leads to.
pub open spec fn title_confirmed(
    before: AsteroidsGame,
    after: AsteroidsGame,
    build: MenuBuild,
    row: u8,
) -> bool {
    match title_item_at(build, row as int) {
        TitleItem::OnePlayer => after.mode == GameMode::SinglePlayer && after.state
            == (GameState::ModeSelect { selection: 0 }),
        TitleItem::TwoPlayerCoop => after.mode == GameMode::TwoPlayerCoop && after.state
            == (GameState::ModeSelect { selection: 0 }),
        TitleItem::Achievements => after.mode == before.mode && after.state
            == GameState::Achievements,
        TitleItem::Exit => after.mode == before.mode && after.state == (GameState::TitleScreen {
            selection: row,
        }),
    }
}

/// Confirming a player-count row fixes the number of ships of the next
/// match, whatever mode the game was in before: "1 Player" gives one ship,
/// "2 Player Co-op" two, and both lead to mode select. The other rows keep
/// the mode. On every build the first row is "1 Player" and the second
/// "2 Player Co-op".
pub proof fn player_rows_set_the_ship_count(
    before: AsteroidsGame,
    after: AsteroidsGame,
    build: MenuBuild,
    row: u8,
)
    requires
        title_confirmed(before, after, build, row),
    ensures
        title_item_at(build, 0) == TitleItem::OnePlayer,
        title_item_at(build, 1) == TitleItem::TwoPlayerCoop,
        title_item_at(build, row as int) == TitleItem::OnePlayer ==> spec_player_count(after.mode)
            == 1 && after.state == (GameState::ModeSelect { selection: 0 }),
        title_item_at(build, row as int) == TitleItem::TwoPlayerCoop ==> spec_player_count(
            after.mode,
        ) == 2 && after.state == (GameState::ModeSelect { selection: 0 }),
        row >= 2 ==> after.mode == before.mode,
{
}

impl AsteroidsGame {
    /// The title screen with row `selection` highlighted; on confirm the
    /// entry takes effect: a player count leads to mode select, the
    /// achievements entry to that page, and Exit asks to quit (`true`).
    pub fn apply_title_input(&mut self, build: MenuBuild, selection: u8, confirm: bool) -> (exit_requested: bool)
        requires
            selection < spec_title_rows(build),
        ensures
            exit_requested == (confirm && title_item_at(build, selection as int) == TitleItem::Exit),
            confirm ==> title_confirmed(*old(self), *final(self), build, selection),
            confirm && selection == 0 ==> final(self).mode == GameMode::SinglePlayer,
            confirm && selection == 1 ==> final(self).mode == GameMode::TwoPlayerCoop,
            !confirm ==> final(self).state == (GameState::TitleScreen { selection })
                && final(self).mode == old(self).mode,
            final(self).ships@ == old(self).ships@,
            final(self).asteroids@ == old(self).asteroids@,
            final(self).wave == old(self).wave,
            final(self).spawn_counter == old(self).spawn_counter,
            final(self).waves_without_death == old(self).waves_without_death,
            final(self).chaos_mode == old(self).chaos_mode,
    {
        self.state = GameState::TitleScreen { selection };
        if confirm {
            match title_item(build, selection) {
                TitleItem::OnePlayer => {
                    self.mode = GameMode::SinglePlayer;
                    self.state = GameState::ModeSelect { selection: 0 };
                },
                TitleItem::TwoPlayerCoop => {
                    self.mode = GameMode::TwoPlayerCoop;
                    self.state = GameState::ModeSelect { selection: 0 };
                },
                TitleItem::Achievements => {
                    self.state = GameState::Achievements;
                },
                TitleItem::Exit => {
                    return true;
                },
            }
        }
        false
    }

    /// Leave the achievements page, back to the title with its row highlighted.
    pub fn leave_achievements(&mut self, build: MenuBuild)
        ensures
            final(self).state == (GameState::TitleScreen {
                selection: spec_title_index(build, TitleItem::Achievements),
            }),
            final(self).ships@ == old(self).ships@,
            final(self).asteroids@ == old(self).asteroids@,
            final(self).mode == old(self).mode,
            final(self).wave == old(self).wave,
            final(self).spawn_counter == old(self).spawn_counter,
            final(self).waves_without_death == old(self).waves_without_death,
            final(self).chaos_mode == old(self).chaos_mode,
    {
        self.state = GameState::TitleScreen { selection: title_index(build, TitleItem::Achievements) };
    }

    /// The mode-select screen with row `selection` highlighted; back
    /// returns to the title, confirm picks that chaos mode and asks to
    /// start the match (`true`).
    pub fn apply_mode_select_input(&mut self, selection: u8, back: bool, confirm: bool) -> (start: bool)
        requires
            !back && confirm ==> selection < 4,
        ensures
            start == (!back && confirm),
            final(self).state == if back {
                GameState::TitleScreen { selection: 0 }
            } else {
                GameState::ModeSelect { selection }
            },
            final(self).chaos_mode == if start {
                chaos_mode_at(selection as int)
            } else {
                old(self).chaos_mode
            },
            final(self).ships@ == old(self).ships@,
            final(self).asteroids@ == old(self).asteroids@,
            final(self).mode == old(self).mode,
            final(self).wave == old(self).wave,
            final(self).spawn_counter == old(self).spawn_counter,
            final(self).waves_without_death == old(self).waves_without_death,
    {
        self.state = GameState::ModeSelect { selection };
        if back {
            self.state = GameState::TitleScreen { selection: 0 };
            false
        } else if confirm {
            self.chaos_mode = ChaosMode::from_row(selection as usize);
            true
        } else {
            false
        }
    }
}

} // verus!
