//! The data the rules work on: game modes, rock sizes, entity handles and
//! the per-ship record.

use vstd::prelude::*;
use crate::constants::{EXTRA_LIFE_EVERY, SCORE_LARGE, SCORE_MEDIUM, SCORE_SMALL, STARTING_LIVES};

verus! {

/// Handle of a body in the physics world, as the rules see it: an opaque
/// number that is only ever compared.
#[derive(Clone, Copy, Debug, PartialEq, Eq, Structural, Hash)]
pub struct BodyId(pub u64);

/// The four chaos modes. The Insane family (Insane, Insiculous) makes
/// rocks faster and mercy shorter; the Ridiculous family (Ridiculous,
/// Insiculous) splits large rocks three ways and adds a rock per wave.
#[derive(Clone, Copy, Debug, PartialEq, Eq, Structural)]
pub enum ChaosMode {
    Normal,
    Insane,
    Ridiculous,
    Insiculous,
}

pub open spec fn spec_is_insane(mode: ChaosMode) -> bool {
    mode == ChaosMode::Insane || mode == ChaosMode::Insiculous
}

pub open spec fn spec_is_ridiculous(mode: ChaosMode) -> bool {
    mode == ChaosMode::Ridiculous || mode == ChaosMode::Insiculous
}

/// Mode-select row order.
pub open spec fn chaos_mode_at(row: int) -> ChaosMode {
    if row == 0 {
        ChaosMode::Normal
    } else if row == 1 {
        ChaosMode::Insane
    } else if row == 2 {
        ChaosMode::Ridiculous
    } else {
        ChaosMode::Insiculous
    }
}

/// The mode-select screen lists every chaos mode on exactly one of its
/// four rows, so each row picks a different mode and none is unreachable.
pub proof fn every_mode_has_one_row(mode: ChaosMode, i: int, j: int)
    ensures
        exists|r: int| 0 <= r < 4 && #[trigger] chaos_mode_at(r) == mode,
        0 <= i < 4 && 0 <= j < 4 && chaos_mode_at(i) == chaos_mode_at(j) ==> i == j,
{
    match mode {
        ChaosMode::Normal => assert(chaos_mode_at(0) == mode),
        ChaosMode::Insane => assert(chaos_mode_at(1) == mode),
        ChaosMode::Ridiculous => assert(chaos_mode_at(2) == mode),
        ChaosMode::Insiculous => assert(chaos_mode_at(3) == mode),
    }
}

impl ChaosMode {
    /// Number of chaos modes (rows of the mode-select menu).
    pub fn count() -> (n: usize)
        ensures
            n == 4,
    {
        4
    }

    /// The chaos mode on row `row` of the mode-select menu.
    pub fn from_row(row: usize) -> (mode: ChaosMode)
        requires
            row < 4,
        ensures
            mode == chaos_mode_at(row as int),
    {
        if row == 0 {
            ChaosMode::Normal
        } else if row == 1 {
            ChaosMode::Insane
        } else if row == 2 {
            ChaosMode::Ridiculous
        } else {
            ChaosMode::Insiculous
        }
    }

    /// Every mode, in menu order.
    pub fn all() -> (modes: Vec<ChaosMode>)
        ensures
            modes@.len() == 4,
            forall|i: int| 0 <= i < 4 ==> modes@[i] == chaos_mode_at(i),
    {
        vec![ChaosMode::Normal, ChaosMode::Insane, ChaosMode::Ridiculous, ChaosMode::Insiculous]
    }

    /// Insane family: rocks fly faster, respawn mercy is halved.
    pub fn is_insane(self) -> (b: bool)
        ensures
            b == spec_is_insane(self),
    {
        match self {
            ChaosMode::Insane | ChaosMode::Insiculous => true,
            _ => false,
        }
    }

    /// Ridiculous family: large rocks split three ways, one extra rock per wave.
    pub fn is_ridiculous(self) -> (b: bool)
        ensures
            b == spec_is_ridiculous(self),
    {
        match self {
            ChaosMode::Ridiculous | ChaosMode::Insiculous => true,
            _ => false,
        }
    }
}

/// Which screen the game is on.
#[derive(Clone, Copy, Debug, PartialEq, Eq, Structural)]
pub enum GameState {
    TitleScreen { selection: u8 },
    ModeSelect { selection: u8 },
    Achievements,
    Playing,
    /// Endless game: the only ending is running out of ships.
    GameOver,
}

/// How many ships the human(s) fly. Co-op shares one rock field but keeps
/// per-ship lives and scores; the match only ends once every ship is out.
#[derive(Clone, Copy, Debug, PartialEq, Eq, Structural)]
pub enum GameMode {
    SinglePlayer,
    TwoPlayerCoop,
}

pub open spec fn spec_player_count(mode: GameMode) -> nat {
    match mode {
        GameMode::SinglePlayer => 1,
        GameMode::TwoPlayerCoop => 2,
    }
}

impl GameMode {
    /// Number of ships (and local players) this mode flies.
    pub fn player_count(self) -> (n: usize)
        ensures
            n == spec_player_count(self),
    {
        match self {
            GameMode::SinglePlayer => 1,
            GameMode::TwoPlayerCoop => 2,
        }
    }
}

/// Size class of a rock. Index order matches the size tables.
#[derive(Clone, Copy, Debug, PartialEq, Eq, Structural)]
pub enum AsteroidSize {
    Large,
    Medium,
    Small,
}

pub open spec fn spec_size_idx(size: AsteroidSize) -> nat {
    match size {
        AsteroidSize::Large => 0,
        AsteroidSize::Medium => 1,
        AsteroidSize::Small => 2,
    }
}

pub open spec fn spec_size_score(size: AsteroidSize) -> u32 {
    match size {
        AsteroidSize::Large => SCORE_LARGE,
        AsteroidSize::Medium => SCORE_MEDIUM,
        AsteroidSize::Small => SCORE_SMALL,
    }
}

impl AsteroidSize {
    /// Position of this size in the size tables (Large, Medium, Small).
    pub fn idx(self) -> (i: usize)
        ensures
            i == spec_size_idx(self),
    {
        match self {
            AsteroidSize::Large => 0,
            AsteroidSize::Medium => 1,
            AsteroidSize::Small => 2,
        }
    }

    /// Points for shattering a rock of this size.
    pub fn score(self) -> (points: u32)
        ensures
            points == spec_size_score(self),
    {
        match self {
            AsteroidSize::Large => SCORE_LARGE,
            AsteroidSize::Medium => SCORE_MEDIUM,
            AsteroidSize::Small => SCORE_SMALL,
        }
    }
}

/// Smaller rocks are harder targets, so they pay more.
pub proof fn smaller_rocks_pay_more()
    ensures
        spec_size_score(AsteroidSize::Large) < spec_size_score(AsteroidSize::Medium),
        spec_size_score(AsteroidSize::Medium) < spec_size_score(AsteroidSize::Small),
{
}

/// A live rock as the rules see it: its body and its size class.
#[derive(Clone, Copy, Debug, PartialEq, Eq, Structural)]
pub struct Asteroid {
    pub entity: BodyId,
    pub size: AsteroidSize,
}

/// One flyable ship and everything private to it that the rules read. In
/// co-op each ship keeps its own lives, score and bullets; `entity` becomes
/// `None` once the ship is out of lives.
#[derive(Debug)]
pub struct ShipState {
    pub entity: Option<BodyId>,
    /// This ship's live bullets: score and streak follow the owning ship,
    /// and the live-bullet cap is per ship.
    pub bullets: Vec<BodyId>,
    /// True while this ship's thrust is held; drives its flame.
    pub thrusting: bool,
    pub lives: u32,
    pub score: u32,
    /// Next score threshold that grants this ship a bonus life.
    pub next_extra_life_at: u32,
    /// Consecutive bullet hits without a miss.
    pub shot_streak: u32,
}

/// A fresh ship record: full lives, no score, first bonus at the first threshold.
pub open spec fn is_fresh_ship(s: ShipState, entity: Option<BodyId>) -> bool {
    &&& s.entity == entity
    &&& s.bullets@.len() == 0
    &&& !s.thrusting
    &&& s.lives == STARTING_LIVES
    &&& s.score == 0
    &&& s.next_extra_life_at == EXTRA_LIFE_EVERY
    &&& s.shot_streak == 0
}

impl Default for ShipState {
    fn default() -> (s: Self)
        ensures
            is_fresh_ship(s, None),
    {
        ShipState {
            entity: None,
            bullets: Vec::new(),
            thrusting: false,
            lives: STARTING_LIVES,
            score: 0,
            next_extra_life_at: EXTRA_LIFE_EVERY,
            shot_streak: 0,
        }
    }
}

impl ShipState {
    /// A fresh ship bound to a live body.
    pub fn new(entity: BodyId) -> (s: Self)
        ensures
            is_fresh_ship(s, Some(entity)),
    {
        let mut s = ShipState::default();
        s.entity = Some(entity);
        s
    }
}

} // verus!

verus! {

/// The rules' view of a match: the ships, the rock field, the wave and
/// seed counters and the screen the game is on. Bodies, timers and
/// everything drawn live beside it.
#[derive(Debug)]
pub struct AsteroidsGame {
    /// One ship in single player, two in co-op; they share the rock field
    /// but keep individual lives, scores and bullets.
    pub ships: Vec<ShipState>,
    pub mode: GameMode,
    pub asteroids: Vec<Asteroid>,
    pub wave: u32,
    /// Monotonic seed stream for every hash-based decision.
    pub spawn_counter: u32,
    /// Waves survived since the last death; reset when any ship dies.
    pub waves_without_death: u32,
    pub state: GameState,
    pub chaos_mode: ChaosMode,
}

/// The state of a game that has just booted: on the title screen, wave 1,
/// nothing spawned.
pub open spec fn is_booted(g: AsteroidsGame) -> bool {
    &&& g.ships@.len() == 0
    &&& g.mode == GameMode::SinglePlayer
    &&& g.asteroids@.len() == 0
    &&& g.wave == 1
    &&& g.spawn_counter == 0
    &&& g.waves_without_death == 0
    &&& g.state == GameState::TitleScreen { selection: 0 }
    &&& g.chaos_mode == ChaosMode::Normal
}

impl Default for AsteroidsGame {
    fn default() -> (g: Self)
        ensures
            is_booted(g),
    {
        AsteroidsGame {
            ships: Vec::new(),
            mode: GameMode::SinglePlayer,
            asteroids: Vec::new(),
            wave: 1,
            spawn_counter: 0,
            waves_without_death: 0,
            state: GameState::TitleScreen { selection: 0 },
            chaos_mode: ChaosMode::Normal,
        }
    }
}

} // verus!
