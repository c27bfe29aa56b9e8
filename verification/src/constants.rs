//! Every integer tunable of the rules in one place. The continuous
//! tunables (sizes, speeds, timers) belong to the geometry side.

use vstd::prelude::*;

verus! {

/// Ships each player starts a match with.
pub const STARTING_LIVES: u32 = 3;

/// A ship earns a bonus life every time its score crosses a multiple of this.
pub const EXTRA_LIFE_EVERY: u32 = 10_000;

/// Live bullets a single ship may have in flight at once.
pub const MAX_LIVE_BULLETS: usize = 4;

/// Outline vertices of every rock polygon.
pub const ASTEROID_VERTS: usize = 10;

/// Points for a large rock.
pub const SCORE_LARGE: u32 = 20;
/// Points for a medium rock.
pub const SCORE_MEDIUM: u32 = 50;
/// Points for a small rock: the hardest target pays the most.
pub const SCORE_SMALL: u32 = 100;

/// Children of a shattered large or medium rock.
pub const SPLIT_COUNT: usize = 2;
/// Children of a shattered large rock in the Ridiculous family.
pub const RIDICULOUS_LARGE_SPLIT_COUNT: usize = 3;

/// Large rocks in the first wave.
pub const WAVE_BASE_ASTEROIDS: usize = 4;
/// Most large rocks a wave grows to (before the Ridiculous extra).
pub const WAVE_MAX_ASTEROIDS: usize = 9;
/// Extra large rocks per wave in the Ridiculous family.
pub const RIDICULOUS_EXTRA_ASTEROIDS: usize = 1;

/// Consecutive hits for the sharpshooter achievement.
pub const SHARPSHOOTER_TARGET: u32 = 10;
/// Consecutive deathless waves for the untouchable achievement.
pub const UNTOUCHABLE_WAVES: u32 = 3;
/// The wave whose start unlocks the per-mode milestone.
pub const WAVE_MILESTONE: u32 = 5;
/// First score tier.
pub const SCORE_TIER_1: u32 = 10_000;
/// Second score tier.
pub const SCORE_TIER_2: u32 = 30_000;

} // verus!
