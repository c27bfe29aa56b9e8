//! Match lifecycle: scoring and bonus ships, the state-machine input during
//! play, and starting, finishing and leaving a match.

use vstd::prelude::*;
use crate::achievements::{spec_achievement_id, Achievement};
use crate::constants::{EXTRA_LIFE_EVERY, SCORE_TIER_1, SCORE_TIER_2};
use crate::gameplay::{all_bullets, live_ship_bodies, same_but_bullets, same_counters};
use crate::gameplay::rocks::rock_bodies;
use crate::types::{is_fresh_ship, spec_player_count, AsteroidsGame, BodyId, GameState, ShipState};

verus! {

/// Bonus lives a ship whose next threshold is `next` earns on reaching
/// `score`: one for `next` itself and one for every further multiple of
/// the bonus step up to `score`.
pub open spec fn bonus_lives(next: int, score: int) -> int {
    if score >= next {
        (score - next) / (EXTRA_LIFE_EVERY as int) + 1
    } else {
        0
    }
}

/// The score-tier achievements a ship with `score` has reached, in tier order.
pub open spec fn score_tier_unlocks(score: int) -> Seq<Achievement> {
    (if score >= SCORE_TIER_1 { seq![Achievement::Score10k] } else { seq![] }) + (if score
        >= SCORE_TIER_2 {
        seq![Achievement::Score30k]
    } else {
        seq![]
    })
}

/// A ship's score has reached a tier exactly when that tier's achievement
/// is reported, nothing but the two tiers is ever reported, and the
/// achievement reported for reaching 10,000 (30,000) is the one saved as
/// "score_10k" ("score_30k").
pub proof fn score_tiers_report_what_was_reached(score: int)
    ensures
        score_tier_unlocks(score).contains(Achievement::Score10k) <==> score >= SCORE_TIER_1,
        score_tier_unlocks(score).contains(Achievement::Score30k) <==> score >= SCORE_TIER_2,
        forall|a: Achievement|
            #[trigger] score_tier_unlocks(score).contains(a) ==> a == Achievement::Score10k || a
                == Achievement::Score30k,
        (exists|i: int|
            0 <= i < score_tier_unlocks(score).len() && spec_achievement_id(
                #[trigger] score_tier_unlocks(score)[i],
            ) == "score_10k"@) <==> score >= SCORE_TIER_1,
        (exists|i: int|
            0 <= i < score_tier_unlocks(score).len() && spec_achievement_id(
                #[trigger] score_tier_unlocks(score)[i],
            ) == "score_30k"@) <==> score >= SCORE_TIER_2,
{
    reveal_strlit("score_10k");
    reveal_strlit("score_30k");
    assert("score_10k"@[6] != "score_30k"@[6]);
    let s = score_tier_unlocks(score);
    if score >= SCORE_TIER_2 {
        assert(s =~= seq![Achievement::Score10k, Achievement::Score30k]);
        assert(s[0] == Achievement::Score10k);
        assert(s[1] == Achievement::Score30k);
    } else if score >= SCORE_TIER_1 {
        assert(s =~= seq![Achievement::Score10k]);
        assert(s[0] == Achievement::Score10k);
    } else {
        assert(s =~= Seq::<Achievement>::empty());
    }
}

/// A ship is in step with its bonus schedule when its next threshold is the
/// first multiple of the bonus step above its score (as for a fresh ship).
pub open spec fn bonus_schedule_in_step(ship: ShipState) -> bool {
    ship.next_extra_life_at == first_threshold_above(ship.score as int)
}

/// Awarding points in two steps grants exactly the bonus lives that
/// awarding them at once would: no threshold pays out twice, and none is
/// skipped.
pub proof fn bonus_lives_pay_each_threshold_once(next: int, s1: int, s2: int)
    requires
        s1 <= s2,
    ensures
        bonus_lives(next, s1) + bonus_lives(next + EXTRA_LIFE_EVERY * bonus_lives(next, s1), s2)
            == bonus_lives(next, s2),
{
    let e = EXTRA_LIFE_EVERY as int;
    if s1 >= next {
        let b1 = (s1 - next) / e + 1;
        assert(next + e * b1 > s1) by (nonlinear_arith)
            requires
                b1 == (s1 - next) / e + 1,
                e == EXTRA_LIFE_EVERY as int,
                s1 >= next,
        ;
        let n1 = next + e * b1;
        if s2 >= n1 {
            assert((s2 - n1) / e == (s2 - next) / e - b1) by (nonlinear_arith)
                requires
                    n1 == next + e * b1,
                    e == EXTRA_LIFE_EVERY as int,
            ;
        } else {
            assert((s2 - next) / e == b1 - 1) by (nonlinear_arith)
                requires
                    b1 == (s1 - next) / e + 1,
                    n1 == next + e * b1,
                    e == EXTRA_LIFE_EVERY as int,
                    s1 >= next,
                    s1 <= s2,
                    s2 < n1,
            ;
        }
    }
}

/// The first multiple of the bonus step strictly above `score`.
pub open spec fn first_threshold_above(score: int) -> int {
    (EXTRA_LIFE_EVERY as int) * (score / (EXTRA_LIFE_EVERY as int) + 1)
}

/// For a ship in step with its bonus schedule, reaching `score` from
/// `score0` grants one life per multiple of the bonus step crossed, so a
/// big jump pays every threshold it crosses, and the schedule stays in step.
pub proof fn bonus_lives_count_crossed_thresholds(score0: int, score: int)
    requires
        0 <= score0 <= score,
    ensures
        bonus_lives(first_threshold_above(score0), score) == score / (EXTRA_LIFE_EVERY as int)
            - score0 / (EXTRA_LIFE_EVERY as int),
        first_threshold_above(score0) + (EXTRA_LIFE_EVERY as int) * bonus_lives(
            first_threshold_above(score0),
            score,
        ) == first_threshold_above(score),
{
    let e = EXTRA_LIFE_EVERY as int;
    let next = first_threshold_above(score0);
    if score >= next {
        assert((score - next) / e + 1 == score / e - score0 / e) by (nonlinear_arith)
            requires
                next == e * (score0 / e + 1),
                e == EXTRA_LIFE_EVERY as int,
                score >= next,
        ;
    } else {
        assert(score / e == score0 / e) by (nonlinear_arith)
            requires
                next == e * (score0 / e + 1),
                e == EXTRA_LIFE_EVERY as int,
                score < next,
                0 <= score0 <= score,
        ;
    }
}

/// A fresh ship starts in step with its bonus schedule, so from its first
/// point on every threshold pays exactly once.
pub proof fn fresh_ships_start_in_step(ship: ShipState, entity: Option<BodyId>)
    requires
        is_fresh_ship(ship, entity),
    ensures
        bonus_schedule_in_step(ship),
{
}

impl ShipState {
    /// Add points, report the score tiers reached, and grant one bonus life
    /// for every threshold crossed (each threshold pays out exactly once).
    pub fn award_points(&mut self, points: u32) -> (unlocks: Vec<Achievement>)
        requires
            old(self).score + points <= u32::MAX,
            old(self).lives + bonus_lives(
                old(self).next_extra_life_at as int,
                old(self).score + points,
            ) <= u32::MAX,
            old(self).next_extra_life_at + EXTRA_LIFE_EVERY * bonus_lives(
                old(self).next_extra_life_at as int,
                old(self).score + points,
            ) <= u32::MAX,
        ensures
            final(self).score == old(self).score + points,
            final(self).lives == old(self).lives + bonus_lives(
                old(self).next_extra_life_at as int,
                final(self).score as int,
            ),
            final(self).next_extra_life_at == old(self).next_extra_life_at + EXTRA_LIFE_EVERY
                * bonus_lives(old(self).next_extra_life_at as int, final(self).score as int),
            final(self).entity == old(self).entity,
            final(self).bullets@ == old(self).bullets@,
            final(self).thrusting == old(self).thrusting,
            final(self).shot_streak == old(self).shot_streak,
            unlocks@ == score_tier_unlocks(final(self).score as int),
            bonus_schedule_in_step(*old(self)) ==> bonus_schedule_in_step(*final(self)),
    {
        self.score = self.score + points;
        let mut unlocks: Vec<Achievement> = Vec::new();
        if self.score >= SCORE_TIER_1 {
            unlocks.push(Achievement::Score10k);
        }
        if self.score >= SCORE_TIER_2 {
            unlocks.push(Achievement::Score30k);
        }
        proof {
            assert(unlocks@ =~= score_tier_unlocks(self.score as int));
        }
        let ghost score1 = self.score;
        let ghost entity0 = self.entity;
        let ghost bullets0 = self.bullets@;
        let ghost thrusting0 = self.thrusting;
        let ghost streak0 = self.shot_streak;
        let ghost next0 = self.next_extra_life_at as int;
        let ghost lives0 = self.lives as int;
        let ghost total = bonus_lives(next0, self.score as int);
        let ghost mut k: int = 0;
        while self.score >= self.next_extra_life_at
            invariant
                0 <= k <= total,
                total == bonus_lives(next0, self.score as int),
                self.next_extra_life_at == next0 + EXTRA_LIFE_EVERY * k,
                self.lives == lives0 + k,
                lives0 + total <= u32::MAX,
                next0 + EXTRA_LIFE_EVERY * total <= u32::MAX,
                k < total <==> self.score >= self.next_extra_life_at,
                self.score == score1,
                self.entity == entity0,
                self.bullets@ == bullets0,
                self.thrusting == thrusting0,
                self.shot_streak == streak0,
                unlocks@ == score_tier_unlocks(score1 as int),
            decreases total - k,
        {
            self.lives = self.lives + 1;
            self.next_extra_life_at = self.next_extra_life_at + EXTRA_LIFE_EVERY;
            proof {
                k = k + 1;
            }
        }
        proof {
            if bonus_schedule_in_step(*old(self)) {
                bonus_lives_count_crossed_thresholds(old(self).score as int, self.score as int);
            }
        }
        unlocks
    }
}

/// `b` is ship `a` after its match ended: bullets gone and thrust released.
pub open spec fn ship_stood_down(a: ShipState, b: ShipState) -> bool {
    &&& b.bullets@.len() == 0
    &&& !b.thrusting
    &&& b.entity == a.entity
    &&& b.lives == a.lives
    &&& b.score == a.score
    &&& b.next_extra_life_at == a.next_extra_life_at
    &&& b.shot_streak == a.shot_streak
}

impl AsteroidsGame {
    /// Off the match screens no ship thrusts: release every thrust.
    pub fn release_all_thrust(&mut self)
        ensures
            final(self).ships@.len() == old(self).ships@.len(),
            forall|i: int|
                0 <= i < final(self).ships@.len() ==> {
                    let (a, b) = (old(self).ships@[i], #[trigger] final(self).ships@[i]);
                    &&& !b.thrusting
                    &&& b.bullets@ == a.bullets@
                    &&& b.entity == a.entity
                    &&& b.lives == a.lives
                    &&& b.score == a.score
                    &&& b.next_extra_life_at == a.next_extra_life_at
                    &&& b.shot_streak == a.shot_streak
                },
            final(self).asteroids@ == old(self).asteroids@,
            same_counters(*final(self), *old(self)),
    {
        let mut i: usize = 0;
        while i < self.ships.len()
            invariant
                i <= self.ships@.len(),
                self.ships@.len() == old(self).ships@.len(),
                forall|j: int| i <= j < self.ships@.len() ==> #[trigger] self.ships@[j] == old(self).ships@[j],
                forall|j: int|
                    0 <= j < i ==> {
                        let (a, b) = (old(self).ships@[j], #[trigger] self.ships@[j]);
                        &&& !b.thrusting
                        &&& b.bullets@ == a.bullets@
                        &&& b.entity == a.entity
                        &&& b.lives == a.lives
                        &&& b.score == a.score
                        &&& b.next_extra_life_at == a.next_extra_life_at
                        &&& b.shot_streak == a.shot_streak
                    },
                self.asteroids@ == old(self).asteroids@,
                same_counters(*self, *old(self)),
            decreases self.ships@.len() - i,
        {
            self.ships[i].thrusting = false;
            i += 1;
        }
    }

    /// Out of ships: hand out every bullet for despawning, release every
    /// thrust and show the game-over screen. The rocks keep drifting behind
    /// the overlay; the next start clears them.
    pub fn finish_game(&mut self) -> (cleared_bullets: Vec<BodyId>)
        ensures
            cleared_bullets@ == all_bullets(old(self).ships@),
            final(self).ships@.len() == old(self).ships@.len(),
            forall|i: int|
                0 <= i < final(self).ships@.len() ==> ship_stood_down(
                    old(self).ships@[i],
                    #[trigger] final(self).ships@[i],
                ),
            final(self).asteroids@ == old(self).asteroids@,
            final(self).state == GameState::GameOver,
            final(self).mode == old(self).mode,
            final(self).wave == old(self).wave,
            final(self).spawn_counter == old(self).spawn_counter,
            final(self).waves_without_death == old(self).waves_without_death,
            final(self).chaos_mode == old(self).chaos_mode,
    {
        let cleared = self.drain_all_bullets();
        let ghost drained = self.ships@;
        self.release_all_thrust();
        proof {
            assert forall|i: int| 0 <= i < self.ships@.len() implies ship_stood_down(
                old(self).ships@[i],
                #[trigger] self.ships@[i],
            ) by {
                assert(same_but_bullets(drained[i], old(self).ships@[i]));
            }
        }
        self.state = GameState::GameOver;
        cleared
    }
}

/// Lives left across every ship.
pub open spec fn lives_total(ships: Seq<ShipState>) -> int
    decreases ships.len(),
{
    if ships.len() == 0 {
        0
    } else {
        lives_total(ships.drop_last()) + ships.last().lives
    }
}

impl AsteroidsGame {
    /// Total lives remaining across every ship: drives the shared "last
    /// ship" achievement and reads as the one ship's lives in solo play.
    pub fn total_lives(&self) -> (total: u32)
        requires
            lives_total(self.ships@) <= u32::MAX,
        ensures
            total == lives_total(self.ships@),
    {
        let mut total: u32 = 0;
        let mut i: usize = 0;
        while i < self.ships.len()
            invariant
                i <= self.ships@.len(),
                lives_total(self.ships@) <= u32::MAX,
                total == lives_total(self.ships@.take(i as int)),
            decreases self.ships@.len() - i,
        {
            proof {
                let t = self.ships@.take(i + 1);
                assert(t.drop_last() =~= self.ships@.take(i as int));
                assert(t.last() == self.ships@[i as int]);
                lemma_lives_total_prefix(self.ships@, i + 1);
            }
            total = total + self.ships[i].lives;
            i += 1;
        }
        proof {
            assert(self.ships@.take(self.ships@.len() as int) =~= self.ships@);
        }
        total
    }
}

proof fn lemma_lives_total_prefix(ships: Seq<ShipState>, n: int)
    requires
        0 <= n <= ships.len(),
    ensures
        lives_total(ships.take(n)) <= lives_total(ships),
    decreases ships.len(),
{
    if n < ships.len() {
        assert(ships.drop_last().take(n) =~= ships.take(n));
        lemma_lives_total_prefix(ships.drop_last(), n);
    } else {
        assert(ships.take(n) =~= ships);
    }
}

// ---------------------------------------------------------------------
// Screens during and after a match
// ---------------------------------------------------------------------

/// What the match-screen input asks for.
#[derive(Clone, Copy, Debug, PartialEq, Eq, Structural)]
pub enum StateAction {
    /// Nothing to do.
    Stay,
    /// Leave the match for the title screen.
    ToTitle,
    /// Start a new match from the game-over screen.
    Restart,
}

pub open spec fn spec_state_action(state: GameState, primary: bool, menu: bool) -> StateAction {
    match state {
        GameState::Playing => if menu {
            StateAction::ToTitle
        } else {
            StateAction::Stay
        },
        GameState::GameOver => if primary {
            StateAction::Restart
        } else if menu {
            StateAction::ToTitle
        } else {
            StateAction::Stay
        },
        _ => StateAction::Stay,
    }
}

/// On the game-over screen the primary action alone restarts, whatever the
/// menu action; the menu action alone leaves for the title. During play the
/// menu action always leaves for the title and the primary action never
/// restarts. On any other screen this input does nothing.
pub proof fn match_screen_input_law(state: GameState, primary: bool, menu: bool)
    ensures
        state == GameState::GameOver && primary ==> spec_state_action(state, primary, menu)
            == StateAction::Restart,
        state == GameState::GameOver && !primary && menu ==> spec_state_action(state, primary, menu)
            == StateAction::ToTitle,
        state == GameState::Playing && menu ==> spec_state_action(state, primary, menu)
            == StateAction::ToTitle,
        state == GameState::Playing ==> spec_state_action(state, primary, menu)
            != StateAction::Restart,
        !primary && !menu ==> spec_state_action(state, primary, menu) == StateAction::Stay,
        state != GameState::Playing && state != GameState::GameOver ==> spec_state_action(
            state,
            primary,
            menu,
        ) == StateAction::Stay,
{
}

impl AsteroidsGame {
    /// State changes while the simulation screens are up: either player's
    /// menu action bails to the title, and the primary action restarts
    /// from game over (primary wins when both are pressed).
    pub fn handle_state_input(&self, primary: bool, menu: bool) -> (action: StateAction)
        ensures
            action == spec_state_action(self.state, primary, menu),
            self.state == GameState::GameOver && primary ==> action == StateAction::Restart,
            self.state == GameState::Playing && menu ==> action == StateAction::ToTitle,
            !primary && !menu ==> action == StateAction::Stay,
    {
        match self.state {
            GameState::Playing => {
                if menu {
                    StateAction::ToTitle
                } else {
                    StateAction::Stay
                }
            },
            GameState::GameOver => {
                if primary {
                    StateAction::Restart
                } else if menu {
                    StateAction::ToTitle
                } else {
                    StateAction::Stay
                }
            },
            _ => StateAction::Stay,
        }
    }

    /// Hand out every rock body for despawning and empty the field.
    pub fn drain_asteroids(&mut self) -> (rocks: Vec<BodyId>)
        ensures
            rocks@ == rock_bodies(old(self).asteroids@),
            final(self).asteroids@.len() == 0,
            final(self).ships@ == old(self).ships@,
            same_counters(*final(self), *old(self)),
    {
        let rocks = self.rock_ids();
        self.asteroids = Vec::new();
        rocks
    }

    /// Clear the match: hand out every bullet, every rock and every ship
    /// body that is still flying, in that order, for despawning; no ship
    /// and no rock remains.
    fn clear_match(&mut self) -> (bodies: Vec<BodyId>)
        ensures
            bodies@ == all_bullets(old(self).ships@) + rock_bodies(old(self).asteroids@)
                + live_ship_bodies(old(self).ships@),
            final(self).ships@.len() == 0,
            final(self).asteroids@.len() == 0,
            same_counters(*final(self), *old(self)),
    {
        let ships_bodies = self.live_ship_entities();
        let mut bodies = self.drain_all_bullets();
        let mut rocks = self.drain_asteroids();
        bodies.append(&mut rocks);
        let mut ship_list = ships_bodies;
        bodies.append(&mut ship_list);
        self.ships = Vec::new();
        bodies
    }

    /// Back to the title screen: everything of the match is handed out
    /// for despawning (bullets, rocks, then ship bodies) and the ships are
    /// gone.
    pub fn reset_to_title(&mut self) -> (bodies: Vec<BodyId>)
        ensures
            bodies@ == all_bullets(old(self).ships@) + rock_bodies(old(self).asteroids@)
                + live_ship_bodies(old(self).ships@),
            final(self).ships@.len() == 0,
            final(self).asteroids@.len() == 0,
            final(self).state == (GameState::TitleScreen { selection: 0 }),
            final(self).mode == old(self).mode,
            final(self).wave == old(self).wave,
            final(self).spawn_counter == old(self).spawn_counter,
            final(self).waves_without_death == old(self).waves_without_death,
            final(self).chaos_mode == old(self).chaos_mode,
    {
        let bodies = self.clear_match();
        self.state = GameState::TitleScreen { selection: 0 };
        bodies
    }

    /// First half of starting a match: reset the wave counters and clear
    /// the field and the old ships, handing out their bodies (bullets,
    /// rocks, then ship bodies) for despawning.
    pub fn begin_match(&mut self) -> (bodies: Vec<BodyId>)
        ensures
            bodies@ == all_bullets(old(self).ships@) + rock_bodies(old(self).asteroids@)
                + live_ship_bodies(old(self).ships@),
            final(self).ships@.len() == 0,
            final(self).asteroids@.len() == 0,
            final(self).wave == 1,
            final(self).waves_without_death == 0,
            final(self).state == old(self).state,
            final(self).mode == old(self).mode,
            final(self).spawn_counter == old(self).spawn_counter,
            final(self).chaos_mode == old(self).chaos_mode,
    {
        self.wave = 1;
        self.waves_without_death = 0;
        self.clear_match()
    }

    /// Second half of starting a match: one fresh ship (full lives) per
    /// player, bound to the bodies just spawned for them, and play begins.
    pub fn install_ships(&mut self, bodies: Vec<BodyId>)
        requires
            old(self).ships@.len() == 0,
            bodies@.len() == spec_player_count(old(self).mode),
        ensures
            final(self).ships@.len() == bodies@.len(),
            forall|i: int|
                0 <= i < bodies@.len() ==> is_fresh_ship(
                    #[trigger] final(self).ships@[i],
                    Some(bodies@[i]),
                ),
            final(self).state == GameState::Playing,
            final(self).asteroids@ == old(self).asteroids@,
            final(self).mode == old(self).mode,
            final(self).wave == old(self).wave,
            final(self).spawn_counter == old(self).spawn_counter,
            final(self).waves_without_death == old(self).waves_without_death,
            final(self).chaos_mode == old(self).chaos_mode,
    {
        let mut ships: Vec<ShipState> = Vec::new();
        let mut i: usize = 0;
        while i < bodies.len()
            invariant
                i <= bodies@.len(),
                ships@.len() == i,
                forall|j: int| 0 <= j < i ==> is_fresh_ship(#[trigger] ships@[j], Some(bodies@[j])),
            decreases bodies@.len() - i,
        {
            ships.push(ShipState::new(bodies[i]));
            i += 1;
        }
        self.ships = ships;
        self.state = GameState::Playing;
    }

    /// A ship's `(score, lives)` for the HUD, or zeros if that slot is empty.
    pub fn ship_hud(&self, index: usize) -> (hud: (u32, u32))
        ensures
            hud == if index < self.ships@.len() {
                (self.ships@[index as int].score, self.ships@[index as int].lives)
            } else {
                (0u32, 0u32)
            },
    {
        if index < self.ships.len() {
            (self.ships[index].score, self.ships[index].lives)
        } else {
            (0, 0)
        }
    }
}

} // verus!
