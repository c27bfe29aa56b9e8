//! Ship rules: the end of a co-op match and ship deaths.

use vstd::prelude::*;
use crate::gameplay::{all_bullets, lemma_all_bullets_same};
use crate::gameplay::flow::ship_stood_down;
use crate::types::{AsteroidsGame, BodyId, GameState, ShipState};

verus! {

/// Every ship in `lives` is out of lives.
pub open spec fn all_out(lives: Seq<u32>) -> bool {
    forall|i: int| 0 <= i < lives.len() ==> lives[i] == 0
}

/// Every ship of the match is out of lives.
pub open spec fn all_ships_out(ships: Seq<ShipState>) -> bool {
    forall|i: int| 0 <= i < ships.len() ==> (#[trigger] ships[i]).lives == 0
}

/// The co-op match is over only once every ship is out of lives; a single
/// survivor keeps the game going. In single player this is "lives == 0".
pub fn coop_over(lives: &[u32]) -> (over: bool)
    ensures
        over == all_out(lives@),
{
    let mut i: usize = 0;
    while i < lives.len()
        invariant
            i <= lives@.len(),
            forall|j: int| 0 <= j < i ==> lives@[j] == 0,
        decreases lives@.len() - i,
    {
        if lives[i] != 0 {
            return false;
        }
        i += 1;
    }
    true
}

/// What became of a ship that was hit.
#[derive(Debug)]
pub enum KillOutcome {
    /// The ship had no body any more: nothing happened.
    NoShip,
    /// The ship lost a life and respawns at its spawn pose with i-frames.
    Respawn { body: BodyId },
    /// The ship lost its last life and its body goes; the survivor plays
    /// on. When this was the last ship flying the match is over
    /// (`game_over`) and `cleared_bullets` are every bullet to despawn.
    Eliminated { body: BodyId, game_over: bool, cleared_bullets: Vec<BodyId> },
}

impl AsteroidsGame {
    /// Lives of every ship, in ship order.
    pub fn ship_lives(&self) -> (lives: Vec<u32>)
        ensures
            lives@.len() == self.ships@.len(),
            forall|i: int| 0 <= i < lives@.len() ==> lives@[i] == (#[trigger] self.ships@[i]).lives,
    {
        let mut lives: Vec<u32> = Vec::new();
        let mut i: usize = 0;
        while i < self.ships.len()
            invariant
                i <= self.ships@.len(),
                lives@.len() == i,
                forall|j: int| 0 <= j < i ==> lives@[j] == (#[trigger] self.ships@[j]).lives,
            decreases self.ships@.len() - i,
        {
            lives.push(self.ships[i].lives);
            i += 1;
        }
        lives
    }

    /// Ship `index` was hit: dock a life (never below zero), break its shot
    /// streak and the deathless-wave run. At zero lives its body goes, and
    /// the match ends once every ship is out.
    pub fn kill_ship(&mut self, index: usize) -> (outcome: KillOutcome)
        requires
            index < old(self).ships@.len(),
        ensures
            final(self).ships@.len() == old(self).ships@.len(),
            final(self).asteroids@ == old(self).asteroids@,
            final(self).mode == old(self).mode,
            final(self).wave == old(self).wave,
            final(self).spawn_counter == old(self).spawn_counter,
            final(self).chaos_mode == old(self).chaos_mode,
            ({
                let old_ship = old(self).ships@[index as int];
                let ship = final(self).ships@[index as int];
                match old_ship.entity {
                    None => {
                        &&& outcome is NoShip
                        &&& final(self).ships@ == old(self).ships@
                        &&& final(self).waves_without_death == old(self).waves_without_death
                        &&& final(self).state == old(self).state
                    },
                    Some(body) => {
                        &&& final(self).waves_without_death == 0
                        &&& ship.lives == (if old_ship.lives > 0 { old_ship.lives - 1 } else { 0 })
                        &&& ship.shot_streak == 0
                        &&& ship.score == old_ship.score
                        &&& ship.next_extra_life_at == old_ship.next_extra_life_at
                        &&& if ship.lives > 0 {
                            &&& outcome == (KillOutcome::Respawn { body })
                            &&& ship.entity == Some(body)
                            &&& ship.bullets@ == old_ship.bullets@
                            &&& ship.thrusting == old_ship.thrusting
                            &&& final(self).state == old(self).state
                            &&& forall|j: int|
                                0 <= j < final(self).ships@.len() && j != index
                                    ==> #[trigger] final(self).ships@[j] == old(self).ships@[j]
                        } else {
                            &&& ship.entity is None
                            &&& outcome matches KillOutcome::Eliminated {
                                body: b,
                                game_over,
                                cleared_bullets,
                            }
                            &&& b == body
                            &&& game_over == all_ships_out(final(self).ships@)
                            &&& if game_over {
                                &&& cleared_bullets@ == all_bullets(old(self).ships@)
                                &&& final(self).state == GameState::GameOver
                                &&& ship.bullets@.len() == 0
                                &&& !ship.thrusting
                                &&& forall|j: int|
                                    0 <= j < final(self).ships@.len() && j != index
                                        ==> ship_stood_down(
                                        old(self).ships@[j],
                                        #[trigger] final(self).ships@[j],
                                    )
                            } else {
                                &&& cleared_bullets@.len() == 0
                                &&& final(self).state == old(self).state
                                &&& ship.bullets@ == old_ship.bullets@
                                &&& ship.thrusting == old_ship.thrusting
                                &&& forall|j: int|
                                    0 <= j < final(self).ships@.len() && j != index
                                        ==> #[trigger] final(self).ships@[j] == old(self).ships@[j]
                            }
                        }
                    },
                }
            }),
    {
        let body = match self.ships[index].entity {
            Some(b) => b,
            None => {
                return KillOutcome::NoShip;
            },
        };
        self.ships[index].lives = self.ships[index].lives.saturating_sub(1);
        self.ships[index].shot_streak = 0;
        self.waves_without_death = 0;
        if self.ships[index].lives == 0 {
            self.ships[index].entity = None;
            let lives = self.ship_lives();
            if coop_over(lives.as_slice()) {
                let ghost mid = self.ships@;
                proof {
                    lemma_all_bullets_same(self.ships@, old(self).ships@);
                }
                let cleared_bullets = self.finish_game();
                proof {
                    assert forall|i: int| 0 <= i < self.ships@.len() implies (
                    #[trigger] self.ships@[i]).lives == 0 by {
                        assert(ship_stood_down(mid[i], self.ships@[i]));
                        assert(lives@[i] == mid[i].lives);
                    }
                }
                KillOutcome::Eliminated { body, game_over: true, cleared_bullets }
            } else {
                proof {
                    let j = choose|j: int| 0 <= j < lives@.len() && lives@[j] != 0;
                    assert(self.ships@[j].lives != 0);
                }
                KillOutcome::Eliminated { body, game_over: false, cleared_bullets: Vec::new() }
            }
        } else {
            KillOutcome::Respawn { body }
        }
    }
}

} // verus!
