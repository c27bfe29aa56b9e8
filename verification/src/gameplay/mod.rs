//! Per-frame gameplay rules: rocks (`rocks`), ships (`ship`) and the match
//! lifecycle (`flow`), plus the bullet and ship bookkeeping they share.

pub mod flow;
pub mod rocks;
pub mod ship;

use vstd::prelude::*;
use crate::constants::MAX_LIVE_BULLETS;
use crate::types::{AsteroidsGame, BodyId, GameState, ShipState};

verus! {

/// Every ship's bullets, ship by ship, each ship's in its own order.
pub open spec fn all_bullets(ships: Seq<ShipState>) -> Seq<BodyId>
    decreases ships.len(),
{
    if ships.len() == 0 {
        seq![]
    } else {
        all_bullets(ships.drop_last()) + ships.last().bullets@
    }
}

/// Ship lists with the same bullets, ship by ship, hold the same bullets.
pub(crate) proof fn lemma_all_bullets_same(a: Seq<ShipState>, b: Seq<ShipState>)
    requires
        a.len() == b.len(),
        forall|i: int| 0 <= i < a.len() ==> (#[trigger] a[i]).bullets@ == b[i].bullets@,
    ensures
        all_bullets(a) == all_bullets(b),
    decreases a.len(),
{
    if a.len() > 0 {
        lemma_all_bullets_same(a.drop_last(), b.drop_last());
        assert(a.last().bullets@ == b.last().bullets@);
    }
}

/// `a` and `b` are the same ship record except possibly for the bullets.
pub open spec fn same_but_bullets(a: ShipState, b: ShipState) -> bool {
    &&& a.entity == b.entity
    &&& a.thrusting == b.thrusting
    &&& a.lives == b.lives
    &&& a.score == b.score
    &&& a.next_extra_life_at == b.next_extra_life_at
    &&& a.shot_streak == b.shot_streak
}

/// `a` and `b` agree on everything but the ships and the rocks.
pub open spec fn same_counters(a: AsteroidsGame, b: AsteroidsGame) -> bool {
    &&& a.mode == b.mode
    &&& a.wave == b.wave
    &&& a.spawn_counter == b.spawn_counter
    &&& a.waves_without_death == b.waves_without_death
    &&& a.state == b.state
    &&& a.chaos_mode == b.chaos_mode
}

/// `a` and `b` agree on everything but the ships, the rocks and the seed
/// stream.
pub open spec fn same_settings(a: AsteroidsGame, b: AsteroidsGame) -> bool {
    &&& a.mode == b.mode
    &&& a.wave == b.wave
    &&& a.waves_without_death == b.waves_without_death
    &&& a.state == b.state
    &&& a.chaos_mode == b.chaos_mode
}

/// The bodies of the ships that are still flying, in ship order.
pub open spec fn live_ship_bodies(ships: Seq<ShipState>) -> Seq<BodyId>
    decreases ships.len(),
{
    if ships.len() == 0 {
        seq![]
    } else {
        live_ship_bodies(ships.drop_last()) + match ships.last().entity {
            Some(e) => seq![e],
            None => seq![],
        }
    }
}

/// The gameplay sprites (bullets) and the wireframes show only during a
/// match and behind the game-over overlay, not on the menu screens.
pub open spec fn spec_gameplay_visible(state: GameState) -> bool {
    state == GameState::Playing || state == GameState::GameOver
}

/// Whether gameplay entities are drawn on this screen.
pub fn gameplay_visible(state: GameState) -> (b: bool)
    ensures
        b == spec_gameplay_visible(state),
{
    match state {
        GameState::Playing | GameState::GameOver => true,
        _ => false,
    }
}

/// The bullets of `v` that are in `alive`, in their order.
fn retain_alive(v: &Vec<BodyId>, alive: &Vec<BodyId>) -> (r: Vec<BodyId>)
    ensures
        r@ == v@.filter(|b: BodyId| alive@.contains(b)),
{
    let ghost pred = |b: BodyId| alive@.contains(b);
    let mut r: Vec<BodyId> = Vec::new();
    let mut i: usize = 0;
    while i < v.len()
        invariant
            i <= v@.len(),
            pred == (|b: BodyId| alive@.contains(b)),
            r@ == v@.take(i as int).filter(pred),
        decreases v@.len() - i,
    {
        reveal_with_fuel(Seq::<_>::filter, 1);
        let b = v[i];
        let mut found = false;
        let mut k: usize = 0;
        while k < alive.len()
            invariant
                k <= alive@.len(),
                found == (exists|k2: int| 0 <= k2 < k && alive@[k2] == b),
            decreases alive@.len() - k,
        {
            if alive[k] == b {
                found = true;
            }
            k += 1;
        }
        assert(found == alive@.contains(b));
        proof {
            assert(v@.take(i + 1).drop_last() =~= v@.take(i as int));
            assert(v@.take(i + 1).last() == b);
            assert(pred(b) == found);
            assert(v@.take(i + 1).filter(pred) == if pred(b) {
                v@.take(i as int).filter(pred).push(b)
            } else {
                v@.take(i as int).filter(pred)
            });
        }
        if found {
            r.push(b);
        }
        i += 1;
    }
    assert(v@.take(v@.len() as int) =~= v@);
    r
}

impl ShipState {
    /// Bullets that are no longer alive expired without hitting anything:
    /// that is a miss, so the sharpshooter streak resets.
    pub fn prune_expired_bullets(&mut self, alive: &Vec<BodyId>)
        ensures
            final(self).bullets@ == old(self).bullets@.filter(|b: BodyId| alive@.contains(b)),
            final(self).shot_streak == if final(self).bullets@.len() < old(self).bullets@.len() {
                0
            } else {
                old(self).shot_streak
            },
            final(self).entity == old(self).entity,
            final(self).thrusting == old(self).thrusting,
            final(self).lives == old(self).lives,
            final(self).score == old(self).score,
            final(self).next_extra_life_at == old(self).next_extra_life_at,
    {
        let before = self.bullets.len();
        let kept = retain_alive(&self.bullets, alive);
        self.bullets = kept;
        if self.bullets.len() < before {
            self.shot_streak = 0;
        }
    }
}

impl AsteroidsGame {
    /// Drop every bullet the world no longer holds from its ship's list;
    /// a ship that lost one had a shot expire, so its streak resets.
    pub fn prune_expired_bullets(&mut self, alive: &Vec<BodyId>)
        ensures
            final(self).ships@.len() == old(self).ships@.len(),
            forall|i: int|
                0 <= i < final(self).ships@.len() ==> {
                    let (a, b) = (old(self).ships@[i], #[trigger] final(self).ships@[i]);
                    &&& b.bullets@ == a.bullets@.filter(|x: BodyId| alive@.contains(x))
                    &&& b.shot_streak == if b.bullets@.len() < a.bullets@.len() {
                        0
                    } else {
                        a.shot_streak
                    }
                    &&& b.entity == a.entity
                    &&& b.thrusting == a.thrusting
                    &&& b.lives == a.lives
                    &&& b.score == a.score
                    &&& b.next_extra_life_at == a.next_extra_life_at
                },
            final(self).asteroids@ == old(self).asteroids@,
            same_counters(*final(self), *old(self)),
    {
        let mut i: usize = 0;
        while i < self.ships.len()
            invariant
                i <= self.ships@.len(),
                self.ships@.len() == old(self).ships@.len(),
                forall|j: int|
                    i <= j < self.ships@.len() ==> #[trigger] self.ships@[j] == old(self).ships@[j],
                forall|j: int|
                    0 <= j < i ==> {
                        let (a, b) = (old(self).ships@[j], #[trigger] self.ships@[j]);
                        &&& b.bullets@ == a.bullets@.filter(|x: BodyId| alive@.contains(x))
                        &&& b.shot_streak == if b.bullets@.len() < a.bullets@.len() {
                            0
                        } else {
                            a.shot_streak
                        }
                        &&& b.entity == a.entity
                        &&& b.thrusting == a.thrusting
                        &&& b.lives == a.lives
                        &&& b.score == a.score
                        &&& b.next_extra_life_at == a.next_extra_life_at
                    },
                self.asteroids@ == old(self).asteroids@,
                same_counters(*self, *old(self)),
            decreases self.ships@.len() - i,
        {
            self.ships[i].prune_expired_bullets(alive);
            i += 1;
        }
    }

    /// Whether ship `index` may have another bullet in flight: the
    /// live-bullet cap is per ship.
    pub fn has_bullet_room(&self, index: usize) -> (room: bool)
        requires
            index < self.ships@.len(),
        ensures
            room == (self.ships@[index as int].bullets@.len() < MAX_LIVE_BULLETS),
    {
        self.ships[index].bullets.len() < MAX_LIVE_BULLETS
    }

    /// Remember a bullet that ship `index` just fired; a ship never has
    /// more than `MAX_LIVE_BULLETS` in flight.
    pub fn add_bullet(&mut self, index: usize, bullet: BodyId)
        requires
            index < old(self).ships@.len(),
            old(self).ships@[index as int].bullets@.len() < MAX_LIVE_BULLETS,
        ensures
            final(self).ships@.len() == old(self).ships@.len(),
            final(self).ships@[index as int].bullets@ == old(self).ships@[index as int].bullets@.push(
                bullet,
            ),
            same_but_bullets(final(self).ships@[index as int], old(self).ships@[index as int]),
            forall|j: int|
                0 <= j < final(self).ships@.len() && j != index ==> #[trigger] final(self).ships@[j]
                    == old(self).ships@[j],
            final(self).asteroids@ == old(self).asteroids@,
            same_counters(*final(self), *old(self)),
    {
        self.ships[index].bullets.push(bullet);
    }

    /// Hand out every bullet of every ship (ship by ship) and leave all
    /// bullet lists empty.
    pub fn drain_all_bullets(&mut self) -> (drained: Vec<BodyId>)
        ensures
            drained@ == all_bullets(old(self).ships@),
            final(self).ships@.len() == old(self).ships@.len(),
            forall|i: int|
                0 <= i < final(self).ships@.len() ==> (#[trigger] final(self).ships@[i]).bullets@.len()
                    == 0 && same_but_bullets(final(self).ships@[i], old(self).ships@[i]),
            final(self).asteroids@ == old(self).asteroids@,
            same_counters(*final(self), *old(self)),
    {
        let mut drained: Vec<BodyId> = Vec::new();
        let mut i: usize = 0;
        while i < self.ships.len()
            invariant
                i <= self.ships@.len(),
                self.ships@.len() == old(self).ships@.len(),
                drained@ == all_bullets(old(self).ships@.take(i as int)),
                forall|j: int|
                    i <= j < self.ships@.len() ==> #[trigger] self.ships@[j] == old(self).ships@[j],
                forall|j: int|
                    0 <= j < i ==> (#[trigger] self.ships@[j]).bullets@.len() == 0 && same_but_bullets(
                        self.ships@[j],
                        old(self).ships@[j],
                    ),
                self.asteroids@ == old(self).asteroids@,
                same_counters(*self, *old(self)),
            decreases self.ships@.len() - i,
        {
            let mut taken: Vec<BodyId> = Vec::new();
            std::mem::swap(&mut taken, &mut self.ships[i].bullets);
            proof {
                let t = old(self).ships@.take(i + 1);
                assert(t.drop_last() =~= old(self).ships@.take(i as int));
                assert(t.last() == old(self).ships@[i as int]);
            }
            drained.append(&mut taken);
            i += 1;
        }
        proof {
            assert(old(self).ships@.take(old(self).ships@.len() as int) =~= old(self).ships@);
        }
        drained
    }

    /// Every live bullet of every ship, ship by ship.
    pub fn all_bullet_ids(&self) -> (ids: Vec<BodyId>)
        ensures
            ids@ == all_bullets(self.ships@),
    {
        let mut ids: Vec<BodyId> = Vec::new();
        let mut i: usize = 0;
        while i < self.ships.len()
            invariant
                i <= self.ships@.len(),
                ids@ == all_bullets(self.ships@.take(i as int)),
            decreases self.ships@.len() - i,
        {
            let bs = &self.ships[i].bullets;
            let mut k: usize = 0;
            let ghost base = ids@;
            while k < bs.len()
                invariant
                    k <= bs@.len(),
                    bs@ == self.ships@[i as int].bullets@,
                    ids@ == base + bs@.take(k as int),
                decreases bs@.len() - k,
            {
                ids.push(bs[k]);
                proof {
                    assert(bs@.take(k + 1) =~= bs@.take(k as int).push(bs@[k as int]));
                }
                k += 1;
            }
            proof {
                assert(bs@.take(bs@.len() as int) =~= bs@);
                let t = self.ships@.take(i + 1);
                assert(t.drop_last() =~= self.ships@.take(i as int));
                assert(t.last() == self.ships@[i as int]);
            }
            i += 1;
        }
        proof {
            assert(self.ships@.take(self.ships@.len() as int) =~= self.ships@);
        }
        ids
    }

    /// Bodies of every ship that still has one: the set new rocks keep
    /// clear of, and the set ship-versus-rock hit checks iterate.
    pub fn live_ship_entities(&self) -> (bodies: Vec<BodyId>)
        ensures
            bodies@ == live_ship_bodies(self.ships@),
    {
        let mut bodies: Vec<BodyId> = Vec::new();
        let mut i: usize = 0;
        while i < self.ships.len()
            invariant
                i <= self.ships@.len(),
                bodies@ == live_ship_bodies(self.ships@.take(i as int)),
            decreases self.ships@.len() - i,
        {
            proof {
                let t = self.ships@.take(i + 1);
                assert(t.drop_last() =~= self.ships@.take(i as int));
                assert(t.last() == self.ships@[i as int]);
            }
            match self.ships[i].entity {
                Some(e) => {
                    bodies.push(e);
                },
                None => {
                    assert(bodies@ + seq![] =~= bodies@);
                },
            }
            i += 1;
        }
        proof {
            assert(self.ships@.take(self.ships@.len() as int) =~= self.ships@);
        }
        bodies
    }
}

} // verus!
