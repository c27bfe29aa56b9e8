//! Bookkeeping of entity creation: the seed stream every random-looking
//! decision draws from, the seeds each new rock draws from it, and the
//! registration of new rocks.

use vstd::prelude::*;
use crate::gameplay::{same_counters, same_settings};
use crate::gameplay::rocks::{spec_wave_asteroid_count, split_count, wave_asteroid_count, Shatter};
use crate::types::{Asteroid, AsteroidSize, AsteroidsGame, BodyId};

verus! {

/// The seed after `counter` in the stream (wrapping at the top of `u32`).
pub open spec fn seed_after(counter: u32) -> u32 {
    if counter == u32::MAX {
        0
    } else {
        (counter + 1) as u32
    }
}

/// The seed `k` draws after `counter`.
pub open spec fn seed_n(counter: u32, k: nat) -> u32
    decreases k,
{
    if k == 0 {
        counter
    } else {
        seed_after(seed_n(counter, (k - 1) as nat))
    }
}

/// The seeds one rock of a wave draws, in the order they are drawn: its
/// spot on the border, its drift speed, its heading, its spin, and last its
/// outline.
#[derive(Clone, Copy, Debug, PartialEq, Eq, Structural)]
pub struct RockSeeds {
    pub position: u32,
    pub speed: u32,
    pub heading: u32,
    pub spin: u32,
    pub shape: u32,
}

/// The seeds rock `i` of a wave draws when the stream stood at `counter`
/// before the wave: five per rock, rock after rock.
pub open spec fn wave_rock_seeds(counter: u32, i: int) -> RockSeeds {
    RockSeeds {
        position: seed_n(counter, (5 * i + 1) as nat),
        speed: seed_n(counter, (5 * i + 2) as nat),
        heading: seed_n(counter, (5 * i + 3) as nat),
        spin: seed_n(counter, (5 * i + 4) as nat),
        shape: seed_n(counter, (5 * i + 5) as nat),
    }
}

/// The seeds one child of a shattered rock draws, in the order they are
/// drawn: its velocity and spin, then its outline.
#[derive(Clone, Copy, Debug, PartialEq, Eq, Structural)]
pub struct ChildSeeds {
    pub motion: u32,
    pub shape: u32,
}

/// The seeds child `i` draws when the stream stood at `counter` before the
/// split: two per child, child after child.
pub open spec fn child_seeds_at(counter: u32, i: int) -> ChildSeeds {
    ChildSeeds {
        motion: seed_n(counter, (2 * i + 1) as nat),
        shape: seed_n(counter, (2 * i + 2) as nat),
    }
}

/// The rocks of size `size` bound to `bodies`, in order.
pub open spec fn rocks_of(bodies: Seq<BodyId>, size: AsteroidSize) -> Seq<Asteroid> {
    bodies.map_values(|b: BodyId| Asteroid { entity: b, size })
}

impl AsteroidsGame {
    /// Next value of the monotonic hash-seed stream: one more than the last
    /// seed drawn (wrapping), so two draws in a row differ by exactly one.
    pub fn next_seed(&mut self) -> (seed: u32)
        ensures
            seed == seed_after(old(self).spawn_counter),
            final(self).spawn_counter == seed,
            final(self).ships@ == old(self).ships@,
            final(self).asteroids@ == old(self).asteroids@,
            same_settings(*final(self), *old(self)),
    {
        self.spawn_counter = self.spawn_counter.wrapping_add(1);
        self.spawn_counter
    }

    /// Draw the seeds of every rock of the current wave, rock after rock,
    /// five per rock (see `RockSeeds`). The wave has
    /// `wave_asteroid_count(wave, chaos_mode)` rocks.
    pub fn plan_wave(&mut self) -> (plan: Vec<RockSeeds>)
        ensures
            plan@.len() == spec_wave_asteroid_count(old(self).wave, old(self).chaos_mode),
            forall|i: int|
                0 <= i < plan@.len() ==> #[trigger] plan@[i] == wave_rock_seeds(
                    old(self).spawn_counter,
                    i,
                ),
            final(self).spawn_counter == seed_n(old(self).spawn_counter, (5 * plan@.len()) as nat),
            final(self).ships@ == old(self).ships@,
            final(self).asteroids@ == old(self).asteroids@,
            same_settings(*final(self), *old(self)),
    {
        let count = wave_asteroid_count(self.wave, self.chaos_mode);
        let ghost c0 = self.spawn_counter;
        let mut plan: Vec<RockSeeds> = Vec::new();
        let mut i: usize = 0;
        while i < count
            invariant
                i <= count,
                count == spec_wave_asteroid_count(old(self).wave, old(self).chaos_mode),
                c0 == old(self).spawn_counter,
                plan@.len() == i,
                forall|j: int| 0 <= j < i ==> #[trigger] plan@[j] == wave_rock_seeds(c0, j),
                self.spawn_counter == seed_n(c0, (5 * i) as nat),
                self.ships@ == old(self).ships@,
                self.asteroids@ == old(self).asteroids@,
                same_settings(*self, *old(self)),
            decreases count - i,
        {
            let ghost k = 5 * i;
            let position = self.next_seed();
            assert(position == seed_n(c0, (k + 1) as nat));
            let speed = self.next_seed();
            assert(speed == seed_n(c0, (k + 2) as nat));
            let heading = self.next_seed();
            assert(heading == seed_n(c0, (k + 3) as nat));
            let spin = self.next_seed();
            assert(spin == seed_n(c0, (k + 4) as nat));
            let shape = self.next_seed();
            assert(shape == seed_n(c0, (k + 5) as nat));
            plan.push(RockSeeds { position, speed, heading, spin, shape });
            i += 1;
        }
        plan
    }

    /// Draw the seeds of `count` children of a shattered rock, child after
    /// child, two per child (see `ChildSeeds`).
    pub(crate) fn plan_children(&mut self, count: usize) -> (seeds: Vec<ChildSeeds>)
        ensures
            seeds@.len() == count,
            forall|i: int|
                0 <= i < count ==> #[trigger] seeds@[i] == child_seeds_at(old(self).spawn_counter, i),
            final(self).spawn_counter == seed_n(old(self).spawn_counter, (2 * count) as nat),
            final(self).ships@ == old(self).ships@,
            final(self).asteroids@ == old(self).asteroids@,
            same_settings(*final(self), *old(self)),
    {
        let ghost c0 = self.spawn_counter;
        let mut seeds: Vec<ChildSeeds> = Vec::new();
        let mut i: usize = 0;
        while i < count
            invariant
                i <= count,
                c0 == old(self).spawn_counter,
                seeds@.len() == i,
                forall|j: int| 0 <= j < i ==> #[trigger] seeds@[j] == child_seeds_at(c0, j),
                self.spawn_counter == seed_n(c0, (2 * i) as nat),
                self.ships@ == old(self).ships@,
                self.asteroids@ == old(self).asteroids@,
                same_settings(*self, *old(self)),
            decreases count - i,
        {
            let ghost k = 2 * i;
            let motion = self.next_seed();
            assert(motion == seed_n(c0, (k + 1) as nat));
            let shape = self.next_seed();
            assert(shape == seed_n(c0, (k + 2) as nat));
            seeds.push(ChildSeeds { motion, shape });
            i += 1;
        }
        seeds
    }

    /// Track a rock that was just spawned.
    pub fn register_asteroid(&mut self, entity: BodyId, size: AsteroidSize)
        ensures
            final(self).asteroids@ == old(self).asteroids@.push(Asteroid { entity, size }),
            final(self).ships@ == old(self).ships@,
            final(self).spawn_counter == old(self).spawn_counter,
            same_settings(*final(self), *old(self)),
    {
        self.asteroids.push(Asteroid { entity, size });
    }

    /// Track the rocks of size `size` just spawned for `bodies`, in order.
    pub fn install_rocks(&mut self, bodies: &Vec<BodyId>, size: AsteroidSize)
        ensures
            final(self).asteroids@ == old(self).asteroids@ + rocks_of(bodies@, size),
            final(self).ships@ == old(self).ships@,
            final(self).spawn_counter == old(self).spawn_counter,
            same_settings(*final(self), *old(self)),
    {
        let mut i: usize = 0;
        while i < bodies.len()
            invariant
                i <= bodies@.len(),
                self.asteroids@ == old(self).asteroids@ + rocks_of(bodies@.take(i as int), size),
                self.ships@ == old(self).ships@,
                self.spawn_counter == old(self).spawn_counter,
                same_settings(*self, *old(self)),
            decreases bodies@.len() - i,
        {
            self.register_asteroid(bodies[i], size);
            proof {
                assert(rocks_of(bodies@.take(i + 1), size) =~= rocks_of(
                    bodies@.take(i as int),
                    size,
                ).push(Asteroid { entity: bodies@[i as int], size }));
            }
            i += 1;
        }
        proof {
            assert(bodies@.take(bodies@.len() as int) =~= bodies@);
        }
    }

    /// Track the large rocks just spawned for the current wave, one body
    /// per planned rock (see `plan_wave`).
    pub fn install_wave(&mut self, bodies: &Vec<BodyId>)
        requires
            bodies@.len() == spec_wave_asteroid_count(old(self).wave, old(self).chaos_mode),
        ensures
            final(self).asteroids@ == old(self).asteroids@ + rocks_of(bodies@, AsteroidSize::Large),
            final(self).asteroids@.len() == old(self).asteroids@.len()
                + spec_wave_asteroid_count(old(self).wave, old(self).chaos_mode),
            final(self).ships@ == old(self).ships@,
            final(self).spawn_counter == old(self).spawn_counter,
            same_settings(*final(self), *old(self)),
    {
        self.install_rocks(bodies, AsteroidSize::Large);
    }

    /// Track the children of a shattered rock just spawned, one body per
    /// child, each of the child size.
    pub fn install_children(&mut self, shatter: &Shatter, bodies: &Vec<BodyId>)
        requires
            bodies@.len() == split_count(shatter.children),
        ensures
            final(self).asteroids@ == match shatter.children {
                Some((size, _)) => old(self).asteroids@ + rocks_of(bodies@, size),
                None => old(self).asteroids@,
            },
            final(self).ships@ == old(self).ships@,
            same_counters(*final(self), *old(self)),
    {
        if let Some((size, _)) = shatter.children {
            self.install_rocks(bodies, size);
        }
    }
}

} // verus!
