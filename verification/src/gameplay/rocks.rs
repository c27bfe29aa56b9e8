//! Rock rules: splitting, wave sizing, and bullet-hit resolution.

use vstd::prelude::*;
use crate::achievements::{spec_wave5_achievement, wave5_achievement, Achievement};
use crate::constants::{
    EXTRA_LIFE_EVERY, SCORE_TIER_1, SCORE_TIER_2, RIDICULOUS_EXTRA_ASTEROIDS, RIDICULOUS_LARGE_SPLIT_COUNT, SHARPSHOOTER_TARGET,
    SPLIT_COUNT, UNTOUCHABLE_WAVES, WAVE_BASE_ASTEROIDS, WAVE_MAX_ASTEROIDS, WAVE_MILESTONE,
};
use crate::gameplay::{all_bullets, same_but_bullets, same_counters, same_settings};
use crate::gameplay::flow::{bonus_lives, lives_total, score_tier_unlocks};
use crate::spawning::{child_seeds_at, seed_n, ChildSeeds};
use crate::types::{
    spec_is_ridiculous, spec_size_score, Asteroid, AsteroidSize, AsteroidsGame, BodyId, ChaosMode,
    ShipState,
};

verus! {

// ---------------------------------------------------------------------
// Splitting and waves
// ---------------------------------------------------------------------

/// What a shattered rock becomes: `(child size, child count)`, or `None`
/// for small rocks (they just vanish).
pub open spec fn spec_split_spec(size: AsteroidSize, mode: ChaosMode) -> Option<(AsteroidSize, usize)> {
    match size {
        AsteroidSize::Large => Some(
            (
                AsteroidSize::Medium,
                if spec_is_ridiculous(mode) {
                    RIDICULOUS_LARGE_SPLIT_COUNT
                } else {
                    SPLIT_COUNT
                },
            ),
        ),
        AsteroidSize::Medium => Some((AsteroidSize::Small, SPLIT_COUNT)),
        AsteroidSize::Small => None,
    }
}

/// What a shattered rock becomes: Large splits into two Medium (three in
/// the Ridiculous family), Medium into two Small, and Small vanishes.
pub fn split_spec(size: AsteroidSize, mode: ChaosMode) -> (r: Option<(AsteroidSize, usize)>)
    ensures
        r == spec_split_spec(size, mode),
{
    match size {
        AsteroidSize::Large => {
            let count = if mode.is_ridiculous() {
                RIDICULOUS_LARGE_SPLIT_COUNT
            } else {
                SPLIT_COUNT
            };
            Some((AsteroidSize::Medium, count))
        },
        AsteroidSize::Medium => Some((AsteroidSize::Small, SPLIT_COUNT)),
        AsteroidSize::Small => None,
    }
}

/// A shattered rock splits into at least two children of the next smaller
/// size, which pay more; a small rock splits into nothing. Only a large rock
/// in the Ridiculous family splits three ways, and the chaos mode changes
/// nothing else about a split.
pub proof fn splits_step_down_one_size(size: AsteroidSize, mode: ChaosMode, other: ChaosMode)
    ensures
        size == AsteroidSize::Small <==> spec_split_spec(size, mode) is None,
        spec_split_spec(size, mode) matches Some((child, n)) ==> spec_size_score(child)
            > spec_size_score(size) && n >= 2 && (n == 3 <==> (size == AsteroidSize::Large
            && spec_is_ridiculous(mode))) && (n == 2 || n == 3),
        size != AsteroidSize::Large ==> spec_split_spec(size, mode) == spec_split_spec(size, other),
        spec_split_spec(size, mode) matches Some((child, _)) ==> spec_split_spec(size, other)
            matches Some((child2, _)) && child2 == child,
{
}

/// Extra large rocks per wave that a chaos mode adds.
pub open spec fn wave_extra(mode: ChaosMode) -> int {
    if spec_is_ridiculous(mode) {
        RIDICULOUS_EXTRA_ASTEROIDS as int
    } else {
        0
    }
}

/// Large rocks in wave `wave` before the chaos extra: one more per wave
/// from the base, up to the cap.
pub open spec fn wave_base_count(wave: u32) -> int {
    let grown = WAVE_BASE_ASTEROIDS + (if wave >= 1 { wave - 1 } else { 0int });
    if grown < WAVE_MAX_ASTEROIDS {
        grown
    } else {
        WAVE_MAX_ASTEROIDS as int
    }
}

/// Large rocks in wave `wave`: the base count plus the chaos extra.
pub open spec fn spec_wave_asteroid_count(wave: u32, mode: ChaosMode) -> int {
    wave_base_count(wave) + wave_extra(mode)
}

/// Large rocks in wave `wave`: grows by one per wave up to the cap, plus
/// one extra in the Ridiculous family.
pub fn wave_asteroid_count(wave: u32, mode: ChaosMode) -> (n: usize)
    ensures
        n == spec_wave_asteroid_count(wave, mode),
{
    let grown: u32 = wave.saturating_sub(1);
    let base: usize = if grown as u64 >= (WAVE_MAX_ASTEROIDS - WAVE_BASE_ASTEROIDS) as u64 {
        WAVE_MAX_ASTEROIDS
    } else {
        WAVE_BASE_ASTEROIDS + grown as usize
    };
    base + if mode.is_ridiculous() {
        RIDICULOUS_EXTRA_ASTEROIDS
    } else {
        0
    }
}

/// The wave size grows by exactly one rock per wave until it reaches the
/// cap, and stays there afterwards; the chaos mode only adds a constant.
pub proof fn wave_grows_by_one_until_cap(wave: u32, mode: ChaosMode)
    requires
        1 <= wave < u32::MAX,
    ensures
        wave_base_count((wave + 1) as u32) == if wave_base_count(wave) < WAVE_MAX_ASTEROIDS {
            wave_base_count(wave) + 1
        } else {
            wave_base_count(wave)
        },
        WAVE_BASE_ASTEROIDS <= wave_base_count(wave) <= WAVE_MAX_ASTEROIDS,
        spec_wave_asteroid_count((wave + 1) as u32, mode) - spec_wave_asteroid_count(wave, mode)
            == wave_base_count((wave + 1) as u32) - wave_base_count(wave),
{
}

// ---------------------------------------------------------------------
// Bullet hits
// ---------------------------------------------------------------------

/// A contact the physics world reported this frame between two bodies;
/// `started` is true on the frame the two began touching.
#[derive(Clone, Copy, Debug, PartialEq, Eq, Structural)]
pub struct Contact {
    pub a: BodyId,
    pub b: BodyId,
    pub started: bool,
}

impl Contact {
    pub open spec fn spec_involves(self, x: BodyId, y: BodyId) -> bool {
        (self.a == x && self.b == y) || (self.a == y && self.b == x)
    }

    /// Whether this contact is between `x` and `y`, in either order.
    pub fn involves(&self, x: BodyId, y: BodyId) -> (r: bool)
        ensures
            r == self.spec_involves(x, y),
    {
        (self.a == x && self.b == y) || (self.a == y && self.b == x)
    }
}

/// `b` already resolved as the bullet of some hit.
pub open spec fn bullet_taken(hits: Seq<(BodyId, BodyId)>, b: BodyId) -> bool {
    exists|k: int| 0 <= k < hits.len() && #[trigger] hits[k].0 == b
}

/// `r` already resolved as the rock of some hit.
pub open spec fn rock_taken(hits: Seq<(BodyId, BodyId)>, r: BodyId) -> bool {
    exists|k: int| 0 <= k < hits.len() && #[trigger] hits[k].1 == r
}

/// Rock `j` is still whole and `c` is a contact between it and `bullet`.
pub open spec fn rock_free_for(
    c: Contact,
    hits: Seq<(BodyId, BodyId)>,
    rocks: Seq<BodyId>,
    bullet: BodyId,
    j: int,
) -> bool {
    &&& 0 <= j < rocks.len()
    &&& !rock_taken(hits, rocks[j])
    &&& c.spec_involves(bullet, rocks[j])
}

/// Bullet `i` is still live and `c` touches it against some whole rock.
pub open spec fn bullet_can_hit(
    c: Contact,
    hits: Seq<(BodyId, BodyId)>,
    bullets: Seq<BodyId>,
    rocks: Seq<BodyId>,
    i: int,
) -> bool {
    &&& 0 <= i < bullets.len()
    &&& !bullet_taken(hits, bullets[i])
    &&& exists|j: int| rock_free_for(c, hits, rocks, bullets[i], j)
}

/// `(i, j)` is the pair contact `c` resolves: the first bullet (in bullet
/// order) that can hit, and the first whole rock (in rock order) it touches.
pub open spec fn is_pick(
    c: Contact,
    hits: Seq<(BodyId, BodyId)>,
    bullets: Seq<BodyId>,
    rocks: Seq<BodyId>,
    i: int,
    j: int,
) -> bool {
    &&& bullet_can_hit(c, hits, bullets, rocks, i)
    &&& forall|i2: int| 0 <= i2 < i ==> !bullet_can_hit(c, hits, bullets, rocks, i2)
    &&& rock_free_for(c, hits, rocks, bullets[i], j)
    &&& forall|j2: int| 0 <= j2 < j ==> !rock_free_for(c, hits, rocks, bullets[i], j2)
}

/// The hit (bullet, rock) that contact `c` adds to `hits`, if any.
pub open spec fn contact_hit(
    c: Contact,
    hits: Seq<(BodyId, BodyId)>,
    bullets: Seq<BodyId>,
    rocks: Seq<BodyId>,
) -> Option<(BodyId, BodyId)> {
    if c.started && exists|i: int, j: int| is_pick(c, hits, bullets, rocks, i, j) {
        let (i, j) = choose|i: int, j: int| is_pick(c, hits, bullets, rocks, i, j);
        Some((bullets[i], rocks[j]))
    } else {
        None
    }
}

/// The hits of a frame: contacts are taken in order; each started contact
/// resolves the first live bullet that touches a whole rock against the
/// first such rock, so every bullet and every rock resolves at most once.
pub open spec fn resolve_hits(
    contacts: Seq<Contact>,
    bullets: Seq<BodyId>,
    rocks: Seq<BodyId>,
) -> Seq<(BodyId, BodyId)>
    decreases contacts.len(),
{
    if contacts.len() == 0 {
        seq![]
    } else {
        let prev = resolve_hits(contacts.drop_last(), bullets, rocks);
        match contact_hit(contacts.last(), prev, bullets, rocks) {
            Some(h) => prev.push(h),
            None => prev,
        }
    }
}

proof fn lemma_pick_unique(
    c: Contact,
    hits: Seq<(BodyId, BodyId)>,
    bullets: Seq<BodyId>,
    rocks: Seq<BodyId>,
    i: int,
    j: int,
    i2: int,
    j2: int,
)
    requires
        is_pick(c, hits, bullets, rocks, i, j),
        is_pick(c, hits, bullets, rocks, i2, j2),
    ensures
        i == i2,
        j == j2,
{
    if i < i2 {
        assert(!bullet_can_hit(c, hits, bullets, rocks, i));
    }
    if i2 < i {
        assert(!bullet_can_hit(c, hits, bullets, rocks, i2));
    }
    if j < j2 {
        assert(!rock_free_for(c, hits, rocks, bullets[i], j));
    }
    if j2 < j {
        assert(!rock_free_for(c, hits, rocks, bullets[i], j2));
    }
}

fn bullet_taken_exec(hits: &Vec<(BodyId, BodyId)>, b: BodyId) -> (r: bool)
    ensures
        r == bullet_taken(hits@, b),
{
    let mut k: usize = 0;
    while k < hits.len()
        invariant
            k <= hits@.len(),
            forall|k2: int| 0 <= k2 < k ==> hits@[k2].0 != b,
        decreases hits@.len() - k,
    {
        if hits[k].0 == b {
            return true;
        }
        k += 1;
    }
    false
}

fn rock_taken_exec(hits: &Vec<(BodyId, BodyId)>, r: BodyId) -> (res: bool)
    ensures
        res == rock_taken(hits@, r),
{
    let mut k: usize = 0;
    while k < hits.len()
        invariant
            k <= hits@.len(),
            forall|k2: int| 0 <= k2 < k ==> hits@[k2].1 != r,
        decreases hits@.len() - k,
    {
        if hits[k].1 == r {
            return true;
        }
        k += 1;
    }
    false
}

/// Index of the first whole rock that contact `c` touches against `bullet`.
fn first_free_rock(
    c: &Contact,
    hits: &Vec<(BodyId, BodyId)>,
    rocks: &Vec<BodyId>,
    bullet: BodyId,
) -> (r: Option<usize>)
    ensures
        match r {
            Some(j) => rock_free_for(*c, hits@, rocks@, bullet, j as int) && forall|j2: int|
                0 <= j2 < j ==> !rock_free_for(*c, hits@, rocks@, bullet, j2),
            None => forall|j2: int| !rock_free_for(*c, hits@, rocks@, bullet, j2),
        },
{
    let mut j: usize = 0;
    while j < rocks.len()
        invariant
            j <= rocks@.len(),
            forall|j2: int| 0 <= j2 < j ==> !rock_free_for(*c, hits@, rocks@, bullet, j2),
        decreases rocks@.len() - j,
    {
        let rock = rocks[j];
        if !rock_taken_exec(hits, rock) && c.involves(bullet, rock) {
            return Some(j);
        }
        j += 1;
    }
    None
}

/// The hit contact `c` resolves given the hits so far (exec side of `contact_hit`).
fn resolve_contact(
    c: &Contact,
    hits: &Vec<(BodyId, BodyId)>,
    bullets: &Vec<BodyId>,
    rocks: &Vec<BodyId>,
) -> (r: Option<(BodyId, BodyId)>)
    ensures
        r == contact_hit(*c, hits@, bullets@, rocks@),
{
    if !c.started {
        return None;
    }
    let mut i: usize = 0;
    while i < bullets.len()
        invariant
            c.started,
            i <= bullets@.len(),
            forall|i2: int| 0 <= i2 < i ==> !bullet_can_hit(*c, hits@, bullets@, rocks@, i2),
        decreases bullets@.len() - i,
    {
        let bullet = bullets[i];
        if !bullet_taken_exec(hits, bullet) {
            match first_free_rock(c, hits, rocks, bullet) {
                Some(j) => {
                    proof {
                        assert(is_pick(*c, hits@, bullets@, rocks@, i as int, j as int));
                        let (i2, j2) = choose|i2: int, j2: int|
                            is_pick(*c, hits@, bullets@, rocks@, i2, j2);
                        lemma_pick_unique(*c, hits@, bullets@, rocks@, i as int, j as int, i2, j2);
                    }
                    return Some((bullet, rocks[j]));
                },
                None => {
                    assert(!bullet_can_hit(*c, hits@, bullets@, rocks@, i as int));
                },
            }
        }
        i += 1;
    }
    proof {
        assert forall|i2: int, j2: int| !is_pick(*c, hits@, bullets@, rocks@, i2, j2) by {
            if 0 <= i2 < bullets@.len() {
                assert(!bullet_can_hit(*c, hits@, bullets@, rocks@, i2));
            }
        }
    }
    None
}

/// Match this frame's contacts against live bullets and rocks. Pairs are
/// collected so that each bullet and each rock resolves at most once per
/// frame (a bullet grazing two rocks kills only one).
pub fn find_hits(contacts: &Vec<Contact>, bullets: &Vec<BodyId>, rocks: &Vec<BodyId>) -> (hits: Vec<
    (BodyId, BodyId),
>)
    ensures
        hits@ == resolve_hits(contacts@, bullets@, rocks@),
{
    let mut hits: Vec<(BodyId, BodyId)> = Vec::new();
    let mut ci: usize = 0;
    while ci < contacts.len()
        invariant
            ci <= contacts@.len(),
            hits@ == resolve_hits(contacts@.take(ci as int), bullets@, rocks@),
        decreases contacts@.len() - ci,
    {
        let c = &contacts[ci];
        let r = resolve_contact(c, &hits, bullets, rocks);
        proof {
            assert(contacts@.take(ci + 1).drop_last() =~= contacts@.take(ci as int));
        }
        match r {
            Some(h) => hits.push(h),
            None => {},
        }
        ci += 1;
    }
    proof {
        assert(contacts@.take(contacts@.len() as int) =~= contacts@);
    }
    hits
}

/// Every resolved hit pairs a listed bullet with a listed rock that a
/// started contact of the frame put together, and no bullet and no rock
/// resolves twice in one frame.
pub proof fn hits_resolve_each_body_once(
    contacts: Seq<Contact>,
    bullets: Seq<BodyId>,
    rocks: Seq<BodyId>,
)
    ensures
        ({
            let hits = resolve_hits(contacts, bullets, rocks);
            &&& hits.len() <= contacts.len()
            &&& forall|k1: int, k2: int|
                0 <= k1 < k2 < hits.len() ==> hits[k1].0 != hits[k2].0 && hits[k1].1 != hits[k2].1
            &&& forall|k: int|
                0 <= k < hits.len() ==> bullets.contains(#[trigger] hits[k].0) && rocks.contains(
                    hits[k].1,
                ) && exists|ci: int|
                    0 <= ci < contacts.len() && contacts[ci].started && #[trigger] contacts[ci].spec_involves(
                        hits[k].0,
                        hits[k].1,
                    )
        }),
    decreases contacts.len(),
{
    if contacts.len() > 0 {
        let prefix = contacts.drop_last();
        hits_resolve_each_body_once(prefix, bullets, rocks);
        let prev = resolve_hits(prefix, bullets, rocks);
        let c = contacts.last();
        let hits = resolve_hits(contacts, bullets, rocks);
        assert forall|k: int| 0 <= k < prev.len() implies #[trigger] prev[k] == prev[k] && exists|ci: int|
            0 <= ci < contacts.len() && contacts[ci].started && #[trigger] contacts[ci].spec_involves(
                prev[k].0,
                prev[k].1,
            ) by {
            let ci = choose|ci: int|
                0 <= ci < prefix.len() && prefix[ci].started && #[trigger] prefix[ci].spec_involves(
                    prev[k].0,
                    prev[k].1,
                );
            assert(contacts[ci] == prefix[ci]);
        }
        match contact_hit(c, prev, bullets, rocks) {
            Some(h) => {
                let (i, j) = choose|i: int, j: int| is_pick(c, prev, bullets, rocks, i, j);
                assert(hits == prev.push(h));
                assert(h == (bullets[i], rocks[j]));
                assert(bullets.contains(bullets[i]));
                assert(rocks.contains(rocks[j]));
                assert(contacts[contacts.len() - 1] == c);
                assert forall|k1: int, k2: int| 0 <= k1 < k2 < hits.len() implies hits[k1].0
                    != hits[k2].0 && hits[k1].1 != hits[k2].1 by {
                    if k2 == hits.len() - 1 {
                        assert(hits[k1] == prev[k1]);
                        if hits[k1].0 == hits[k2].0 {
                            assert(bullet_taken(prev, bullets[i]));
                        }
                        if hits[k1].1 == hits[k2].1 {
                            assert(rock_taken(prev, rocks[j]));
                        }
                    }
                }
                assert forall|k: int| 0 <= k < hits.len() implies bullets.contains(
                    #[trigger] hits[k].0,
                ) && rocks.contains(hits[k].1) && exists|ci: int|
                    0 <= ci < contacts.len() && contacts[ci].started
                        && #[trigger] contacts[ci].spec_involves(hits[k].0, hits[k].1) by {
                    if k == hits.len() - 1 {
                        assert(contacts[contacts.len() - 1].spec_involves(hits[k].0, hits[k].1));
                    } else {
                        assert(hits[k] == prev[k]);
                    }
                }
            },
            None => {},
        }
    }
}

// ---------------------------------------------------------------------
// Resolving hits on the match
// ---------------------------------------------------------------------

/// A bullet that resolved a hit is gone from the list it is filtered out
/// of, so a spent bullet can never hit again in a later frame; bullets
/// that hit nothing stay.
pub proof fn spent_bullets_leave_their_list(
    bullets: Seq<BodyId>,
    hits: Seq<(BodyId, BodyId)>,
    b: BodyId,
)
    ensures
        bullet_taken(hits, b) ==> !bullets.filter(|x: BodyId| !bullet_taken(hits, x)).contains(b),
        !bullet_taken(hits, b) && bullets.contains(b) ==> bullets.filter(
            |x: BodyId| !bullet_taken(hits, x),
        ).contains(b),
{
    let pred = |x: BodyId| !bullet_taken(hits, x);
    let kept = bullets.filter(pred);
    if bullet_taken(hits, b) && kept.contains(b) {
        let k = choose|k: int| 0 <= k < kept.len() && kept[k] == b;
        bullets.lemma_filter_pred(pred, k);
    }
    if !bullet_taken(hits, b) && bullets.contains(b) {
        bullets.lemma_filter_contains_rev(pred, b);
    }
}

/// The bodies of the rocks, in field order.
pub open spec fn rock_bodies(asteroids: Seq<Asteroid>) -> Seq<BodyId> {
    asteroids.map_values(|a: Asteroid| a.entity)
}

/// Ship `i` owns bullet `b`: it is the first ship whose list holds `b`.
pub open spec fn is_owner(ships: Seq<ShipState>, b: BodyId, i: int) -> bool {
    &&& 0 <= i < ships.len()
    &&& ships[i].bullets@.contains(b)
    &&& forall|i2: int| 0 <= i2 < i ==> !(#[trigger] ships[i2]).bullets@.contains(b)
}

/// A bullet that hit a rock this frame, and the ship it is credited to.
#[derive(Clone, Copy, Debug, PartialEq, Eq, Structural)]
pub struct Hit {
    pub bullet: BodyId,
    pub rock: BodyId,
    pub owner: usize,
}

proof fn lemma_all_bullets_owner(ships: Seq<ShipState>, b: BodyId)
    requires
        all_bullets(ships).contains(b),
    ensures
        exists|i: int| 0 <= i < ships.len() && (#[trigger] ships[i]).bullets@.contains(b),
    decreases ships.len(),
{
    let prefix = ships.drop_last();
    let k = choose|k: int| 0 <= k < all_bullets(ships).len() && all_bullets(ships)[k] == b;
    if k < all_bullets(prefix).len() {
        assert(all_bullets(prefix)[k] == b);
        lemma_all_bullets_owner(prefix, b);
        let i = choose|i: int| 0 <= i < prefix.len() && (#[trigger] prefix[i]).bullets@.contains(b);
        assert(ships[i] == prefix[i]);
    } else {
        let last = ships.last();
        assert(last.bullets@[k - all_bullets(prefix).len()] == b);
        assert(ships[ships.len() - 1] == last);
    }
}

fn list_holds(v: &Vec<BodyId>, b: BodyId) -> (r: bool)
    ensures
        r == v@.contains(b),
{
    let mut k: usize = 0;
    while k < v.len()
        invariant
            k <= v@.len(),
            forall|k2: int| 0 <= k2 < k ==> v@[k2] != b,
        decreases v@.len() - k,
    {
        if v[k] == b {
            return true;
        }
        k += 1;
    }
    false
}

/// The bullets of `v` that no hit resolved, in their order.
fn retain_unhit(v: &Vec<BodyId>, hits: &Vec<(BodyId, BodyId)>) -> (r: Vec<BodyId>)
    ensures
        r@ == v@.filter(|b: BodyId| !bullet_taken(hits@, b)),
{
    let ghost pred = |b: BodyId| !bullet_taken(hits@, b);
    let mut r: Vec<BodyId> = Vec::new();
    let mut i: usize = 0;
    while i < v.len()
        invariant
            i <= v@.len(),
            pred == (|b: BodyId| !bullet_taken(hits@, b)),
            r@ == v@.take(i as int).filter(pred),
        decreases v@.len() - i,
    {
        reveal_with_fuel(Seq::<_>::filter, 1);
        let b = v[i];
        let keep = !bullet_taken_exec(hits, b);
        proof {
            assert(v@.take(i + 1).drop_last() =~= v@.take(i as int));
            assert(v@.take(i + 1).last() == b);
            assert(pred(b) == keep);
        }
        if keep {
            r.push(b);
        }
        i += 1;
    }
    assert(v@.take(v@.len() as int) =~= v@);
    r
}

/// The ship, the award and the streak a shatter may credit without overflow.
pub open spec fn can_score(ship: ShipState, points: int) -> bool {
    &&& ship.score + points <= u32::MAX
    &&& ship.lives + bonus_lives(ship.next_extra_life_at as int, ship.score + points) <= u32::MAX
    &&& ship.next_extra_life_at + (EXTRA_LIFE_EVERY as int) * bonus_lives(
        ship.next_extra_life_at as int,
        ship.score + points,
    ) <= u32::MAX
    &&& ship.shot_streak < u32::MAX
}

impl ShipState {
    /// Whether this ship can be credited `points` for a shatter without
    /// overflowing its score, lives, next bonus threshold or streak.
    pub fn can_take(&self, points: u32) -> (ok: bool)
        ensures
            ok == can_score(*self, points as int),
    {
        let every: u64 = EXTRA_LIFE_EVERY as u64;
        let score: u64 = self.score as u64 + points as u64;
        if score > u32::MAX as u64 {
            return false;
        }
        let next: u64 = self.next_extra_life_at as u64;
        let bonus: u64 = if score >= next {
            (score - next) / every + 1
        } else {
            0
        };
        assert(bonus == bonus_lives(next as int, score as int));
        assert(bonus <= u32::MAX as u64 / every + 1);
        if self.lives as u64 + bonus > u32::MAX as u64 {
            return false;
        }
        if next + every * bonus > u32::MAX as u64 {
            return false;
        }
        self.shot_streak < u32::MAX
    }
}

/// Ship `owner` can be credited the points of the first rock with body
/// `rock` (see `can_score`), if there is such a rock.
pub open spec fn credit_fits(game: AsteroidsGame, rock: BodyId, owner: usize) -> bool {
    forall|idx: int|
        #[trigger] is_first_rock(game.asteroids@, rock, idx) ==> owner < game.ships@.len()
            && can_score(game.ships@[owner as int], spec_size_score(game.asteroids@[idx].size) as int)
}

/// Children a split produces.
pub open spec fn split_count(children: Option<(AsteroidSize, usize)>) -> int {
    match children {
        Some((_, n)) => n as int,
        None => 0,
    }
}

/// Rock `idx` is the first rock of the field with body `rock`.
pub open spec fn is_first_rock(asteroids: Seq<Asteroid>, rock: BodyId, idx: int) -> bool {
    &&& 0 <= idx < asteroids.len()
    &&& asteroids[idx].entity == rock
    &&& forall|i: int| 0 <= i < idx ==> (#[trigger] asteroids[i]).entity != rock
}

/// The achievements a shatter unlocks: the score tiers the shooter
/// reached, the sharpshooter streak, a close call, then a double tap.
pub open spec fn shatter_unlocks(score: int, streak: int, close_call: bool, double_tap: bool) -> Seq<
    Achievement,
> {
    score_tier_unlocks(score) + (if streak >= SHARPSHOOTER_TARGET {
        seq![Achievement::Sharpshooter]
    } else {
        seq![]
    }) + (if close_call {
        seq![Achievement::CloseCall]
    } else {
        seq![]
    }) + (if double_tap {
        seq![Achievement::DoubleTap]
    } else {
        seq![]
    })
}

/// A shatter reports every score tier the shooter's new score has reached,
/// ahead of any skill achievement, and each skill achievement exactly when
/// its condition holds: the sharpshooter streak, a close call, a double tap.
pub proof fn shatter_reports_tiers_then_skills(
    score: int,
    streak: int,
    close_call: bool,
    double_tap: bool,
)
    ensures
        ({
            let u = shatter_unlocks(score, streak, close_call, double_tap);
            &&& u.contains(Achievement::Score10k) <==> score >= SCORE_TIER_1
            &&& u.contains(Achievement::Score30k) <==> score >= SCORE_TIER_2
            &&& score >= SCORE_TIER_1 ==> u[0] == Achievement::Score10k
            &&& score >= SCORE_TIER_2 ==> u[1] == Achievement::Score30k
            &&& u.contains(Achievement::Sharpshooter) <==> streak >= SHARPSHOOTER_TARGET
            &&& u.contains(Achievement::CloseCall) <==> close_call
            &&& u.contains(Achievement::DoubleTap) <==> double_tap
            &&& u.len() <= 5
        }),
{
    let t = score_tier_unlocks(score);
    let a = if streak >= SHARPSHOOTER_TARGET {
        seq![Achievement::Sharpshooter]
    } else {
        seq![]
    };
    let b = if close_call {
        seq![Achievement::CloseCall]
    } else {
        seq![]
    };
    let c = if double_tap {
        seq![Achievement::DoubleTap]
    } else {
        seq![]
    };
    let u = shatter_unlocks(score, streak, close_call, double_tap);
    assert(u == t + a + b + c);
    assert(SCORE_TIER_1 < SCORE_TIER_2);
    if score >= SCORE_TIER_2 {
        assert(t =~= seq![Achievement::Score10k, Achievement::Score30k]);
    } else if score >= SCORE_TIER_1 {
        assert(t =~= seq![Achievement::Score10k]);
    } else {
        assert(t =~= Seq::<Achievement>::empty());
    }
    let skills = a + b + c;
    assert(u =~= t + skills);
    assert forall|x: Achievement| #[trigger] skills.contains(x) implies (x
        == Achievement::Sharpshooter && streak >= SHARPSHOOTER_TARGET) || (x == Achievement::CloseCall
        && close_call) || (x == Achievement::DoubleTap && double_tap) by {
        let i = choose|i: int| 0 <= i < skills.len() && skills[i] == x;
        if i < a.len() {
            assert(skills[i] == a[i]);
        } else if i < a.len() + b.len() {
            assert(skills[i] == b[i - a.len()]);
        } else {
            assert(skills[i] == c[i - a.len() - b.len()]);
        }
    }
    assert forall|x: Achievement| #[trigger] t.contains(x) implies x == Achievement::Score10k || x
        == Achievement::Score30k by {
        let i = choose|i: int| 0 <= i < t.len() && t[i] == x;
    }
    assert forall|x: Achievement| #[trigger] u.contains(x) implies t.contains(x) || skills.contains(x) by {
        let i = choose|i: int| 0 <= i < u.len() && u[i] == x;
        if i < t.len() {
            assert(u[i] == t[i]);
        } else {
            assert(u[i] == skills[i - t.len()]);
        }
    }
    if streak >= SHARPSHOOTER_TARGET {
        assert(u[t.len() as int] == Achievement::Sharpshooter);
    }
    if close_call {
        assert(u[(t.len() + a.len()) as int] == Achievement::CloseCall);
    }
    if double_tap {
        assert(u[(t.len() + a.len() + b.len()) as int] == Achievement::DoubleTap);
    }
    if score >= SCORE_TIER_1 {
        assert(u[0] == Achievement::Score10k);
    }
    if score >= SCORE_TIER_2 {
        assert(u[1] == Achievement::Score30k);
    }
}

/// What shattering a rock produced.
#[derive(Debug)]
pub struct Shatter {
    pub size: AsteroidSize,
    /// Achievements earned by the shooter.
    pub unlocks: Vec<Achievement>,
    /// Child size and count to spawn, if the rock splits.
    pub children: Option<(AsteroidSize, usize)>,
    /// The seeds each child draws, in child order.
    pub child_seeds: Vec<ChildSeeds>,
}

impl AsteroidsGame {
    /// Bodies of every rock, in field order.
    pub fn rock_ids(&self) -> (ids: Vec<BodyId>)
        ensures
            ids@ == rock_bodies(self.asteroids@),
    {
        let mut ids: Vec<BodyId> = Vec::new();
        let mut i: usize = 0;
        while i < self.asteroids.len()
            invariant
                i <= self.asteroids@.len(),
                ids@ == rock_bodies(self.asteroids@.take(i as int)),
            decreases self.asteroids@.len() - i,
        {
            ids.push(self.asteroids[i].entity);
            proof {
                assert(rock_bodies(self.asteroids@.take(i + 1)) =~= rock_bodies(
                    self.asteroids@.take(i as int),
                ).push(self.asteroids@[i as int].entity));
            }
            i += 1;
        }
        proof {
            assert(self.asteroids@.take(self.asteroids@.len() as int) =~= self.asteroids@);
        }
        ids
    }

    /// Whether ship `owner` can be credited the rock with body `rock`
    /// without overflow; true when no rock has that body.
    pub fn can_credit(&self, rock: BodyId, owner: usize) -> (ok: bool)
        ensures
            ok == credit_fits(*self, rock, owner),
    {
        match self.rock_index(rock) {
            None => true,
            Some(idx) => {
                proof {
                    assert forall|j: int| #[trigger]
                        is_first_rock(self.asteroids@, rock, j) implies j == idx by {
                        if j < idx {
                            assert(self.asteroids@[j].entity == rock);
                        } else if j > idx {
                            assert(self.asteroids@[idx as int].entity == rock);
                        }
                    }
                }
                if owner >= self.ships.len() {
                    return false;
                }
                self.ships[owner].can_take(self.asteroids[idx].size.score())
            },
        }
    }

    /// Position in the field of the first rock with body `rock`.
    pub fn rock_index(&self, rock: BodyId) -> (idx: Option<usize>)
        ensures
            match idx {
                Some(i) => is_first_rock(self.asteroids@, rock, i as int),
                None => forall|i: int|
                    0 <= i < self.asteroids@.len() ==> (#[trigger] self.asteroids@[i]).entity != rock,
            },
    {
        let mut i: usize = 0;
        while i < self.asteroids.len()
            invariant
                i <= self.asteroids@.len(),
                forall|i2: int| 0 <= i2 < i ==> (#[trigger] self.asteroids@[i2]).entity != rock,
            decreases self.asteroids@.len() - i,
        {
            if self.asteroids[i].entity == rock {
                return Some(i);
            }
            i += 1;
        }
        None
    }

    /// The ship that owns bullet `b`: the first whose list holds it.
    pub fn bullet_owner(&self, b: BodyId) -> (owner: Option<usize>)
        ensures
            match owner {
                Some(i) => is_owner(self.ships@, b, i as int),
                None => forall|i: int|
                    0 <= i < self.ships@.len() ==> !(#[trigger] self.ships@[i]).bullets@.contains(b),
            },
    {
        let mut i: usize = 0;
        while i < self.ships.len()
            invariant
                i <= self.ships@.len(),
                forall|i2: int| 0 <= i2 < i ==> !(#[trigger] self.ships@[i2]).bullets@.contains(b),
            decreases self.ships@.len() - i,
        {
            if list_holds(&self.ships[i].bullets, b) {
                return Some(i);
            }
            i += 1;
        }
        None
    }

    /// Match this frame's contacts against every ship's live bullets and
    /// the rocks (see `resolve_hits`), credit each hit to the bullet's
    /// owner and drop the spent bullets from the ships' lists. Each bullet
    /// and each rock resolves at most once per frame.
    pub fn resolve_bullet_hits(&mut self, contacts: &Vec<Contact>) -> (hits: Vec<Hit>)
        ensures
            ({
                let resolved = resolve_hits(
                    contacts@,
                    all_bullets(old(self).ships@),
                    rock_bodies(old(self).asteroids@),
                );
                &&& hits@.len() == resolved.len()
                &&& forall|k: int|
                    0 <= k < hits@.len() ==> (#[trigger] hits@[k]).bullet == resolved[k].0
                        && hits@[k].rock == resolved[k].1 && is_owner(
                        old(self).ships@,
                        resolved[k].0,
                        hits@[k].owner as int,
                    )
                &&& final(self).ships@.len() == old(self).ships@.len()
                &&& forall|i: int|
                    0 <= i < final(self).ships@.len() ==> (#[trigger] final(self).ships@[i]).bullets@
                        == old(self).ships@[i].bullets@.filter(
                        |b: BodyId| !bullet_taken(resolved, b),
                    ) && same_but_bullets(final(self).ships@[i], old(self).ships@[i])
            }),
            final(self).asteroids@ == old(self).asteroids@,
            same_counters(*final(self), *old(self)),
    {
        let bullets = self.all_bullet_ids();
        let rocks = self.rock_ids();
        let raw = find_hits(contacts, &bullets, &rocks);
        let ghost resolved = raw@;
        proof {
            hits_resolve_each_body_once(contacts@, bullets@, rocks@);
        }
        let mut hits: Vec<Hit> = Vec::new();
        let mut k: usize = 0;
        while k < raw.len()
            invariant
                k <= raw@.len(),
                resolved == raw@,
                hits@.len() == k,
                self.ships@ == old(self).ships@,
                forall|k2: int| 0 <= k2 < raw@.len() ==> bullets@.contains(#[trigger] raw@[k2].0),
                bullets@ == all_bullets(self.ships@),
                forall|k2: int|
                    0 <= k2 < k ==> (#[trigger] hits@[k2]).bullet == raw@[k2].0 && hits@[k2].rock
                        == raw@[k2].1 && is_owner(self.ships@, raw@[k2].0, hits@[k2].owner as int),
            decreases raw@.len() - k,
        {
            let (bullet, rock) = raw[k];
            proof {
                assert(bullets@.contains(raw@[k as int].0));
                lemma_all_bullets_owner(self.ships@, bullet);
            }
            match self.bullet_owner(bullet) {
                Some(owner) => {
                    hits.push(Hit { bullet, rock, owner });
                },
                None => {
                    proof {
                        let i = choose|i: int|
                            0 <= i < self.ships@.len() && (#[trigger] self.ships@[i]).bullets@.contains(
                                bullet,
                            );
                        assert(false);
                    }
                },
            }
            k += 1;
        }
        let mut i: usize = 0;
        while i < self.ships.len()
            invariant
                i <= self.ships@.len(),
                self.ships@.len() == old(self).ships@.len(),
                resolved == raw@,
                forall|j: int| i <= j < self.ships@.len() ==> #[trigger] self.ships@[j] == old(self).ships@[j],
                forall|j: int|
                    0 <= j < i ==> (#[trigger] self.ships@[j]).bullets@ == old(self).ships@[j].bullets@.filter(
                        |b: BodyId| !bullet_taken(resolved, b),
                    ) && same_but_bullets(self.ships@[j], old(self).ships@[j]),
                self.asteroids@ == old(self).asteroids@,
                same_counters(*self, *old(self)),
            decreases self.ships@.len() - i,
        {
            let kept = retain_unhit(&self.ships[i].bullets, &raw);
            self.ships[i].bullets = kept;
            i += 1;
        }
        hits
    }

    /// Shatter rock `rock`, credited to ship `owner`: the rock leaves the
    /// field, the owner scores its points (and any bonus lives) and extends
    /// its streak; the result says which achievements that earned and what
    /// the rock splits into. `close_call` tells whether the owner's ship was
    /// within the close-call distance of the rock, `double_tap` whether the
    /// previous kill was within the double-tap window. `None` when no rock
    /// has that body. Each child draws its seeds from the stream
    /// (`child_seeds`), two per child.
    pub fn shatter_asteroid(
        &mut self,
        rock: BodyId,
        owner: usize,
        close_call: bool,
        double_tap: bool,
    ) -> (result: Option<Shatter>)
        requires
            credit_fits(*old(self), rock, owner),
        ensures
            final(self).ships@.len() == old(self).ships@.len(),
            same_settings(*final(self), *old(self)),
            match result {
                None => {
                    &&& final(self).spawn_counter == old(self).spawn_counter
                    &&& forall|i: int|
                        0 <= i < old(self).asteroids@.len() ==> (#[trigger] old(self).asteroids@[i]).entity
                            != rock
                    &&& final(self).asteroids@ == old(self).asteroids@
                    &&& final(self).ships@ == old(self).ships@
                },
                Some(sh) => exists|idx: int|
                    {
                        &&& is_first_rock(old(self).asteroids@, rock, idx)
                        &&& sh.size == old(self).asteroids@[idx].size
                        &&& final(self).asteroids@ == old(self).asteroids@.update(
                            idx,
                            old(self).asteroids@.last(),
                        ).drop_last()
                        &&& ({
                            let a = old(self).ships@[owner as int];
                            let b = final(self).ships@[owner as int];
                            let points = spec_size_score(sh.size) as int;
                            &&& b.score == a.score + points
                            &&& b.lives == a.lives + bonus_lives(
                                a.next_extra_life_at as int,
                                a.score + points,
                            )
                            &&& b.next_extra_life_at == a.next_extra_life_at + (EXTRA_LIFE_EVERY as int) * bonus_lives(
                                a.next_extra_life_at as int,
                                a.score + points,
                            )
                            &&& b.shot_streak == a.shot_streak + 1
                            &&& b.entity == a.entity
                            &&& b.bullets@ == a.bullets@
                            &&& b.thrusting == a.thrusting
                            &&& sh.unlocks@ == shatter_unlocks(
                                b.score as int,
                                b.shot_streak as int,
                                close_call,
                                double_tap,
                            )
                            &&& (b.score >= SCORE_TIER_1 ==> sh.unlocks@[0] == Achievement::Score10k)
                            &&& (sh.unlocks@.contains(Achievement::Score10k) <==> b.score
                                >= SCORE_TIER_1)
                            &&& (sh.unlocks@.contains(Achievement::Score30k) <==> b.score
                                >= SCORE_TIER_2)
                        })
                        &&& sh.children == spec_split_spec(sh.size, old(self).chaos_mode)
                        &&& sh.child_seeds@.len() == split_count(sh.children)
                        &&& forall|i: int|
                            0 <= i < sh.child_seeds@.len() ==> #[trigger] sh.child_seeds@[i]
                                == child_seeds_at(old(self).spawn_counter, i)
                        &&& final(self).spawn_counter == seed_n(
                            old(self).spawn_counter,
                            (2 * split_count(sh.children)) as nat,
                        )
                        &&& forall|j: int|
                            0 <= j < final(self).ships@.len() && j != owner
                                ==> #[trigger] final(self).ships@[j] == old(self).ships@[j]
                    },
            },
    {
        let idx = match self.rock_index(rock) {
            Some(i) => i,
            None => {
                return None;
            },
        };
        let gone = self.asteroids.swap_remove(idx);
        let size = gone.size;
        let mut unlocks = self.ships[owner].award_points(size.score());
        self.ships[owner].shot_streak = self.ships[owner].shot_streak + 1;
        if self.ships[owner].shot_streak >= SHARPSHOOTER_TARGET {
            unlocks.push(Achievement::Sharpshooter);
        }
        if close_call {
            unlocks.push(Achievement::CloseCall);
        }
        if double_tap {
            unlocks.push(Achievement::DoubleTap);
        }
        proof {
            assert(unlocks@ =~= shatter_unlocks(
                self.ships@[owner as int].score as int,
                self.ships@[owner as int].shot_streak as int,
                close_call,
                double_tap,
            ));
            shatter_reports_tiers_then_skills(
                self.ships@[owner as int].score as int,
                self.ships@[owner as int].shot_streak as int,
                close_call,
                double_tap,
            );
        }
        let children = split_spec(size, self.chaos_mode);
        let count: usize = match children {
            Some((_, n)) => n,
            None => 0,
        };
        let child_seeds = self.plan_children(count);
        Some(Shatter { size, unlocks, children, child_seeds })
    }
}

// ---------------------------------------------------------------------
// Clearing a wave
// ---------------------------------------------------------------------

/// Starting a wave below the milestone unlocks nothing, whatever the lives
/// left. From the milestone on, the mode's milestone comes first, and
/// "Living on the Edge" comes exactly when the ships have one life left
/// between them.
pub proof fn wave_unlocks_wait_for_the_milestone(wave: int, mode: ChaosMode, lives_left: int)
    ensures
        wave < WAVE_MILESTONE ==> new_wave_unlocks(wave, mode, lives_left).len() == 0,
        wave >= WAVE_MILESTONE ==> new_wave_unlocks(wave, mode, lives_left)[0]
            == spec_wave5_achievement(mode),
        new_wave_unlocks(wave, mode, lives_left).contains(Achievement::LivingOnEdge) <==> (wave
            >= WAVE_MILESTONE && lives_left == 1),
        new_wave_unlocks(wave, mode, lives_left).len() <= 2,
{
    let u = new_wave_unlocks(wave, mode, lives_left);
    if wave >= WAVE_MILESTONE {
        if lives_left == 1 {
            assert(u =~= seq![spec_wave5_achievement(mode), Achievement::LivingOnEdge]);
            assert(u[1] == Achievement::LivingOnEdge);
        } else {
            assert(u =~= seq![spec_wave5_achievement(mode)]);
            assert(spec_wave5_achievement(mode) != Achievement::LivingOnEdge);
        }
    } else {
        assert(u =~= Seq::<Achievement>::empty());
    }
}

/// The achievements the start of wave `wave` unlocks.
pub open spec fn new_wave_unlocks(wave: int, mode: ChaosMode, lives_left: int) -> Seq<Achievement> {
    if wave >= WAVE_MILESTONE {
        seq![spec_wave5_achievement(mode)] + if lives_left == 1 {
            seq![Achievement::LivingOnEdge]
        } else {
            seq![]
        }
    } else {
        seq![]
    }
}

impl AsteroidsGame {
    /// The field was just cleared: the breather before the next wave
    /// starts, and one more wave counts as survived without a death.
    pub fn begin_breather(&mut self) -> (unlocks: Vec<Achievement>)
        requires
            old(self).waves_without_death < u32::MAX,
        ensures
            final(self).waves_without_death == old(self).waves_without_death + 1,
            unlocks@ == if final(self).waves_without_death >= UNTOUCHABLE_WAVES {
                seq![Achievement::Untouchable]
            } else {
                seq![]
            },
            final(self).ships@ == old(self).ships@,
            final(self).asteroids@ == old(self).asteroids@,
            final(self).mode == old(self).mode,
            final(self).wave == old(self).wave,
            final(self).spawn_counter == old(self).spawn_counter,
            final(self).state == old(self).state,
            final(self).chaos_mode == old(self).chaos_mode,
    {
        self.waves_without_death = self.waves_without_death + 1;
        let mut unlocks: Vec<Achievement> = Vec::new();
        if self.waves_without_death >= UNTOUCHABLE_WAVES {
            unlocks.push(Achievement::Untouchable);
        }
        unlocks
    }

    /// The breather is over: the next (bigger) wave begins. Reaching the
    /// milestone wave unlocks the mode's milestone, and doing so on the
    /// last ship also unlocks "Living on the Edge".
    pub fn advance_wave(&mut self) -> (unlocks: Vec<Achievement>)
        requires
            old(self).wave < u32::MAX,
            old(self).wave + 1 >= WAVE_MILESTONE ==> lives_total(old(self).ships@) <= u32::MAX,
        ensures
            final(self).wave == old(self).wave + 1,
            unlocks@ == new_wave_unlocks(
                final(self).wave as int,
                old(self).chaos_mode,
                lives_total(old(self).ships@),
            ),
            final(self).wave < WAVE_MILESTONE ==> unlocks@.len() == 0,
            unlocks@.contains(Achievement::LivingOnEdge) <==> (final(self).wave >= WAVE_MILESTONE
                && lives_total(old(self).ships@) == 1),
            final(self).ships@ == old(self).ships@,
            final(self).asteroids@ == old(self).asteroids@,
            final(self).mode == old(self).mode,
            final(self).spawn_counter == old(self).spawn_counter,
            final(self).waves_without_death == old(self).waves_without_death,
            final(self).state == old(self).state,
            final(self).chaos_mode == old(self).chaos_mode,
    {
        self.wave = self.wave + 1;
        let mut unlocks: Vec<Achievement> = Vec::new();
        if self.wave >= WAVE_MILESTONE {
            unlocks.push(wave5_achievement(self.chaos_mode));
            if self.total_lives() == 1 {
                unlocks.push(Achievement::LivingOnEdge);
            }
        }
        proof {
            assert(unlocks@ =~= new_wave_unlocks(
                self.wave as int,
                self.chaos_mode,
                lives_total(self.ships@),
            ));
            wave_unlocks_wait_for_the_milestone(
                self.wave as int,
                self.chaos_mode,
                lives_total(self.ships@),
            );
        }
        unlocks
    }
}

} // verus!
