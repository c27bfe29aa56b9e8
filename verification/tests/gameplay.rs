use asteroids::achievements::Achievement;
use asteroids::constants::{
    EXTRA_LIFE_EVERY, RIDICULOUS_EXTRA_ASTEROIDS, STARTING_LIVES, WAVE_BASE_ASTEROIDS,
    WAVE_MAX_ASTEROIDS,
};
use asteroids::gameplay::flow::StateAction;
use asteroids::gameplay::rocks::{find_hits, split_spec, wave_asteroid_count, Contact, Hit};
use asteroids::gameplay::ship::{coop_over, KillOutcome};
use asteroids::gameplay::gameplay_visible;
use asteroids::spawning::{ChildSeeds, RockSeeds};
use asteroids::types::{AsteroidSize, AsteroidsGame, BodyId, ChaosMode, GameMode, GameState, ShipState};

fn id(n: u64) -> BodyId {
    BodyId(n)
}

fn started(a: u64, b: u64) -> Contact {
    Contact { a: id(a), b: id(b), started: true }
}

/// A single-player match with ship body 1 and the given rocks.
fn solo_match(rocks: &[(u64, AsteroidSize)]) -> AsteroidsGame {
    let mut game = AsteroidsGame::default();
    game.begin_match();
    game.install_ships(vec![id(1)]);
    for &(r, size) in rocks {
        game.register_asteroid(id(r), size);
    }
    game
}

// --- Splitting and waves ---

#[test]
fn split_spec_matrix_across_modes() {
    for mode in [ChaosMode::Normal, ChaosMode::Insane] {
        assert_eq!(split_spec(AsteroidSize::Large, mode), Some((AsteroidSize::Medium, 2)));
    }
    for mode in [ChaosMode::Ridiculous, ChaosMode::Insiculous] {
        assert_eq!(
            split_spec(AsteroidSize::Large, mode),
            Some((AsteroidSize::Medium, 3)),
            "{mode:?} must split large rocks three ways"
        );
    }
    for mode in ChaosMode::all() {
        assert_eq!(split_spec(AsteroidSize::Medium, mode), Some((AsteroidSize::Small, 2)));
        assert_eq!(split_spec(AsteroidSize::Small, mode), None);
    }
}

#[test]
fn wave_count_grows_caps_and_splits_chaos_axes() {
    assert_eq!(wave_asteroid_count(1, ChaosMode::Normal), WAVE_BASE_ASTEROIDS);
    assert_eq!(wave_asteroid_count(2, ChaosMode::Normal), WAVE_BASE_ASTEROIDS + 1);
    assert_eq!(wave_asteroid_count(99, ChaosMode::Normal), WAVE_MAX_ASTEROIDS);
    assert_eq!(wave_asteroid_count(1, ChaosMode::Insane), WAVE_BASE_ASTEROIDS);
    assert_eq!(
        wave_asteroid_count(1, ChaosMode::Ridiculous),
        WAVE_BASE_ASTEROIDS + RIDICULOUS_EXTRA_ASTEROIDS
    );
    assert_eq!(
        wave_asteroid_count(1, ChaosMode::Insiculous),
        WAVE_BASE_ASTEROIDS + RIDICULOUS_EXTRA_ASTEROIDS
    );
}

#[test]
fn wave_count_edges() {
    assert_eq!(wave_asteroid_count(0, ChaosMode::Normal), 4);
    assert_eq!(wave_asteroid_count(6, ChaosMode::Normal), 9);
    assert_eq!(wave_asteroid_count(5, ChaosMode::Normal), 8);
    assert_eq!(wave_asteroid_count(u32::MAX, ChaosMode::Ridiculous), 10);
}

#[test]
fn size_tables_are_monotonic() {
    // Smaller rocks are harder targets, so they pay more.
    assert!(AsteroidSize::Large.score() < AsteroidSize::Medium.score());
    assert!(AsteroidSize::Medium.score() < AsteroidSize::Small.score());
    assert_eq!(
        [AsteroidSize::Large.score(), AsteroidSize::Medium.score(), AsteroidSize::Small.score()],
        [20, 50, 100]
    );
    assert_eq!([AsteroidSize::Large.idx(), AsteroidSize::Medium.idx(), AsteroidSize::Small.idx()], [0, 1, 2]);
}

// --- Scoring ---

#[test]
fn extra_life_grants_exactly_once_per_threshold() {
    let mut ship = ShipState::default();
    let lives = ship.lives;

    ship.award_points(EXTRA_LIFE_EVERY - 20);
    assert_eq!(ship.lives, lives, "below the threshold: no bonus ship");
    let unlocks = ship.award_points(20);
    assert_eq!(ship.lives, lives + 1, "crossing the threshold grants one ship");
    assert_eq!(unlocks, vec![Achievement::Score10k]);
    ship.award_points(100);
    assert_eq!(ship.lives, lives + 1, "the same threshold never pays twice");
    let unlocks = ship.award_points(EXTRA_LIFE_EVERY * 2);
    assert_eq!(ship.lives, lives + 3, "a big jump pays every threshold it crosses");
    assert!(unlocks.contains(&Achievement::Score10k));
    assert_eq!(unlocks, vec![Achievement::Score10k, Achievement::Score30k]);
    assert_eq!(ship.next_extra_life_at, 40_000);
    assert_eq!(ship.score, 30_100);
}

#[test]
fn split_awards_pay_like_one_award() {
    let mut split = ShipState::default();
    split.award_points(15_000);
    split.award_points(14_000);
    let mut once = ShipState::default();
    once.award_points(29_000);
    assert_eq!(split.lives, once.lives);
    assert_eq!(split.lives, STARTING_LIVES + 2);
    assert_eq!(split.next_extra_life_at, once.next_extra_life_at);
}

// --- Seeds and spawning ---

#[test]
fn seed_stream_is_monotonic() {
    let mut game = AsteroidsGame::default();
    let a = game.next_seed();
    let b = game.next_seed();
    assert_ne!(a, b);
    assert_eq!(b, a + 1);
}

#[test]
fn seed_stream_wraps_at_the_top() {
    let mut game = AsteroidsGame::default();
    game.spawn_counter = u32::MAX;
    assert_eq!(game.next_seed(), 0);
    assert_eq!(game.next_seed(), 1);
}

#[test]
fn spawned_asteroid_registers_shape_and_tracking() {
    let mut game = AsteroidsGame::default();
    game.register_asteroid(id(7), AsteroidSize::Large);
    assert_eq!(game.asteroids.len(), 1);
    assert_eq!(game.asteroids[0].entity, id(7));
    assert_eq!(game.asteroids[0].size, AsteroidSize::Large);
}

#[test]
fn wave_plan_draws_five_seeds_per_rock() {
    let mut game = AsteroidsGame::default();
    game.wave = 1;
    game.spawn_counter = 100;
    let plan = game.plan_wave();
    assert_eq!(plan.len(), 4);
    assert_eq!(plan[0], RockSeeds { position: 101, speed: 102, heading: 103, spin: 104, shape: 105 });
    assert_eq!(plan[3], RockSeeds { position: 116, speed: 117, heading: 118, spin: 119, shape: 120 });
    assert_eq!(game.spawn_counter, 120);
    assert!(game.asteroids.is_empty());
}

#[test]
fn wave_plan_follows_wave_size_and_wraps_the_stream() {
    let mut game = AsteroidsGame::default();
    game.wave = 5;
    game.chaos_mode = ChaosMode::Insiculous;
    game.spawn_counter = u32::MAX - 2;
    let plan = game.plan_wave();
    assert_eq!(plan.len(), 9);
    assert_eq!(plan[0], RockSeeds { position: u32::MAX - 1, speed: u32::MAX, heading: 0, spin: 1, shape: 2 });
    assert_eq!(game.spawn_counter, 42);
}

#[test]
fn installed_wave_rocks_are_large_and_in_order() {
    let mut game = AsteroidsGame::default();
    game.wave = 1;
    game.register_asteroid(id(5), AsteroidSize::Small);
    game.install_wave(&vec![id(30), id(31), id(32), id(33)]);
    assert_eq!(game.asteroids.len(), 5);
    assert_eq!(game.asteroids[1].entity, id(30));
    assert_eq!(game.asteroids[4].entity, id(33));
    assert!(game.asteroids[1..].iter().all(|a| a.size == AsteroidSize::Large));
    game.install_rocks(&vec![id(40), id(41)], AsteroidSize::Medium);
    assert_eq!(game.asteroids.len(), 7);
    assert_eq!(game.asteroids[6].entity, id(41));
    assert_eq!(game.asteroids[6].size, AsteroidSize::Medium);
}

#[test]
fn starting_a_match_fields_wave_one() {
    let mut game = solo_match(&[(20, AsteroidSize::Small)]);
    game.chaos_mode = ChaosMode::Ridiculous;
    game.begin_match();
    game.install_ships(vec![id(3)]);
    let plan = game.plan_wave();
    assert_eq!(plan.len(), 5);
    let bodies: Vec<BodyId> = (0..plan.len() as u64).map(|k| id(50 + k)).collect();
    game.install_wave(&bodies);
    assert_eq!(game.asteroids.len(), 5);
    assert!(game.asteroids.iter().all(|a| a.size == AsteroidSize::Large));
    assert_eq!(game.state, GameState::Playing);
}

#[test]
fn shatter_draws_two_seeds_per_child() {
    let mut game = solo_match(&[(20, AsteroidSize::Large), (21, AsteroidSize::Small)]);
    game.spawn_counter = 10;
    let sh = game.shatter_asteroid(id(20), 0, false, false).unwrap();
    assert_eq!(
        sh.child_seeds,
        vec![ChildSeeds { motion: 11, shape: 12 }, ChildSeeds { motion: 13, shape: 14 }]
    );
    assert_eq!(game.spawn_counter, 14);
    game.install_children(&sh, &vec![id(60), id(61)]);
    assert_eq!(game.asteroids.len(), 3);
    assert_eq!(game.asteroids[2].entity, id(61));
    assert_eq!(game.asteroids[2].size, AsteroidSize::Medium);
    let sh = game.shatter_asteroid(id(21), 0, false, false).unwrap();
    assert!(sh.child_seeds.is_empty());
    assert_eq!(game.spawn_counter, 14);
    game.install_children(&sh, &vec![]);
    assert_eq!(game.asteroids.len(), 2);
}

#[test]
fn credit_checks_guard_against_overflow() {
    let mut game = solo_match(&[(20, AsteroidSize::Large)]);
    assert!(game.can_credit(id(20), 0));
    assert!(!game.can_credit(id(20), 1));
    assert!(game.can_credit(id(99), 7));
    game.ships[0].score = u32::MAX - 10;
    assert!(!game.can_credit(id(20), 0));
    game.ships[0].score = 0;
    game.ships[0].shot_streak = u32::MAX;
    assert!(!game.can_credit(id(20), 0));
    game.ships[0].shot_streak = 0;
    game.ships[0].score = 9_990;
    game.ships[0].lives = u32::MAX;
    assert!(!game.ships[0].can_take(20));
    assert!(game.ships[0].can_take(5));
}

// --- Bullet hits ---

#[test]
fn bullet_grazing_two_rocks_kills_only_one() {
    let contacts = vec![started(10, 20), started(21, 10)];
    let hits = find_hits(&contacts, &vec![id(10)], &vec![id(20), id(21)]);
    assert_eq!(hits, vec![(id(10), id(20))]);
}

#[test]
fn rock_resolves_once_even_if_two_bullets_touch_it() {
    let contacts = vec![started(10, 20), started(11, 20), started(11, 21)];
    let hits = find_hits(&contacts, &vec![id(10), id(11)], &vec![id(20), id(21)]);
    assert_eq!(hits, vec![(id(10), id(20)), (id(11), id(21))]);
}

#[test]
fn contacts_that_did_not_start_or_miss_rocks_are_ignored() {
    let contacts = vec![
        Contact { a: id(10), b: id(20), started: false },
        started(10, 99),
        started(20, 21),
    ];
    let hits = find_hits(&contacts, &vec![id(10)], &vec![id(20), id(21)]);
    assert!(hits.is_empty());
}

#[test]
fn first_rock_in_field_order_wins() {
    // A contact involves one pair; with two rocks listed the first one the
    // contact touches is taken.
    let contacts = vec![started(21, 10)];
    let hits = find_hits(&contacts, &vec![id(10)], &vec![id(20), id(21)]);
    assert_eq!(hits, vec![(id(10), id(21))]);
}

#[test]
fn resolve_bullet_hits_credits_owner_and_spends_bullets() {
    let mut game = AsteroidsGame::default();
    game.mode = GameMode::TwoPlayerCoop;
    game.begin_match();
    game.install_ships(vec![id(1), id(2)]);
    game.register_asteroid(id(20), AsteroidSize::Large);
    game.add_bullet(0, id(10));
    game.add_bullet(1, id(11));
    game.add_bullet(1, id(12));
    let hits = game.resolve_bullet_hits(&vec![started(12, 20)]);
    assert_eq!(hits, vec![Hit { bullet: id(12), rock: id(20), owner: 1 }]);
    assert_eq!(game.ships[1].bullets, vec![id(11)]);
    assert_eq!(game.ships[0].bullets, vec![id(10)]);
    assert_eq!(game.asteroids.len(), 1);
}

#[test]
fn shatter_scores_owner_and_splits() {
    let mut game = solo_match(&[(20, AsteroidSize::Large), (21, AsteroidSize::Small)]);
    let sh = game.shatter_asteroid(id(20), 0, false, false).expect("rock 20 is on the field");
    assert_eq!(sh.size, AsteroidSize::Large);
    assert_eq!(sh.children, Some((AsteroidSize::Medium, 2)));
    assert!(sh.unlocks.is_empty());
    assert_eq!(game.ships[0].score, 20);
    assert_eq!(game.ships[0].shot_streak, 1);
    assert_eq!(game.asteroids.len(), 1);
    assert_eq!(game.asteroids[0].entity, id(21));
    let sh = game.shatter_asteroid(id(21), 0, false, false).expect("rock 21 is on the field");
    assert_eq!(sh.children, None);
    assert_eq!(game.ships[0].score, 120);
    assert!(game.shatter_asteroid(id(21), 0, false, false).is_none());
}

#[test]
fn tenth_straight_hit_is_a_sharpshooter() {
    let rocks: Vec<(u64, AsteroidSize)> = (0..10).map(|k| (100 + k, AsteroidSize::Small)).collect();
    let mut game = solo_match(&rocks);
    for k in 0..9 {
        let sh = game.shatter_asteroid(id(100 + k), 0, false, false).unwrap();
        assert!(!sh.unlocks.contains(&Achievement::Sharpshooter));
    }
    let sh = game.shatter_asteroid(id(109), 0, false, false).unwrap();
    assert_eq!(sh.unlocks, vec![Achievement::Sharpshooter]);
}

#[test]
fn ridiculous_large_rock_splits_three_ways_on_shatter() {
    let mut game = solo_match(&[(20, AsteroidSize::Large)]);
    game.chaos_mode = ChaosMode::Ridiculous;
    let sh = game.shatter_asteroid(id(20), 0, false, false).unwrap();
    assert_eq!(sh.children, Some((AsteroidSize::Medium, 3)));
}

#[test]
fn expired_bullet_breaks_the_streak() {
    let mut game = solo_match(&[(20, AsteroidSize::Small)]);
    game.shatter_asteroid(id(20), 0, false, false);
    game.add_bullet(0, id(10));
    game.add_bullet(0, id(11));
    game.prune_expired_bullets(&vec![id(10), id(11), id(1)]);
    assert_eq!(game.ships[0].shot_streak, 1, "no bullet expired");
    game.prune_expired_bullets(&vec![id(11), id(1)]);
    assert_eq!(game.ships[0].bullets, vec![id(11)]);
    assert_eq!(game.ships[0].shot_streak, 0, "an expired bullet is a miss");
}

// --- Deaths and the end of a match ---

#[test]
fn coop_over_only_when_every_ship_is_out() {
    assert!(coop_over(&[0]));
    assert!(!coop_over(&[1]));
    assert!(!coop_over(&[0, 2]));
    assert!(coop_over(&[0, 0]));
    assert!(coop_over(&[]));
}

#[test]
fn a_death_respawns_until_the_last_life() {
    let mut game = solo_match(&[]);
    game.waves_without_death = 2;
    game.ships[0].shot_streak = 4;
    match game.kill_ship(0) {
        KillOutcome::Respawn { body } => assert_eq!(body, id(1)),
        other => panic!("expected a respawn, got {other:?}"),
    }
    assert_eq!(game.ships[0].lives, STARTING_LIVES - 1);
    assert_eq!(game.ships[0].shot_streak, 0);
    assert_eq!(game.waves_without_death, 0);
    game.kill_ship(0);
    game.add_bullet(0, id(10));
    match game.kill_ship(0) {
        KillOutcome::Eliminated { body, game_over, cleared_bullets } => {
            assert_eq!(body, id(1));
            assert!(game_over);
            assert_eq!(cleared_bullets, vec![id(10)]);
        }
        other => panic!("expected the last ship to go, got {other:?}"),
    }
    assert_eq!(game.state, GameState::GameOver);
    assert_eq!(game.ships[0].entity, None);
    assert!(matches!(game.kill_ship(0), KillOutcome::NoShip));
}

#[test]
fn coop_survivor_keeps_the_match_going() {
    let mut game = AsteroidsGame::default();
    game.mode = GameMode::TwoPlayerCoop;
    game.begin_match();
    game.install_ships(vec![id(1), id(2)]);
    game.ships[0].lives = 1;
    match game.kill_ship(0) {
        KillOutcome::Eliminated { game_over, .. } => assert!(!game_over),
        other => panic!("expected elimination, got {other:?}"),
    }
    assert_eq!(game.state, GameState::Playing);
    assert_eq!(game.live_ship_entities(), vec![id(2)]);
    assert_eq!(game.total_lives(), STARTING_LIVES);
    game.ships[1].lives = 1;
    match game.kill_ship(1) {
        KillOutcome::Eliminated { game_over, .. } => assert!(game_over),
        other => panic!("expected the match to end, got {other:?}"),
    }
    assert_eq!(game.state, GameState::GameOver);
}

// --- Waves ---

#[test]
fn third_deathless_wave_is_untouchable() {
    let mut game = solo_match(&[]);
    assert!(game.begin_breather().is_empty());
    assert!(game.begin_breather().is_empty());
    assert_eq!(game.begin_breather(), vec![Achievement::Untouchable]);
    assert_eq!(game.waves_without_death, 3);
}

#[test]
fn fifth_wave_milestone_and_last_ship() {
    let mut game = solo_match(&[]);
    game.chaos_mode = ChaosMode::Insane;
    for _ in 0..3 {
        assert!(game.advance_wave().is_empty());
    }
    assert_eq!(game.wave, 4);
    assert_eq!(game.advance_wave(), vec![Achievement::Wave5Insane]);
    game.ships[0].lives = 1;
    assert_eq!(game.advance_wave(), vec![Achievement::Wave5Insane, Achievement::LivingOnEdge]);
}

// --- Screens ---

#[test]
fn state_input_on_match_screens() {
    let mut game = AsteroidsGame::default();
    assert_eq!(game.handle_state_input(true, true), StateAction::Stay);
    game.state = GameState::Playing;
    assert_eq!(game.handle_state_input(true, false), StateAction::Stay);
    assert_eq!(game.handle_state_input(false, true), StateAction::ToTitle);
    game.state = GameState::GameOver;
    assert_eq!(game.handle_state_input(true, true), StateAction::Restart);
    assert_eq!(game.handle_state_input(false, true), StateAction::ToTitle);
    assert_eq!(game.handle_state_input(false, false), StateAction::Stay);
}

#[test]
fn gameplay_entities_show_only_on_match_screens() {
    assert!(gameplay_visible(GameState::Playing));
    assert!(gameplay_visible(GameState::GameOver));
    assert!(!gameplay_visible(GameState::Achievements));
    assert!(!gameplay_visible(GameState::TitleScreen { selection: 0 }));
}

#[test]
fn reset_to_title_hands_out_every_body() {
    let mut game = solo_match(&[(20, AsteroidSize::Large)]);
    game.add_bullet(0, id(10));
    game.wave = 3;
    let bodies = game.reset_to_title();
    assert_eq!(bodies, vec![id(10), id(20), id(1)]);
    assert!(game.ships.is_empty());
    assert!(game.asteroids.is_empty());
    assert_eq!(game.state, GameState::TitleScreen { selection: 0 });
}

#[test]
fn starting_a_match_resets_counters_and_ships() {
    let mut game = solo_match(&[(20, AsteroidSize::Large)]);
    game.wave = 7;
    game.waves_without_death = 2;
    game.ships[0].score = 500;
    let bodies = game.begin_match();
    assert_eq!(bodies, vec![id(20), id(1)]);
    assert_eq!(game.wave, 1);
    assert_eq!(game.waves_without_death, 0);
    game.install_ships(vec![id(3)]);
    assert_eq!(game.ships[0].score, 0);
    assert_eq!(game.ships[0].lives, STARTING_LIVES);
    assert_eq!(game.ships[0].entity, Some(id(3)));
    assert_eq!(game.state, GameState::Playing);
    assert_eq!(game.ship_hud(0), (0, STARTING_LIVES));
    assert_eq!(game.ship_hud(1), (0, 0));
}

#[test]
fn finish_game_releases_thrust_and_bullets() {
    let mut game = solo_match(&[]);
    game.ships[0].thrusting = true;
    game.add_bullet(0, id(10));
    assert_eq!(game.all_bullet_ids(), vec![id(10)]);
    let cleared = game.finish_game();
    assert_eq!(cleared, vec![id(10)]);
    assert!(!game.ships[0].thrusting);
    assert!(game.ships[0].bullets.is_empty());
    assert_eq!(game.state, GameState::GameOver);
}

#[test]
fn player_counts_and_fresh_ships() {
    assert_eq!(GameMode::SinglePlayer.player_count(), 1);
    assert_eq!(GameMode::TwoPlayerCoop.player_count(), 2);
    let ship = ShipState::new(id(4));
    assert_eq!(ship.entity, Some(id(4)));
    assert_eq!(ship.next_extra_life_at, EXTRA_LIFE_EVERY);
    assert_eq!(ShipState::default().entity, None);
}

#[test]
fn chaos_families() {
    assert!(!ChaosMode::Normal.is_insane() && !ChaosMode::Normal.is_ridiculous());
    assert!(ChaosMode::Insane.is_insane() && !ChaosMode::Insane.is_ridiculous());
    assert!(!ChaosMode::Ridiculous.is_insane() && ChaosMode::Ridiculous.is_ridiculous());
    assert!(ChaosMode::Insiculous.is_insane() && ChaosMode::Insiculous.is_ridiculous());
    assert_eq!(ChaosMode::from_row(2), ChaosMode::Ridiculous);
    assert_eq!(ChaosMode::count(), 4);
}

#[test]
fn close_call_and_double_tap_follow_the_streak() {
    let mut game = solo_match(&[(20, AsteroidSize::Small), (21, AsteroidSize::Medium)]);
    let sh = game.shatter_asteroid(id(20), 0, true, true).unwrap();
    assert_eq!(sh.unlocks, vec![Achievement::CloseCall, Achievement::DoubleTap]);
    let sh = game.shatter_asteroid(id(21), 0, false, true).unwrap();
    assert_eq!(sh.unlocks, vec![Achievement::DoubleTap]);
    assert_eq!(game.ships[0].score, 150);
}

#[test]
fn off_screen_ships_release_thrust() {
    let mut game = solo_match(&[]);
    game.ships[0].thrusting = true;
    game.add_bullet(0, id(10));
    game.release_all_thrust();
    assert!(!game.ships[0].thrusting);
    assert_eq!(game.ships[0].bullets, vec![id(10)]);
}

#[test]
fn live_bullet_cap_is_per_ship() {
    let mut game = AsteroidsGame::default();
    game.mode = GameMode::TwoPlayerCoop;
    game.begin_match();
    game.install_ships(vec![id(1), id(2)]);
    for k in 0..4 {
        assert!(game.has_bullet_room(0));
        game.add_bullet(0, id(10 + k));
    }
    assert!(!game.has_bullet_room(0), "at the live-bullet cap");
    assert!(game.has_bullet_room(1), "the other ship's cap is its own");
    game.prune_expired_bullets(&vec![id(10), id(11), id(12)]);
    assert!(game.has_bullet_room(0));
}

#[test]
fn shatter_of_a_missing_rock_needs_no_ship() {
    let mut game = AsteroidsGame::default();
    assert!(game.shatter_asteroid(id(20), 5, false, false).is_none());
}
