use turtle_time::checksum::{fletcher16, player_checksum};
use turtle_time::input::{
    dir_from_mask, DirVec, INPUT_DOWN, INPUT_EXIT, INPUT_FIRE, INPUT_LEFT, INPUT_RIGHT, INPUT_UP,
    InputStatus, PlayerInput,
};
use turtle_time::map::{spawn_map, wall_collision_check, Pos};
use turtle_time::rng::{seed_string, sort_ids, AgreedRandom};
use turtle_time::input::PlayerControls;
use turtle_time::map::MapConfig;
use turtle_time::round::{exit_requested, RoundOutcome, RoundPhase, Session};
use turtle_time::state::{GameTimer, Player};

#[test]
fn direction_decoding_normalizes_diagonals() {
    // A diagonal never exceeds unit length, whatever bits are held.
    assert_eq!(dir_from_mask(INPUT_UP), DirVec { x: 0, y: 1000 });
    assert_eq!(dir_from_mask(INPUT_RIGHT), DirVec { x: 1000, y: 0 });
    assert_eq!(dir_from_mask(INPUT_UP | INPUT_RIGHT), DirVec { x: 707, y: 707 });
    assert_eq!(dir_from_mask(INPUT_DOWN | INPUT_LEFT), DirVec { x: -707, y: -707 });
    assert_eq!(dir_from_mask(INPUT_UP | INPUT_DOWN), DirVec { x: 0, y: 0 });
    assert_eq!(dir_from_mask(INPUT_LEFT | INPUT_RIGHT | INPUT_UP), DirVec { x: 0, y: 1000 });
    assert_eq!(dir_from_mask(0), DirVec { x: 0, y: 0 });
    let d = dir_from_mask(INPUT_UP | INPUT_LEFT);
    assert!((d.x as i64) * (d.x as i64) + (d.y as i64) * (d.y as i64) <= 1_000_000);
}

#[test]
fn fletcher16_matches_known_values() {
    assert_eq!(fletcher16(&vec![]), 0);
    assert_eq!(fletcher16(&vec![0x01, 0x02]), 1027);
    assert_eq!(fletcher16(&vec![0xff; 8]), 0);
}

#[test]
fn player_checksum_is_exact_and_order_sensitive() {
    let mut p = Player::new(0, Pos { x: 0, y: 0 });
    assert_eq!(player_checksum(&p), 19942);
    p.pos = Pos { x: 100, y: 200 };
    assert_eq!(player_checksum(&p), 63252);
    // serialization order is fixed, so swapping coordinates matters
    p.pos = Pos { x: 200, y: 100 };
    assert_eq!(player_checksum(&p), 6932);
}

#[test]
fn checksum_reflects_health_and_counters() {
    // a divergence in health or ammunition alone shows in the fingerprint
    let reference = Player::new(0, Pos { x: 0, y: 0 });
    let mut hurt = reference;
    hurt.health = 95;
    assert_ne!(player_checksum(&reference), player_checksum(&hurt));
    assert_eq!(player_checksum(&hurt), 4577);
    let mut armed = reference;
    armed.ammo = 5;
    assert_ne!(player_checksum(&reference), player_checksum(&armed));
    assert_eq!(player_checksum(&armed), 30187);
}

#[test]
fn seed_string_sorts_and_joins() {
    assert_eq!(seed_string(&vec![3, 1, 2]), "1 2 3");
    assert_eq!(seed_string(&vec![10, 2]), "2 10");
    assert_eq!(seed_string(&vec![340282366920938463463374607431768211455]),
        "340282366920938463463374607431768211455");
}

#[test]
fn seed_agreement_under_permutation() {
    // Any arrival order of the same peers gives the
    // same seed, hence the same draw sequence.
    let a = seed_string(&vec![55, 7, 1000, 3]);
    let b = seed_string(&vec![3, 1000, 7, 55]);
    assert_eq!(a, b);
    let mut r1 = AgreedRandom::new(vec![55, 7, 1000, 3]);
    let mut r2 = AgreedRandom::new(vec![3, 1000, 7, 55]);
    for _ in 0..100 {
        assert_eq!(r1.next_index(977), r2.next_index(977));
    }
}

#[test]
fn draws_stay_in_bounds() {
    let mut r = AgreedRandom::new(vec![1, 2]);
    for _ in 0..200 {
        assert!(r.next_index(7) < 7);
    }
}

#[test]
fn sort_ids_orders_ascending_with_duplicates() {
    assert_eq!(sort_ids(&vec![5, 1, 5, 2]), vec![1, 2, 5, 5]);
    assert_eq!(sort_ids(&vec![]), Vec::<u128>::new());
}

#[test]
fn repeating_timer_wraps_with_remainder() {
    let mut t = GameTimer::repeating(2500);
    let mut fired = 0;
    for _ in 0..156 {
        assert!(!t.tick());
    }
    assert_eq!(t.elapsed_ms, 2496);
    assert!(t.tick());
    fired += 1;
    assert_eq!(t.elapsed_ms, 12);
    assert_eq!(fired, 1);
}

#[test]
fn one_shot_timer_saturates() {
    let mut t = GameTimer::one_shot(32);
    assert!(!t.finished());
    t.tick();
    assert!(!t.finished());
    t.tick();
    assert!(t.finished());
    t.tick();
    assert!(t.finished());
    assert_eq!(t.elapsed_ms, 32);
}

#[test]
fn wall_overlap_uses_leeway_margin() {
    let wall = Pos { x: 0, y: 0 };
    assert!(wall_collision_check(Pos { x: 1823, y: 0 }, wall));
    assert!(!wall_collision_check(Pos { x: 1824, y: 0 }, wall));
    assert!(!wall_collision_check(Pos { x: 1823, y: -1824 }, wall));
}

#[test]
fn spawn_map_classifies_tiles() {
    let rows: Vec<Vec<char>> = vec![vec!['|', '.', '~'], vec!['!', '=', '.']];
    let m = spawn_map(&rows);
    assert_eq!(m.walls, vec![Pos { x: 0, y: 0 }, Pos { x: 1920, y: -1920 }]);
    assert_eq!(m.spawn_areas, vec![Pos { x: 3840, y: 0 }]);
    assert_eq!(m.player_spawns, vec![Pos { x: 0, y: -1920 }]);
}

#[test]
fn health_percentage_clamps() {
    let mut p = Player::new(0, Pos { x: 0, y: 0 });
    assert_eq!(p.percentage(), 100);
    p.health = 50;
    assert_eq!(p.percentage(), 50);
    p.health = -12;
    assert_eq!(p.percentage(), 0);
}

#[test]
fn exit_needs_a_confirmed_bare_exit_mask() {
    let exiting = vec![(PlayerInput { input: INPUT_EXIT }, InputStatus::Confirmed)];
    assert!(exit_requested(&exiting));
    let predicted = vec![(PlayerInput { input: INPUT_EXIT }, InputStatus::Predicted)];
    assert!(!exit_requested(&predicted));
    let mixed = vec![(PlayerInput { input: INPUT_EXIT | INPUT_FIRE }, InputStatus::Confirmed)];
    assert!(!exit_requested(&mixed));
}

#[test]
fn session_scope_survives_a_rematch() {
    let map = MapConfig {
        walls: Vec::new(),
        spawn_areas: vec![Pos { x: 0, y: 0 }],
        player_spawns: vec![Pos { x: 0, y: 0 }, Pos { x: 50_000, y: 0 }],
    };
    let mut session = Session::new();
    assert_eq!(session.phase, RoundPhase::Idle);
    session.start_session(vec![9, 4], 1);
    assert_eq!(session.phase, RoundPhase::RoundSetup);
    assert!(session.agreed.is_some());
    session.begin_round(&map, 2).unwrap();
    assert_eq!(session.phase, RoundPhase::Playing);
    session.finish_round(RoundOutcome::Winner(1));
    assert_eq!(session.outcome, Some(RoundOutcome::Winner(1)));
    // rematch: round scope dies, session scope persists
    session.cleanup_round();
    assert_eq!(session.phase, RoundPhase::RoundSetup);
    assert!(session.game.is_none());
    assert!(session.agreed.is_some());
    assert_eq!(session.local_handle, Some(1));
    // teardown: everything dies
    session.cleanup_session();
    assert_eq!(session.phase, RoundPhase::Idle);
    assert!(session.agreed.is_none());
    assert!(session.local_handle.is_none());
}

#[test]
fn moving_flag_follows_direction() {
    let mut c = PlayerControls::default();
    assert!(!c.is_moving());
    c.dir = dir_from_mask(INPUT_UP);
    assert!(c.is_moving());
}
