use turtle_time::input::{InputStatus, PlayerInput, INPUT_FIRE, INPUT_SPRINT, INPUT_UP};
use turtle_time::map::{spawn_map, MapConfig, Pos};
use turtle_time::rng::AgreedRandom;
use turtle_time::round::{
    advance_tick, advance_tick_with_draws, check_win_state, setup_round, RoundOutcome, SetupError,
};
use turtle_time::state::{
    Edible, Fireball, GameState, GameTimer, SoundKind, CHILI_PEPPER_AMMO_COUNT, FIREBALL_DAMAGE,
    PLAYER_SPEED_BOOST, PLAYER_SPEED_START,
};

fn far_map() -> MapConfig {
    MapConfig {
        walls: Vec::new(),
        spawn_areas: vec![Pos { x: -500_000, y: -500_000 }],
        player_spawns: vec![
            Pos { x: 0, y: 0 },
            Pos { x: 100_000, y: 0 },
            Pos { x: 0, y: 100_000 },
            Pos { x: 100_000, y: 100_000 },
        ],
    }
}

fn neutral_inputs(n: usize) -> Vec<(PlayerInput, InputStatus)> {
    (0..n)
        .map(|_| (PlayerInput { input: 0 }, InputStatus::Disconnected))
        .collect()
}

fn masks(ms: &[u8]) -> Vec<(PlayerInput, InputStatus)> {
    ms.iter()
        .map(|&m| (PlayerInput { input: m }, InputStatus::Confirmed))
        .collect()
}

#[test]
fn setup_round_creates_players_at_spawns() {
    let map = far_map();
    let state = setup_round(&map, 4).unwrap();
    assert_eq!(state.players.len(), 4);
    for h in 0..4 {
        assert_eq!(state.players[h].handle, h);
        assert!(state.players[h].active);
        assert_eq!(state.players[h].health, 100);
        assert_eq!(state.players[h].speed, PLAYER_SPEED_START);
        assert_eq!(state.players[h].pos, map.player_spawns[h]);
    }
    assert!(state.fireballs.is_empty());
    assert!(state.edibles.is_empty());
}

#[test]
fn setup_round_reports_missing_player_spawns() {
    let mut map = far_map();
    map.player_spawns.truncate(2);
    assert_eq!(setup_round(&map, 4), Err(SetupError::MissingPlayerSpawns));
}

#[test]
fn setup_round_reports_missing_pickup_areas() {
    let mut map = far_map();
    map.spawn_areas.clear();
    assert_eq!(setup_round(&map, 4), Err(SetupError::MissingPickupAreas));
}

#[test]
fn player_moves_up_by_speed_per_tick() {
    let map = far_map();
    let mut state = setup_round(&map, 4).unwrap();
    let inputs = masks(&[INPUT_UP, 0, 0, 0]);
    advance_tick_with_draws(&mut state, &map, &inputs, 0, 0, 0);
    assert_eq!(state.players[0].pos, Pos { x: 0, y: 100 });
    assert_eq!(state.players[1].pos, Pos { x: 100_000, y: 0 });
}

#[test]
fn wall_blocks_movement() {
    let mut map = far_map();
    map.walls.push(Pos { x: 0, y: 1920 });
    let mut state = setup_round(&map, 4).unwrap();
    let inputs = masks(&[INPUT_UP, 0, 0, 0]);
    advance_tick_with_draws(&mut state, &map, &inputs, 0, 0, 0);
    // moving up 100 units would bring the player within the overlap margin
    assert_eq!(state.players[0].pos, Pos { x: 0, y: 0 });
}

#[test]
fn fireball_hits_once_and_never_its_shooter() {
    // Four players, all active, health 100 each; a projectile from
    // handle 0 right at handle 1 deals FIREBALL_DAMAGE exactly once and is
    // removed; handle 0's own projectile never hurts handle 0.
    let map = far_map();
    let mut state = setup_round(&map, 4).unwrap();
    state.fireballs.push(Fireball {
        id: 0,
        shot_by: 0,
        dir: turtle_time::input::DirVec { x: 0, y: 0 },
        speed: 100,
        pos: Pos { x: 100_000, y: 0 }, // on handle 1
        lifetime: GameTimer { elapsed_ms: 0, duration_ms: 10_000, repeating: false },
        expired: false,
    });
    state.fireballs.push(Fireball {
        id: 1,
        shot_by: 0,
        dir: turtle_time::input::DirVec { x: 0, y: 0 },
        speed: 100,
        pos: Pos { x: 0, y: 0 }, // on handle 0, its own shooter
        lifetime: GameTimer { elapsed_ms: 0, duration_ms: 10_000, repeating: false },
        expired: false,
    });
    state.next_id = 2;
    let inputs = neutral_inputs(4);
    advance_tick_with_draws(&mut state, &map, &inputs, 0, 0, 0);
    assert_eq!(state.players[1].health, 100 - FIREBALL_DAMAGE);
    assert_eq!(state.players[0].health, 100);
    // the hitting projectile is gone, the shooter's own one remains
    assert_eq!(state.fireballs.len(), 1);
    assert_eq!(state.fireballs[0].id, 1);
}

#[test]
fn pickup_spawns_at_drawn_area_and_is_consumed_once() {
    // The chili pepper timer fires, the pickup spawns at the drawn
    // area, and the first player in handle order consumes it before any
    // other player can.
    let mut map = far_map();
    map.spawn_areas = vec![Pos { x: 0, y: 0 }, Pos { x: -500_000, y: 0 }];
    map.player_spawns[1] = Pos { x: 100, y: 0 }; // both 0 and 1 in range of area 0
    let mut state = setup_round(&map, 4).unwrap();
    state.timers.chili_pepper_timer = GameTimer {
        elapsed_ms: 2484,
        duration_ms: 2500,
        repeating: true,
    };
    let inputs = neutral_inputs(4);
    let out = advance_tick_with_draws(&mut state, &map, &inputs, 0, 0, 0);
    assert_eq!(state.players[0].ammo, CHILI_PEPPER_AMMO_COUNT);
    assert_eq!(state.players[1].ammo, 0);
    assert!(state.edibles.is_empty());
    assert!(out
        .events
        .iter()
        .any(|e| e.sound == SoundKind::Pickup && e.frame == state.frame));
}

#[test]
fn pickup_spawn_uses_drawn_index() {
    let mut map = far_map();
    map.spawn_areas = vec![Pos { x: -500_000, y: 0 }, Pos { x: -400_000, y: 0 }];
    let mut state = setup_round(&map, 4).unwrap();
    state.timers.lettuce_timer = GameTimer {
        elapsed_ms: 4992,
        duration_ms: 5000,
        repeating: true,
    };
    let inputs = neutral_inputs(4);
    advance_tick_with_draws(&mut state, &map, &inputs, 0, 0, 1);
    assert_eq!(state.edibles.len(), 1);
    assert_eq!(state.edibles[0].kind, Edible::Lettuce);
    assert_eq!(state.edibles[0].pos, Pos { x: -400_000, y: 0 });
}

#[test]
fn ammo_gate_fires_exactly_ammo_times() {
    // With 2 rounds, holding fire cannot fire continuously; exactly 2
    // shots are possible and ammunition never goes negative.
    let map = far_map();
    let mut state = setup_round(&map, 4).unwrap();
    state.players[0].ammo = 2;
    let mut shots = 0usize;
    // release, press, press(held), release, press, release, press...
    let script = [0, INPUT_FIRE, INPUT_FIRE, 0, INPUT_FIRE, 0, INPUT_FIRE, 0, INPUT_FIRE];
    for &m in script.iter() {
        let before = state.fireballs.len();
        let inputs = masks(&[m, 0, 0, 0]);
        advance_tick_with_draws(&mut state, &map, &inputs, 0, 0, 0);
        shots += state.fireballs.len() - before;
        assert!(state.players[0].ammo >= 0);
    }
    assert_eq!(shots, 2);
    assert_eq!(state.players[0].ammo, 0);
}

#[test]
fn shot_spawns_fireball_with_sound_keyed_by_id() {
    let map = far_map();
    let mut state = setup_round(&map, 4).unwrap();
    state.players[0].ammo = 1;
    // a release tick rearms, the next press shoots
    advance_tick_with_draws(&mut state, &map, &masks(&[0, 0, 0, 0]), 0, 0, 0);
    let out = advance_tick_with_draws(&mut state, &map, &masks(&[INPUT_FIRE, 0, 0, 0]), 0, 0, 0);
    assert_eq!(state.fireballs.len(), 1);
    let fb = &state.fireballs[0];
    assert_eq!(fb.shot_by, 0);
    assert_eq!(fb.speed, state.players[0].speed);
    assert!(out
        .events
        .iter()
        .any(|e| e.sound == SoundKind::FireballShot && e.sub_key == fb.id));
}

#[test]
fn sprint_boosts_speed_and_drops_hazard() {
    let map = far_map();
    let mut state = setup_round(&map, 4).unwrap();
    state.players[0].boost = 2;
    let out = advance_tick_with_draws(&mut state, &map, &masks(&[INPUT_SPRINT, 0, 0, 0]), 0, 0, 0);
    assert_eq!(state.players[0].speed, PLAYER_SPEED_START + PLAYER_SPEED_BOOST);
    assert_eq!(state.players[0].boost, 1);
    assert_eq!(state.poops.len(), 1);
    assert_eq!(state.poops[0].shat_by, 0);
    assert!(out.events.iter().any(|e| e.sound == SoundKind::Sprinting));
}

#[test]
fn hazard_damages_non_owner_on_contact() {
    let map = far_map();
    let mut state = setup_round(&map, 4).unwrap();
    state.poops.push(turtle_time::state::PlayerPoop {
        id: 0,
        shat_by: 2,
        pos: Pos { x: 100, y: 0 }, // within contact range of handle 0
        lifetime: GameTimer { elapsed_ms: 0, duration_ms: 10_000, repeating: false },
        expired: false,
    });
    state.next_id = 1;
    advance_tick_with_draws(&mut state, &map, &neutral_inputs(4), 0, 0, 0);
    assert_eq!(state.players[0].health, 100 - turtle_time::state::POOP_DAMAGE);
    // destroyed on contact
    assert!(state.poops.is_empty());
}

#[test]
fn win_detection_waits_for_single_survivor() {
    // With two players still active the detector reports nothing; the
    // tick that brings the active count down to one names the survivor.
    let map = far_map();
    let mut state = setup_round(&map, 4).unwrap();
    state.players[2].active = false;
    state.players[3].active = false;
    assert_eq!(check_win_state(&state.players), None);
    state.players[1].health = 3;
    state.fireballs.push(Fireball {
        id: 0,
        shot_by: 0,
        dir: turtle_time::input::DirVec { x: 0, y: 0 },
        speed: 100,
        pos: Pos { x: 100_000, y: 0 },
        lifetime: GameTimer { elapsed_ms: 0, duration_ms: 10_000, repeating: false },
        expired: false,
    });
    state.next_id = 1;
    let out = advance_tick_with_draws(&mut state, &map, &neutral_inputs(4), 0, 0, 0);
    assert!(!state.players[1].active);
    assert_eq!(out.outcome, Some(RoundOutcome::Winner(0)));
}

#[test]
fn simultaneous_death_is_a_draw() {
    let map = far_map();
    let mut state = setup_round(&map, 4).unwrap();
    for p in state.players.iter_mut() {
        p.active = false;
    }
    assert_eq!(check_win_state(&state.players), Some(RoundOutcome::Draw));
}

#[test]
fn checksum_stable_under_noop_ticks() {
    // After a tick with only neutral inputs, no player moved, so every
    // player's checksum is unchanged from the tick before.
    let map = far_map();
    let mut state = setup_round(&map, 4).unwrap();
    advance_tick_with_draws(&mut state, &map, &masks(&[INPUT_UP, 0, INPUT_FIRE, 0]), 0, 0, 0);
    let before: Vec<u16> = state.players.iter().map(|p| p.checksum).collect();
    advance_tick_with_draws(&mut state, &map, &neutral_inputs(4), 0, 0, 0);
    let after: Vec<u16> = state.players.iter().map(|p| p.checksum).collect();
    assert_eq!(before, after);
}

#[test]
fn pipeline_is_deterministic_across_runs() {
    // The same seed, initial state and input stream give bit-identical
    // states and checksums, run as many times as rollback needs.
    let mut finals: Vec<GameState> = Vec::new();
    for _ in 0..2 {
        let map = far_map();
        let mut state = setup_round(&map, 4).unwrap();
        let mut rng = AgreedRandom::new(vec![7, 3, 99]);
        for t in 0..250u8 {
            let script = [
                t & 0x0f,
                if t % 3 == 0 { INPUT_FIRE } else { 0 },
                INPUT_SPRINT | (t % 4),
                t / 2,
            ];
            let inputs = masks(&script);
            advance_tick(&mut state, &map, &inputs, &mut rng);
        }
        finals.push(state);
    }
    assert_eq!(finals[0], finals[1]);
    for (a, b) in finals[0].players.iter().zip(finals[1].players.iter()) {
        assert_eq!(a.checksum, b.checksum);
    }
}

#[test]
fn fireball_advances_by_snapshot_speed() {
    let map = far_map();
    let mut state = setup_round(&map, 4).unwrap();
    state.fireballs.push(Fireball {
        id: 0,
        shot_by: 3,
        dir: turtle_time::input::DirVec { x: 1000, y: 0 },
        speed: 100,
        pos: Pos { x: -300_000, y: -300_000 },
        lifetime: GameTimer { elapsed_ms: 0, duration_ms: 10_000, repeating: false },
        expired: false,
    });
    state.next_id = 1;
    advance_tick_with_draws(&mut state, &map, &neutral_inputs(4), 0, 0, 0);
    assert_eq!(state.fireballs[0].pos, Pos { x: -299_700, y: -300_000 });
}

#[test]
fn fireball_expires_after_lifetime() {
    let map = far_map();
    let mut state = setup_round(&map, 4).unwrap();
    state.fireballs.push(Fireball {
        id: 0,
        shot_by: 3,
        dir: turtle_time::input::DirVec { x: 0, y: 0 },
        speed: 100,
        pos: Pos { x: -300_000, y: -300_000 },
        lifetime: GameTimer { elapsed_ms: 9992, duration_ms: 10_000, repeating: false },
        expired: false,
    });
    state.next_id = 1;
    advance_tick_with_draws(&mut state, &map, &neutral_inputs(4), 0, 0, 0);
    assert!(state.fireballs.is_empty());
}

#[test]
fn round_on_a_parsed_map_reaches_a_verdict() {
    // a whole round on a tile map: two players, one armed, until the win
    // detector names a survivor
    let text = "\
========
|!....!|
|..~~..|
________";
    let rows: Vec<Vec<char>> = text.lines().map(|l| l.chars().collect()).collect();
    let map = spawn_map(&rows);
    assert!(map.player_spawns.len() >= 2);
    assert!(!map.spawn_areas.is_empty());
    let mut state = setup_round(&map, 2).unwrap();
    state.players[0].ammo = 50;
    let mut rng = AgreedRandom::new(vec![8, 15]);
    let mut verdict = None;
    for t in 0..3000u32 {
        // handle 0 walks toward handle 1, firing on alternate ticks
        let m0 = if t % 2 == 0 { INPUT_FIRE } else { 0x08 };
        let inputs = masks(&[m0, 0]);
        let out = advance_tick(&mut state, &map, &inputs, &mut rng);
        if out.outcome.is_some() {
            verdict = out.outcome;
            break;
        }
    }
    assert_eq!(verdict, Some(RoundOutcome::Winner(0)));
}

#[test]
fn lettuce_heals_clamped_to_maximum() {
    let mut map = far_map();
    map.spawn_areas = vec![Pos { x: -500_000, y: 0 }];
    let mut state = setup_round(&map, 4).unwrap();
    state.players[0].health = 95;
    state.edibles.push(turtle_time::state::EdibleItem {
        id: 0,
        kind: Edible::Lettuce,
        pos: Pos { x: 0, y: 0 },
        expired: false,
    });
    state.next_id = 1;
    advance_tick_with_draws(&mut state, &map, &neutral_inputs(4), 0, 0, 0);
    // +10 would overshoot: clamped to the maximum, pickup consumed
    assert_eq!(state.players[0].health, 100);
    assert!(state.edibles.is_empty());
}

#[test]
fn strawberry_grants_sprint_charges() {
    let mut map = far_map();
    map.spawn_areas = vec![Pos { x: -500_000, y: 0 }];
    let mut state = setup_round(&map, 4).unwrap();
    state.edibles.push(turtle_time::state::EdibleItem {
        id: 0,
        kind: Edible::Strawberry,
        pos: Pos { x: 0, y: 0 },
        expired: false,
    });
    state.next_id = 1;
    advance_tick_with_draws(&mut state, &map, &neutral_inputs(4), 0, 0, 0);
    assert_eq!(state.players[0].boost, turtle_time::state::STRAWBERRY_AMMO_COUNT);
    assert!(state.edibles.is_empty());
}
