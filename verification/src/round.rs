//! Round lifecycle and the per-tick pipeline.
//!
//! `advance_tick_with_draws` is the pure step function of the engine: it
//! maps one state and one set of per-player inputs to the next state, with
//! every stage running in one fixed order — inputs, sprint, movement,
//! combat (reload, shoot, advance and age projectiles, damage, hazards,
//! kill), the resource economy (timers, spawns, consumption), the checksum
//! pass, removal of expired entities, and win detection last, after all
//! damage of the tick, so that a simultaneous last-two death resolves as a
//! draw.  Its whole effect is pinned to `spec_tick`, so re-running it from
//! the same snapshot can only produce the same state.
//! `advance_tick` is the same step drawing spawn indices from the agreed
//! random source.

use crate::checksum::{spec_checksum_from, checksum_players};
use crate::combat::{
    despawn_old_fireballs, despawn_old_poops, fireball_damage_players, kill_players,
    move_fireballs, player_poops, player_stepped_in_poop, reload_fireballs, remove_expired,
    shoot_fireballs, spec_damage_from, spec_expire_fireballs_from, spec_expire_poops_from,
    spec_kill_from, spec_live_edibles, spec_live_fireballs, spec_live_poops,
    spec_move_fireballs_from, spec_poop_damage_from, spec_poops_from, spec_reload_from,
    spec_shoot_from, spec_tick_fireballs_from, spec_tick_poops_from, tick_fireball_timers,
    tick_poop_timers,
};
use crate::economy::{
    player_ate_chili_pepper_system, player_ate_lettuce_system, player_ate_strawberry_system,
    spawn_chili_pepper_over_time, spawn_lettuce_over_time, spawn_strawberry_over_time,
    spec_eat_from, spec_new_edible, spec_tick_timers, tick_edible_timer,
};
use crate::input::{apply_inputs, spec_apply_inputs_from, InputStatus, PlayerInput, INPUT_EXIT};
use crate::map::MapConfig;
use crate::movement::{apply_player_sprint, move_players, spec_move_from, spec_sprint_from};
use crate::rng::AgreedRandom;
use crate::state::{
    AudioEvent, Edible, EdibleItem, EdibleSpawnTimer, Fireball, GameState, Player, PlayerPoop,
};
use vstd::prelude::*;

verus! {

/// How a finished round ended: one surviving handle, or a simultaneous
/// death draw.
#[derive(Clone, Copy, PartialEq, Eq, Structural, Debug)]
pub enum RoundOutcome {
    Winner(usize),
    Draw,
}

/// Why a round could not be set up.
#[derive(Clone, Copy, PartialEq, Eq, Structural, Debug)]
pub enum SetupError {
    /// Fewer designated player spawn points than connected slots.
    MissingPlayerSpawns,
    /// No designated pickup spawn areas.
    MissingPickupAreas,
}

/// Number of active players at handles `i` and above.
pub open spec fn spec_active_count_from(players: Seq<Player>, i: int) -> int
    decreases players.len() - i,
{
    if i < 0 || i >= players.len() {
        0
    } else {
        (if players[i].active {
            1int
        } else {
            0int
        }) + spec_active_count_from(players, i + 1)
    }
}

/// Index of the first active player at handle `i` or above, or -1.
pub open spec fn spec_first_active_from(players: Seq<Player>, i: int) -> int
    decreases players.len() - i,
{
    if i < 0 || i >= players.len() {
        -1
    } else if players[i].active {
        i
    } else {
        spec_first_active_from(players, i + 1)
    }
}

/// The terminal condition, evaluated once per tick after all damage:
/// exactly one survivor wins with its handle; zero survivors in a
/// non-empty roster is a draw; otherwise the round goes on.
pub open spec fn spec_win_state(players: Seq<Player>) -> Option<RoundOutcome> {
    let c = spec_active_count_from(players, 0);
    if c == 1 {
        Some(RoundOutcome::Winner(players[spec_first_active_from(players, 0)].handle))
    } else if c == 0 && players.len() > 0 {
        Some(RoundOutcome::Draw)
    } else {
        None
    }
}

/// The win detector: collects players in ascending handle order and counts
/// the ones still active.
pub fn check_win_state(players: &Vec<Player>) -> (r: Option<RoundOutcome>)
    ensures
        r == spec_win_state(players@),
{
    let n = players.len();
    let mut cnt: usize = 0;
    let mut found = false;
    let mut first_handle: usize = 0;
    let mut i: usize = 0;
    while i < n
        invariant
            i <= n,
            cnt <= i,
            cnt + spec_active_count_from(players@, i as int) == spec_active_count_from(
                players@,
                0,
            ),
            found == (cnt > 0),
            !found ==> spec_first_active_from(players@, 0) == spec_first_active_from(
                players@,
                i as int,
            ),
            found ==> 0 <= spec_first_active_from(players@, 0) < i && players@[
                spec_first_active_from(players@, 0)].handle == first_handle,
        decreases n - i,
    {
        if players[i].active {
            cnt = cnt + 1;
            if !found {
                found = true;
                first_handle = players[i].handle;
            }
        }
        i = i + 1;
    }
    if cnt == 1 {
        Some(RoundOutcome::Winner(first_handle))
    } else if cnt == 0 && n > 0 {
        Some(RoundOutcome::Draw)
    } else {
        None
    }
}

/// Whether any player's confirmed input for this tick is exactly the exit
/// intent.
pub open spec fn spec_exit_requested(inputs: Seq<(PlayerInput, InputStatus)>) -> bool {
    exists|k: int|
        0 <= k < inputs.len() && (#[trigger] inputs[k]).1 == InputStatus::Confirmed
            && inputs[k].0.input == INPUT_EXIT
}

/// Whether a player asked to leave the round, counting only confirmed
/// inputs so that a predicted exit cannot end the round early.
pub fn exit_requested(inputs: &Vec<(PlayerInput, InputStatus)>) -> (r: bool)
    ensures
        r == spec_exit_requested(inputs@),
{
    let mut i: usize = 0;
    while i < inputs.len()
        invariant
            i <= inputs@.len(),
            forall|k: int|
                0 <= k < i ==> !((#[trigger] inputs@[k]).1 == InputStatus::Confirmed
                    && inputs@[k].0.input == INPUT_EXIT),
        decreases inputs@.len() - i,
    {
        let ok = match inputs[i].1 {
            InputStatus::Confirmed => true,
            _ => false,
        };
        if ok && inputs[i].0.input == INPUT_EXIT {
            return true;
        }
        i = i + 1;
    }
    false
}

/// Round setup: one player per connected slot, placed at its designated
/// spawn point, with the round-scoped timers freshly reset and no leftover
/// entities.  Too few player spawn points, or an empty pickup-area list,
/// is a fatal configuration error reported here.
pub fn setup_round(map: &MapConfig, player_count: usize) -> (r: Result<GameState, SetupError>)
    requires
        map.wf(),
    ensures
        map.player_spawns@.len() < player_count ==> r == Err::<GameState, SetupError>(
            SetupError::MissingPlayerSpawns,
        ),
        map.player_spawns@.len() >= player_count && map.spawn_areas@.len() == 0 ==> r == Err::<
            GameState,
            SetupError,
        >(SetupError::MissingPickupAreas),
        map.player_spawns@.len() >= player_count && map.spawn_areas@.len() > 0 ==> (r matches Ok(s)
            && s.wf() && s.frame == 0 && s.next_id == 0 && s.players@.len() == player_count && (
        forall|h: int|
            0 <= h < player_count ==> s.players@[h] == Player::spec_new(
                h as usize,
                map.player_spawns@[h],
            )) && s.fireballs@.len() == 0 && s.poops@.len() == 0 && s.edibles@.len() == 0
            && s.timers == EdibleSpawnTimer::spec_default()),
{
    if map.player_spawns.len() < player_count {
        return Err(SetupError::MissingPlayerSpawns);
    }
    if map.spawn_areas.len() == 0 {
        return Err(SetupError::MissingPickupAreas);
    }
    let mut players: Vec<Player> = Vec::new();
    let mut h: usize = 0;
    while h < player_count
        invariant
            h <= player_count,
            player_count <= map.player_spawns@.len(),
            players@.len() == h,
            forall|k: int|
                0 <= k < h ==> players@[k] == Player::spec_new(
                    k as usize,
                    map.player_spawns@[k],
                ),
        decreases player_count - h,
    {
        players.push(Player::new(h, map.player_spawns[h]));
        h = h + 1;
    }
    let state = GameState {
        frame: 0,
        next_id: 0,
        players,
        fireballs: Vec::new(),
        poops: Vec::new(),
        edibles: Vec::new(),
        timers: Default::default(),
    };
    proof {
        assert forall|k: int| 0 <= k < state.players@.len() implies (
        #[trigger] state.players@[k]).wf() && state.players@[k].handle == k by {
            assert(state.players@[k] == Player::spec_new(k as usize, map.player_spawns@[k]));
        }
    }
    Ok(state)
}

/// What one tick produces besides the next state: the sound cues issued
/// this tick and the win detector's verdict.
pub struct TickOutput {
    pub events: Vec<AudioEvent>,
    pub outcome: Option<RoundOutcome>,
}

/// Everything the pipeline derives in one tick, as one mathematical value.
pub ghost struct TickResult {
    pub players: Seq<Player>,
    pub fireballs: Seq<Fireball>,
    pub poops: Seq<PlayerPoop>,
    pub edibles: Seq<EdibleItem>,
    pub timers: EdibleSpawnTimer,
    pub frame: u32,
    pub next_id: u64,
    pub events: Seq<AudioEvent>,
    pub outcome: Option<RoundOutcome>,
}

/// The complete step function of the simulation: the state after one tick,
/// as a function of the state before it, the per-player inputs, and the
/// three spawn indices (each used only if its timer completes this tick).
pub open spec fn spec_tick(
    s: GameState,
    map: MapConfig,
    inputs: Seq<(PlayerInput, InputStatus)>,
    d_straw: usize,
    d_chili: usize,
    d_let: usize,
) -> TickResult {
    let frame1 = (s.frame + 1) as u32;
    let p1 = spec_apply_inputs_from(s.players@, inputs, 0);
    let p2 = spec_sprint_from(p1, 0);
    let p3 = spec_move_from(p2, map.walls@, 0);
    let p4 = spec_reload_from(p3, 0);
    let shot = spec_shoot_from(p4, s.fireballs@, s.next_id, Seq::empty(), frame1, 0);
    let f1 = spec_move_fireballs_from(shot.1, 0);
    let f2 = spec_tick_fireballs_from(f1, 0);
    let f3 = spec_expire_fireballs_from(f2, 0);
    let dmg = spec_damage_from(shot.0, f3, 0);
    let pooped = spec_poops_from(dmg.0, s.poops@, shot.2, shot.3, frame1, 0);
    let pdmg = spec_poop_damage_from(dmg.0, pooped.0, 0);
    let o1 = spec_tick_poops_from(pdmg.1, 0);
    let o2 = spec_expire_poops_from(o1, 0);
    let p5 = spec_kill_from(pdmg.0, 0);
    let t1 = spec_tick_timers(s.timers);
    let straw_fires = s.timers.strawberry_timer.spec_fires();
    let chili_fires = s.timers.chili_pepper_timer.spec_fires();
    let let_fires = s.timers.lettuce_timer.spec_fires();
    let e1 = if straw_fires {
        s.edibles@.push(spec_new_edible(Edible::Strawberry, pooped.1, map.spawn_areas@[d_straw as int]))
    } else {
        s.edibles@
    };
    let id1 = if straw_fires {
        (pooped.1 + 1) as u64
    } else {
        pooped.1
    };
    let e2 = if chili_fires {
        e1.push(spec_new_edible(Edible::ChiliPepper, id1, map.spawn_areas@[d_chili as int]))
    } else {
        e1
    };
    let id2 = if chili_fires {
        (id1 + 1) as u64
    } else {
        id1
    };
    let e3 = if let_fires {
        e2.push(spec_new_edible(Edible::Lettuce, id2, map.spawn_areas@[d_let as int]))
    } else {
        e2
    };
    let id3 = if let_fires {
        (id2 + 1) as u64
    } else {
        id2
    };
    let ate1 = spec_eat_from(Edible::ChiliPepper, p5, e3, pooped.2, frame1, 0);
    let ate2 = spec_eat_from(Edible::Strawberry, ate1.0, ate1.1, ate1.2, frame1, 0);
    let ate3 = spec_eat_from(Edible::Lettuce, ate2.0, ate2.1, ate2.2, frame1, 0);
    let p6 = spec_checksum_from(ate3.0, 0);
    TickResult {
        players: p6,
        fireballs: spec_live_fireballs(dmg.1),
        poops: spec_live_poops(o2),
        edibles: spec_live_edibles(ate3.1),
        timers: t1,
        frame: frame1,
        next_id: id3,
        events: ate3.2,
        outcome: spec_win_state(p6),
    }
}

/// One tick of the pipeline with the spawn indices given by the caller.
/// The resulting state, the issued sound cues and the verdict are all
/// functions of the arguments alone: re-running this step from the same
/// snapshot with the same inputs and draws can only reproduce the same
/// state, which is what rollback re-simulation relies on.
pub fn advance_tick_with_draws(
    state: &mut GameState,
    map: &MapConfig,
    inputs: &Vec<(PlayerInput, InputStatus)>,
    d_straw: usize,
    d_chili: usize,
    d_let: usize,
) -> (out: TickOutput)
    requires
        old(state).wf(),
        map.wf(),
        inputs@.len() == old(state).players@.len(),
        old(state).frame < u32::MAX,
        old(state).next_id + 2 * old(state).players@.len() + 3 <= u64::MAX,
        map.spawn_areas@.len() >= 1,
        d_straw < map.spawn_areas@.len(),
        d_chili < map.spawn_areas@.len(),
        d_let < map.spawn_areas@.len(),
    ensures
        final(state).wf(),
        final(state).checksums_current(),
        final(state).players@ == spec_tick(*old(state), *map, inputs@, d_straw, d_chili, d_let).players,
        final(state).fireballs@ == spec_tick(*old(state), *map, inputs@, d_straw, d_chili, d_let).fireballs,
        final(state).poops@ == spec_tick(*old(state), *map, inputs@, d_straw, d_chili, d_let).poops,
        final(state).edibles@ == spec_tick(*old(state), *map, inputs@, d_straw, d_chili, d_let).edibles,
        final(state).timers == spec_tick(*old(state), *map, inputs@, d_straw, d_chili, d_let).timers,
        final(state).frame == spec_tick(*old(state), *map, inputs@, d_straw, d_chili, d_let).frame,
        final(state).next_id == spec_tick(*old(state), *map, inputs@, d_straw, d_chili, d_let).next_id,
        out.events@ == spec_tick(*old(state), *map, inputs@, d_straw, d_chili, d_let).events,
        out.outcome == spec_tick(*old(state), *map, inputs@, d_straw, d_chili, d_let).outcome,
        final(state).players@.len() == old(state).players@.len(),
{
    state.frame = state.frame + 1;
    let frame1 = state.frame;
    let mut events: Vec<AudioEvent> = Vec::new();

    apply_inputs(&mut state.players, inputs);
    apply_player_sprint(&mut state.players);
    move_players(&mut state.players, &map.walls);
    reload_fireballs(&mut state.players);
    shoot_fireballs(&mut state.players, &mut state.fireballs, &mut state.next_id, &mut events, frame1);
    move_fireballs(&mut state.fireballs);
    tick_fireball_timers(&mut state.fireballs);
    despawn_old_fireballs(&mut state.fireballs);
    fireball_damage_players(&mut state.players, &mut state.fireballs);
    player_poops(&state.players, &mut state.poops, &mut state.next_id, &mut events, frame1);
    player_stepped_in_poop(&mut state.players, &mut state.poops);
    tick_poop_timers(&mut state.poops);
    despawn_old_poops(&mut state.poops);
    kill_players(&mut state.players);

    let straw_fires = state.timers.strawberry_timer.will_fire();
    let chili_fires = state.timers.chili_pepper_timer.will_fire();
    let let_fires = state.timers.lettuce_timer.will_fire();
    tick_edible_timer(&mut state.timers);
    if straw_fires {
        spawn_strawberry_over_time(&mut state.edibles, &mut state.next_id, &map.spawn_areas, d_straw);
    }
    if chili_fires {
        spawn_chili_pepper_over_time(&mut state.edibles, &mut state.next_id, &map.spawn_areas, d_chili);
    }
    if let_fires {
        spawn_lettuce_over_time(&mut state.edibles, &mut state.next_id, &map.spawn_areas, d_let);
    }
    player_ate_chili_pepper_system(&mut state.players, &mut state.edibles, &mut events, frame1);
    player_ate_strawberry_system(&mut state.players, &mut state.edibles, &mut events, frame1);
    player_ate_lettuce_system(&mut state.players, &mut state.edibles, &mut events, frame1);

    checksum_players(&mut state.players);
    let ghost pre_fb = state.fireballs@;
    let ghost pre_po = state.poops@;
    let ghost pre_ed = state.edibles@;
    remove_expired(&mut state.fireballs, &mut state.poops, &mut state.edibles);
    proof {
        assert forall|k: int| 0 <= k < state.fireballs@.len() implies (
        #[trigger] state.fireballs@[k]).wf() && state.fireballs@[k].id < state.next_id by {
            let x = state.fireballs@[k];
            let j = choose|j: int| 0 <= j < pre_fb.len() && pre_fb[j] == x;
            assert(pre_fb[j].wf() && pre_fb[j].id < state.next_id);
        }
        assert forall|k: int| 0 <= k < state.poops@.len() implies (
        #[trigger] state.poops@[k]).wf() && state.poops@[k].id < state.next_id by {
            let x = state.poops@[k];
            let j = choose|j: int| 0 <= j < pre_po.len() && pre_po[j] == x;
            assert(pre_po[j].wf() && pre_po[j].id < state.next_id);
        }
        assert forall|k: int| 0 <= k < state.edibles@.len() implies (
        #[trigger] state.edibles@[k]).wf() && state.edibles@[k].id < state.next_id by {
            let x = state.edibles@[k];
            let j = choose|j: int| 0 <= j < pre_ed.len() && pre_ed[j] == x;
            assert(pre_ed[j].wf() && pre_ed[j].id < state.next_id);
        }
    }
    let outcome = check_win_state(&state.players);
    TickOutput { events, outcome }
}

/// One tick of the pipeline, drawing each needed spawn index from the
/// agreed random source in a fixed order (strawberry, chili pepper,
/// lettuce; a draw happens only for a timer that completes this tick).
/// Whatever the draws return, they are in range, and the rest of the tick
/// is the pinned step function applied to them.
pub fn advance_tick(
    state: &mut GameState,
    map: &MapConfig,
    inputs: &Vec<(PlayerInput, InputStatus)>,
    rng: &mut AgreedRandom,
) -> (out: TickOutput)
    requires
        old(state).wf(),
        map.wf(),
        inputs@.len() == old(state).players@.len(),
        old(state).frame < u32::MAX,
        old(state).next_id + 2 * old(state).players@.len() + 3 <= u64::MAX,
        map.spawn_areas@.len() >= 1,
    ensures
        final(state).wf(),
        final(state).checksums_current(),
        final(state).players@.len() == old(state).players@.len(),
        exists|d_straw: usize, d_chili: usize, d_let: usize|
            {
                let r = #[trigger] spec_tick(*old(state), *map, inputs@, d_straw, d_chili, d_let);
                &&& d_straw < map.spawn_areas@.len()
                &&& d_chili < map.spawn_areas@.len()
                &&& d_let < map.spawn_areas@.len()
                &&& final(state).players@ == r.players
                &&& final(state).fireballs@ == r.fireballs
                &&& final(state).poops@ == r.poops
                &&& final(state).edibles@ == r.edibles
                &&& final(state).timers == r.timers
                &&& final(state).frame == r.frame
                &&& final(state).next_id == r.next_id
                &&& out.events@ == r.events
                &&& out.outcome == r.outcome
            },
{
    let d_straw = if state.timers.strawberry_timer.will_fire() {
        rng.next_index(map.spawn_areas.len())
    } else {
        0
    };
    let d_chili = if state.timers.chili_pepper_timer.will_fire() {
        rng.next_index(map.spawn_areas.len())
    } else {
        0
    };
    let d_let = if state.timers.lettuce_timer.will_fire() {
        rng.next_index(map.spawn_areas.len())
    } else {
        0
    };
    let out = advance_tick_with_draws(state, map, inputs, d_straw, d_chili, d_let);
    out
}

/// Where the session's state machine stands.
#[derive(Clone, Copy, PartialEq, Eq, Structural, Debug)]
pub enum RoundPhase {
    /// No session: nothing allocated.
    Idle,
    /// Peers known, session resources live, round not yet built.
    RoundSetup,
    /// The per-tick pipeline is running.
    Playing,
    /// The outcome is recorded; awaiting a rematch or teardown.
    RoundOver,
}

/// The session-scoped resources and the round state they own.  Session
/// scope (the agreed random source, the local handle) survives a rematch;
/// round scope (the game state with its entities and timers) is rebuilt
/// every round.
pub struct Session {
    pub phase: RoundPhase,
    pub agreed: Option<AgreedRandom>,
    pub local_handle: Option<usize>,
    pub game: Option<GameState>,
    pub outcome: Option<RoundOutcome>,
}

impl Session {
    /// A torn-down session: nothing allocated.
    pub fn new() -> (s: Session)
        ensures
            s.phase == RoundPhase::Idle,
            s.agreed.is_none(),
            s.local_handle.is_none(),
            s.game.is_none(),
            s.outcome.is_none(),
    {
        Session { phase: RoundPhase::Idle, agreed: None, local_handle: None, game: None, outcome: None }
    }

    /// Starts a session once the peer set is known: seeds the agreed
    /// random source from the peer identifiers and records the local slot.
    pub fn start_session(&mut self, peers: Vec<u128>, local_handle: usize)
        requires
            old(self).phase == RoundPhase::Idle,
        ensures
            final(self).phase == RoundPhase::RoundSetup,
            (final(self).agreed matches Some(a) && a.rng == crate::rng::rng_of(
                crate::rng::spec_seed_string(peers@),
            )),
            final(self).local_handle == Some(local_handle),
            final(self).game.is_none(),
            final(self).outcome.is_none(),
    {
        self.agreed = Some(AgreedRandom::new(peers));
        self.local_handle = Some(local_handle);
        self.game = None;
        self.outcome = None;
        self.phase = RoundPhase::RoundSetup;
    }

    /// Builds the round state and enters play; on a configuration error
    /// the session stays in setup.
    pub fn begin_round(&mut self, map: &MapConfig, player_count: usize) -> (r: Result<
        (),
        SetupError,
    >)
        requires
            old(self).phase == RoundPhase::RoundSetup,
            map.wf(),
        ensures
            r.is_ok() ==> final(self).phase == RoundPhase::Playing && final(self).game.is_some(),
            r.is_err() ==> final(self).phase == RoundPhase::RoundSetup && final(self).game.is_none(),
            final(self).agreed == old(self).agreed,
            final(self).local_handle == old(self).local_handle,
            r.is_ok() ==> (final(self).game matches Some(g) && g.wf() && g.frame == 0
                && g.next_id == 0 && g.players@.len() == player_count && (forall|h: int|
                0 <= h < player_count ==> g.players@[h] == Player::spec_new(
                    h as usize,
                    map.player_spawns@[h],
                )) && g.fireballs@.len() == 0 && g.poops@.len() == 0 && g.edibles@.len() == 0
                && g.timers == EdibleSpawnTimer::spec_default()),
            map.player_spawns@.len() >= player_count && map.spawn_areas@.len() > 0 ==> r.is_ok(),
            map.player_spawns@.len() < player_count ==> r == Err::<(), SetupError>(
                SetupError::MissingPlayerSpawns,
            ),
            map.player_spawns@.len() >= player_count && map.spawn_areas@.len() == 0 ==> r == Err::<
                (),
                SetupError,
            >(SetupError::MissingPickupAreas),
    {
        match setup_round(map, player_count) {
            Ok(g) => {
                self.game = Some(g);
                self.outcome = None;
                self.phase = RoundPhase::Playing;
                Ok(())
            },
            Err(e) => {
                self.game = None;
                Err(e)
            },
        }
    }

    /// Records the verdict and ends the round.
    pub fn finish_round(&mut self, outcome: RoundOutcome)
        requires
            old(self).phase == RoundPhase::Playing,
        ensures
            final(self).phase == RoundPhase::RoundOver,
            final(self).outcome == Some(outcome),
            final(self).agreed == old(self).agreed,
            final(self).local_handle == old(self).local_handle,
            final(self).game == old(self).game,
    {
        self.outcome = Some(outcome);
        self.phase = RoundPhase::RoundOver;
    }

    /// The rematch path: destroys everything of round scope — the game
    /// state with all its entities and timers — while the session-scoped
    /// resources (the agreed random source, the local handle) persist.
    pub fn cleanup_round(&mut self)
        requires
            old(self).phase == RoundPhase::RoundOver,
        ensures
            final(self).phase == RoundPhase::RoundSetup,
            final(self).game.is_none(),
            final(self).outcome.is_none(),
            final(self).agreed == old(self).agreed,
            final(self).local_handle == old(self).local_handle,
    {
        self.game = None;
        self.outcome = None;
        self.phase = RoundPhase::RoundSetup;
    }

    /// The teardown path: destroys the round state and the session-scoped
    /// resources, returning the machine to idle.  A new session will seed
    /// a fresh agreed random source and may assign a different local
    /// handle.
    pub fn cleanup_session(&mut self)
        ensures
            final(self).phase == RoundPhase::Idle,
            final(self).agreed.is_none(),
            final(self).local_handle.is_none(),
            final(self).game.is_none(),
            final(self).outcome.is_none(),
    {
        self.agreed = None;
        self.local_handle = None;
        self.game = None;
        self.outcome = None;
        self.phase = RoundPhase::Idle;
    }
}

} // verus!
