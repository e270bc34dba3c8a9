//! Engine-wide laws, proved against the same spec functions the pipeline's
//! contracts use.

use crate::checksum::{spec_checksum_from, spec_checksum_player, spec_player_bytes,
    spec_player_checksum};
use crate::combat::{
    spec_damage_from, spec_fires, spec_hit_one, spec_kill_from, spec_kill_player,
    spec_poop_damage_from, spec_poop_hit_one, spec_reload_from, spec_reload_player,
    spec_shoot_from,
};
use crate::economy::{spec_eat_from, spec_eat_one};
use crate::input::{
    spec_apply_inputs_from, spec_dir_from_mask, spec_player_after_input, InputStatus, PlayerInput,
    PlayerControls,
};
use crate::map::{spec_scaled, Pos};
use crate::movement::{spec_move_from, spec_move_player, spec_sprint_from, spec_sprint_player};
use crate::round::{
    spec_active_count_from, spec_first_active_from, spec_tick, spec_win_state, RoundOutcome,
};
use crate::state::{AudioEvent, Edible, EdibleItem, Fireball, GameState, Player, PlayerPoop};
use crate::map::MapConfig;
use vstd::prelude::*;

verus! {

/// The input stage acts pointwise: player `k` gets exactly the intents of
/// its own resolved input, and nothing else changes.
pub proof fn lemma_apply_inputs_pointwise(
    players: Seq<Player>,
    inputs: Seq<(PlayerInput, InputStatus)>,
    i: int,
)
    requires
        0 <= i,
    ensures
        spec_apply_inputs_from(players, inputs, i).len() == players.len(),
        forall|k: int|
            0 <= k < i && k < players.len() ==> #[trigger] spec_apply_inputs_from(
                players,
                inputs,
                i,
            )[k] == players[k],
        forall|k: int|
            i <= k < players.len() && 0 <= k ==> #[trigger] spec_apply_inputs_from(
                players,
                inputs,
                i,
            )[k] == spec_player_after_input(players[k], inputs[k]),
    decreases players.len() - i,
{
    if 0 <= i < players.len() {
        let up = players.update(i, spec_player_after_input(players[i], inputs[i]));
        lemma_apply_inputs_pointwise(up, inputs, i + 1);
        assert forall|k: int| 0 <= k < i && k < players.len() implies
            #[trigger] spec_apply_inputs_from(players, inputs, i)[k] == players[k] by {
            assert(spec_apply_inputs_from(players, inputs, i) == spec_apply_inputs_from(up, inputs, i + 1));
            assert(spec_apply_inputs_from(up, inputs, i + 1)[k] == up[k]);
        }
        assert forall|k: int| i <= k < players.len() && 0 <= k implies
            #[trigger] spec_apply_inputs_from(players, inputs, i)[k]
                == spec_player_after_input(players[k], inputs[k]) by {
            assert(spec_apply_inputs_from(players, inputs, i) == spec_apply_inputs_from(up, inputs, i + 1));
            if k == i {
                assert(spec_apply_inputs_from(up, inputs, i + 1)[k] == up[k]);
            } else {
                assert(spec_apply_inputs_from(up, inputs, i + 1)[k]
                    == spec_player_after_input(up[k], inputs[k]));
                assert(up[k] == players[k]);
            }
        }
    }
}

/// The sprint stage acts pointwise.
pub proof fn lemma_sprint_pointwise(players: Seq<Player>, i: int)
    requires
        0 <= i,
    ensures
        spec_sprint_from(players, i).len() == players.len(),
        forall|k: int|
            0 <= k < i && k < players.len() ==> #[trigger] spec_sprint_from(players, i)[k]
                == players[k],
        forall|k: int|
            i <= k < players.len() && 0 <= k ==> #[trigger] spec_sprint_from(players, i)[k]
                == spec_sprint_player(players[k]),
    decreases players.len() - i,
{
    if 0 <= i < players.len() {
        let up = players.update(i, spec_sprint_player(players[i]));
        lemma_sprint_pointwise(up, i + 1);
        assert forall|k: int| 0 <= k < i && k < players.len() implies #[trigger] spec_sprint_from(players, i)[k]
            == players[k] by {
            assert(spec_sprint_from(players, i) == spec_sprint_from(up, i + 1));
            assert(spec_sprint_from(up, i + 1)[k] == up[k]);
        }
        assert forall|k: int| i <= k < players.len() && 0 <= k implies #[trigger] spec_sprint_from(
            players,
            i,
        )[k] == spec_sprint_player(players[k]) by {
            assert(spec_sprint_from(players, i) == spec_sprint_from(up, i + 1));
            if k == i {
                assert(spec_sprint_from(up, i + 1)[k] == up[k]);
            } else {
                assert(spec_sprint_from(up, i + 1)[k] == spec_sprint_player(up[k]));
                assert(up[k] == players[k]);
            }
        }
    }
}

/// The movement stage acts pointwise against the fixed collider list.
pub proof fn lemma_move_pointwise(players: Seq<Player>, walls: Seq<Pos>, i: int)
    requires
        0 <= i,
    ensures
        spec_move_from(players, walls, i).len() == players.len(),
        forall|k: int|
            0 <= k < i && k < players.len() ==> #[trigger] spec_move_from(players, walls, i)[k]
                == players[k],
        forall|k: int|
            i <= k < players.len() && 0 <= k ==> #[trigger] spec_move_from(players, walls, i)[k]
                == spec_move_player(players[k], walls),
    decreases players.len() - i,
{
    if 0 <= i < players.len() {
        let up = players.update(i, spec_move_player(players[i], walls));
        lemma_move_pointwise(up, walls, i + 1);
        assert forall|k: int| 0 <= k < i && k < players.len() implies
            #[trigger] spec_move_from(players, walls, i)[k] == players[k] by {
            assert(spec_move_from(players, walls, i) == spec_move_from(up, walls, i + 1));
            assert(spec_move_from(up, walls, i + 1)[k] == up[k]);
        }
        assert forall|k: int| i <= k < players.len() && 0 <= k implies
            #[trigger] spec_move_from(players, walls, i)[k] == spec_move_player(players[k], walls) by {
            assert(spec_move_from(players, walls, i) == spec_move_from(up, walls, i + 1));
            if k == i {
                assert(spec_move_from(up, walls, i + 1)[k] == up[k]);
            } else {
                assert(spec_move_from(up, walls, i + 1)[k] == spec_move_player(up[k], walls));
                assert(up[k] == players[k]);
            }
        }
    }
}

/// The reload stage acts pointwise.
pub proof fn lemma_reload_pointwise(players: Seq<Player>, i: int)
    requires
        0 <= i,
    ensures
        spec_reload_from(players, i).len() == players.len(),
        forall|k: int|
            0 <= k < i && k < players.len() ==> #[trigger] spec_reload_from(players, i)[k]
                == players[k],
        forall|k: int|
            i <= k < players.len() && 0 <= k ==> #[trigger] spec_reload_from(players, i)[k]
                == spec_reload_player(players[k]),
    decreases players.len() - i,
{
    if 0 <= i < players.len() {
        let up = players.update(i, spec_reload_player(players[i]));
        lemma_reload_pointwise(up, i + 1);
        assert forall|k: int| 0 <= k < i && k < players.len() implies #[trigger] spec_reload_from(players, i)[k]
            == players[k] by {
            assert(spec_reload_from(players, i) == spec_reload_from(up, i + 1));
            assert(spec_reload_from(up, i + 1)[k] == up[k]);
        }
        assert forall|k: int| i <= k < players.len() && 0 <= k implies #[trigger] spec_reload_from(
            players,
            i,
        )[k] == spec_reload_player(players[k]) by {
            assert(spec_reload_from(players, i) == spec_reload_from(up, i + 1));
            if k == i {
                assert(spec_reload_from(up, i + 1)[k] == up[k]);
            } else {
                assert(spec_reload_from(up, i + 1)[k] == spec_reload_player(up[k]));
                assert(up[k] == players[k]);
            }
        }
    }
}

/// The kill stage acts pointwise.
pub proof fn lemma_kill_pointwise(players: Seq<Player>, i: int)
    requires
        0 <= i,
    ensures
        spec_kill_from(players, i).len() == players.len(),
        forall|k: int|
            0 <= k < i && k < players.len() ==> #[trigger] spec_kill_from(players, i)[k]
                == players[k],
        forall|k: int|
            i <= k < players.len() && 0 <= k ==> #[trigger] spec_kill_from(players, i)[k]
                == spec_kill_player(players[k]),
    decreases players.len() - i,
{
    if 0 <= i < players.len() {
        let up = players.update(i, spec_kill_player(players[i]));
        lemma_kill_pointwise(up, i + 1);
        assert forall|k: int| 0 <= k < i && k < players.len() implies #[trigger] spec_kill_from(players, i)[k]
            == players[k] by {
            assert(spec_kill_from(players, i) == spec_kill_from(up, i + 1));
            assert(spec_kill_from(up, i + 1)[k] == up[k]);
        }
        assert forall|k: int| i <= k < players.len() && 0 <= k implies #[trigger] spec_kill_from(
            players,
            i,
        )[k] == spec_kill_player(players[k]) by {
            assert(spec_kill_from(players, i) == spec_kill_from(up, i + 1));
            if k == i {
                assert(spec_kill_from(up, i + 1)[k] == up[k]);
            } else {
                assert(spec_kill_from(up, i + 1)[k] == spec_kill_player(up[k]));
                assert(up[k] == players[k]);
            }
        }
    }
}

/// The checksum stage acts pointwise.
pub proof fn lemma_checksum_pointwise(players: Seq<Player>, i: int)
    requires
        0 <= i,
    ensures
        spec_checksum_from(players, i).len() == players.len(),
        forall|k: int|
            0 <= k < i && k < players.len() ==> #[trigger] spec_checksum_from(players, i)[k]
                == players[k],
        forall|k: int|
            i <= k < players.len() && 0 <= k ==> #[trigger] spec_checksum_from(players, i)[k]
                == spec_checksum_player(players[k]),
    decreases players.len() - i,
{
    if 0 <= i < players.len() {
        let up = players.update(i, spec_checksum_player(players[i]));
        lemma_checksum_pointwise(up, i + 1);
        assert forall|k: int| 0 <= k < i && k < players.len() implies #[trigger] spec_checksum_from(players, i)[k]
            == players[k] by {
            assert(spec_checksum_from(players, i) == spec_checksum_from(up, i + 1));
            assert(spec_checksum_from(up, i + 1)[k] == up[k]);
        }
        assert forall|k: int| i <= k < players.len() && 0 <= k implies #[trigger] spec_checksum_from(
            players,
            i,
        )[k] == spec_checksum_player(players[k]) by {
            assert(spec_checksum_from(players, i) == spec_checksum_from(up, i + 1));
            if k == i {
                assert(spec_checksum_from(up, i + 1)[k] == up[k]);
            } else {
                assert(spec_checksum_from(up, i + 1)[k] == spec_checksum_player(up[k]));
                assert(up[k] == players[k]);
            }
        }
    }
}

/// What the shoot stage does to one firing player.
pub open spec fn spec_shot_player(p: Player) -> Player {
    if spec_fires(p) {
        Player { ammo: (p.ammo - 1) as i32, ready: false, ..p }
    } else {
        p
    }
}

/// The shoot stage acts pointwise on the roster: a firing player spends
/// exactly one ammunition and disarms its gate; every other player is
/// untouched.  This is the per-tick half of ammunition conservation.
pub proof fn lemma_shoot_players_pointwise(
    players: Seq<Player>,
    fbs: Seq<Fireball>,
    next_id: u64,
    events: Seq<AudioEvent>,
    frame: u32,
    i: int,
)
    requires
        0 <= i,
    ensures
        spec_shoot_from(players, fbs, next_id, events, frame, i).0.len() == players.len(),
        forall|k: int|
            0 <= k < i && k < players.len() ==> #[trigger] spec_shoot_from(
                players,
                fbs,
                next_id,
                events,
                frame,
                i,
            ).0[k] == players[k],
        forall|k: int|
            i <= k < players.len() && 0 <= k ==> #[trigger] spec_shoot_from(
                players,
                fbs,
                next_id,
                events,
                frame,
                i,
            ).0[k] == spec_shot_player(players[k]),
    decreases players.len() - i,
{
    if 0 <= i < players.len() {
        let p = players[i];
        let up = if spec_fires(p) {
            players.update(i, Player { ammo: (p.ammo - 1) as i32, ready: false, ..p })
        } else {
            players
        };
        let fbs2 = if spec_fires(p) {
            fbs.push(crate::combat::spec_new_fireball(p, next_id))
        } else {
            fbs
        };
        let id2 = if spec_fires(p) {
            (next_id + 1) as u64
        } else {
            next_id
        };
        let ev2 = if spec_fires(p) {
            events.push(
                AudioEvent {
                    sound: crate::state::SoundKind::FireballShot,
                    frame,
                    sub_key: next_id,
                },
            )
        } else {
            events
        };
        lemma_shoot_players_pointwise(up, fbs2, id2, ev2, frame, i + 1);
        assert(spec_shoot_from(players, fbs, next_id, events, frame, i)
            == spec_shoot_from(up, fbs2, id2, ev2, frame, i + 1));
        assert forall|k: int| 0 <= k < i && k < players.len() implies
            #[trigger] spec_shoot_from(players, fbs, next_id, events, frame, i).0[k]
                == players[k] by {
            assert(spec_shoot_from(up, fbs2, id2, ev2, frame, i + 1).0[k] == up[k]);
        }
        assert forall|k: int| i <= k < players.len() && 0 <= k implies
            #[trigger] spec_shoot_from(players, fbs, next_id, events, frame, i).0[k]
                == spec_shot_player(players[k]) by {
            if k == i {
                assert(spec_shoot_from(up, fbs2, id2, ev2, frame, i + 1).0[k] == up[k]);
            } else {
                assert(spec_shoot_from(up, fbs2, id2, ev2, frame, i + 1).0[k]
                    == spec_shot_player(up[k]));
                assert(up[k] == players[k]);
            }
        }
    }
}

/// With no projectiles in flight, damage resolution changes nothing.
proof fn lemma_damage_empty(players: Seq<Player>, fbs: Seq<Fireball>, i: int)
    requires
        fbs.len() == 0,
        0 <= i,
    ensures
        spec_damage_from(players, fbs, i) == (players, fbs),
    decreases players.len() - i,
{
    if i < players.len() {
        assert(spec_hit_one(players[i], fbs, 0) == (players[i], fbs));
        assert(players.update(i, players[i]) =~= players);
        lemma_damage_empty(players, fbs, i + 1);
    }
}

/// With no hazards on the ground, contact resolution changes nothing.
proof fn lemma_poop_damage_empty(players: Seq<Player>, poops: Seq<PlayerPoop>, i: int)
    requires
        poops.len() == 0,
        0 <= i,
    ensures
        spec_poop_damage_from(players, poops, i) == (players, poops),
    decreases players.len() - i,
{
    if i < players.len() {
        assert(spec_poop_hit_one(players[i], poops, 0) == (players[i], poops));
        assert(players.update(i, players[i]) =~= players);
        lemma_poop_damage_empty(players, poops, i + 1);
    }
}

/// When no player meets the firing conditions, the shoot stage changes
/// nothing.
proof fn lemma_shoot_no_fire(
    players: Seq<Player>,
    fbs: Seq<Fireball>,
    next_id: u64,
    events: Seq<AudioEvent>,
    frame: u32,
    i: int,
)
    requires
        0 <= i,
        forall|k: int| i <= k < players.len() ==> !spec_fires(#[trigger] players[k]),
    ensures
        spec_shoot_from(players, fbs, next_id, events, frame, i) == (players, fbs, next_id, events),
    decreases players.len() - i,
{
    if i < players.len() {
        lemma_shoot_no_fire(players, fbs, next_id, events, frame, i + 1);
    }
}

/// When no player is sprinting with a charge, the hazard placement stage
/// changes nothing.
proof fn lemma_poops_no_sprint(
    players: Seq<Player>,
    poops: Seq<PlayerPoop>,
    next_id: u64,
    events: Seq<AudioEvent>,
    frame: u32,
    i: int,
)
    requires
        0 <= i,
        forall|k: int| i <= k < players.len() ==> !crate::combat::spec_poops(#[trigger] players[k]),
    ensures
        crate::combat::spec_poops_from(players, poops, next_id, events, frame, i) == (
            poops,
            next_id,
            events,
        ),
    decreases players.len() - i,
{
    if i < players.len() {
        lemma_poops_no_sprint(players, poops, next_id, events, frame, i + 1);
    }
}

/// With no pickups on the ground, a consumption stage changes nothing.
proof fn lemma_eat_empty(
    kind: Edible,
    players: Seq<Player>,
    edibles: Seq<EdibleItem>,
    events: Seq<AudioEvent>,
    frame: u32,
    i: int,
)
    requires
        edibles.len() == 0,
        0 <= i,
    ensures
        spec_eat_from(kind, players, edibles, events, frame, i) == (players, edibles, events),
    decreases players.len() - i,
{
    if i < players.len() {
        assert(spec_eat_one(kind, players[i], edibles, events, frame, 0) == (
            players[i],
            edibles,
            events,
        ));
        assert(players.update(i, players[i]) =~= players);
        lemma_eat_empty(kind, players, edibles, events, frame, i + 1);
    }
}

/// A player with the zero direction does not move at all: both axis steps
/// are zero, and a zero step leaves a well-placed position where it is,
/// whether or not a wall is adjacent.
pub proof fn lemma_move_zero_dir(p: Player, walls: Seq<Pos>)
    requires
        p.controls.dir.x == 0,
        p.controls.dir.y == 0,
        p.pos.in_bounds(),
    ensures
        spec_move_player(p, walls) == p,
{
    assert(spec_scaled(0, p.speed as int, crate::input::DIR_UNIT as int) == 0) by {
        vstd::arithmetic::div_mod::lemma_div_of0(crate::input::DIR_UNIT as int);
        assert(0 * (p.speed as int) == 0) by (nonlinear_arith);
    }
}

/// Checksum stability under no-op ticks: on a tick where nothing happens —
/// every input resolves to the neutral mask (a zero mask, or any mask of a
/// disconnected player), no projectile, hazard or pickup is live, and no
/// spawn timer completes — no player moves, no damage occurs and nothing
/// is consumed, so every player's recomputed fingerprint equals the one
/// the previous tick stored.
pub proof fn lemma_noop_tick_checksum_stable(
    s: GameState,
    map: MapConfig,
    inputs: Seq<(PlayerInput, InputStatus)>,
    d_straw: usize,
    d_chili: usize,
    d_let: usize,
)
    requires
        s.wf(),
        inputs.len() == s.players@.len(),
        forall|k: int|
            0 <= k < inputs.len() ==> crate::input::spec_resolved_mask(
                (#[trigger] inputs[k]).0,
                inputs[k].1,
            ) == 0,
        s.fireballs@.len() == 0,
        s.poops@.len() == 0,
        s.edibles@.len() == 0,
        !s.timers.chili_pepper_timer.spec_fires(),
        !s.timers.strawberry_timer.spec_fires(),
        !s.timers.lettuce_timer.spec_fires(),
    ensures
        spec_tick(s, map, inputs, d_straw, d_chili, d_let).players.len() == s.players@.len(),
        forall|k: int|
            0 <= k < s.players@.len() ==> ({
                let q = #[trigger] spec_tick(s, map, inputs, d_straw, d_chili, d_let).players[k];
                q.pos == s.players@[k].pos && q.health == s.players@[k].health && q.ammo
                    == s.players@[k].ammo && q.boost == s.players@[k].boost
            }),
        forall|k: int|
            0 <= k < s.players@.len() ==> (#[trigger] spec_tick(
                s,
                map,
                inputs,
                d_straw,
                d_chili,
                d_let,
            ).players[k]).checksum == spec_player_checksum(s.players@[k]),
        s.checksums_current() ==> forall|k: int|
            0 <= k < s.players@.len() ==> (#[trigger] spec_tick(
                s,
                map,
                inputs,
                d_straw,
                d_chili,
                d_let,
            ).players[k]).checksum == s.players@[k].checksum,
{
    let frame1 = (s.frame + 1) as u32;
    let p0 = s.players@;
    let p1 = spec_apply_inputs_from(p0, inputs, 0);
    lemma_apply_inputs_pointwise(p0, inputs, 0);
    let p2 = spec_sprint_from(p1, 0);
    lemma_sprint_pointwise(p1, 0);
    let p3 = spec_move_from(p2, map.walls@, 0);
    lemma_move_pointwise(p2, map.walls@, 0);
    let p4 = spec_reload_from(p3, 0);
    lemma_reload_pointwise(p3, 0);
    assert forall|k: int| 0 <= k < p0.len() implies (#[trigger] p4[k]).pos == p0[k].pos
        && p4[k].health == p0[k].health && p4[k].ammo == p0[k].ammo && p4[k].boost
        == p0[k].boost && !p4[k].controls.shooting && !p4[k].controls.sprinting
        && !spec_fires(p4[k]) && !crate::combat::spec_poops(p4[k]) by {
        assert(p1[k] == spec_player_after_input(p0[k], inputs[k]));
        assert(p1[k].controls == crate::input::spec_controls_update(p0[k].controls, 0));
        assert(0u8 & 0x01u8 == 0u8 && 0u8 & 0x02u8 == 0u8 && 0u8 & 0x04u8 == 0u8 && 0u8
            & 0x08u8 == 0u8 && 0u8 & 0x10u8 == 0u8 && 0u8 & 0x40u8 == 0u8) by (bit_vector);
        assert(spec_dir_from_mask(0).x == 0 && spec_dir_from_mask(0).y == 0);
        assert(!p1[k].controls.shooting && !p1[k].controls.sprinting);
        assert(p2[k] == spec_sprint_player(p1[k]));
        assert(s.players@[k].wf());
        lemma_move_zero_dir(p2[k], map.walls@);
        assert(p3[k] == spec_move_player(p2[k], map.walls@));
        assert(p3[k] == p2[k]);
        assert(p4[k] == spec_reload_player(p3[k]));
    }
    let shot = spec_shoot_from(p4, s.fireballs@, s.next_id, Seq::empty(), frame1, 0);
    lemma_shoot_no_fire(p4, s.fireballs@, s.next_id, Seq::empty(), frame1, 0);
    assert(shot.0 == p4 && shot.1 == s.fireballs@ && shot.2 == s.next_id);
    let f1 = crate::combat::spec_move_fireballs_from(shot.1, 0);
    let f2 = crate::combat::spec_tick_fireballs_from(f1, 0);
    let f3 = crate::combat::spec_expire_fireballs_from(f2, 0);
    assert(f1 == shot.1 && f2 == f1 && f3 == f2);
    let dmg = spec_damage_from(shot.0, f3, 0);
    lemma_damage_empty(shot.0, f3, 0);
    assert(dmg.0 == p4);
    let pooped = crate::combat::spec_poops_from(dmg.0, s.poops@, shot.2, shot.3, frame1, 0);
    lemma_poops_no_sprint(dmg.0, s.poops@, shot.2, shot.3, frame1, 0);
    assert(pooped.0 == s.poops@);
    let pdmg = spec_poop_damage_from(dmg.0, pooped.0, 0);
    lemma_poop_damage_empty(dmg.0, pooped.0, 0);
    assert(pdmg.0 == p4);
    let p5 = spec_kill_from(pdmg.0, 0);
    lemma_kill_pointwise(pdmg.0, 0);
    let ed3 = s.edibles@;
    let ate1 = spec_eat_from(Edible::ChiliPepper, p5, ed3, pooped.2, frame1, 0);
    lemma_eat_empty(Edible::ChiliPepper, p5, ed3, pooped.2, frame1, 0);
    let ate2 = spec_eat_from(Edible::Strawberry, ate1.0, ate1.1, ate1.2, frame1, 0);
    lemma_eat_empty(Edible::Strawberry, ate1.0, ate1.1, ate1.2, frame1, 0);
    let ate3 = spec_eat_from(Edible::Lettuce, ate2.0, ate2.1, ate2.2, frame1, 0);
    lemma_eat_empty(Edible::Lettuce, ate2.0, ate2.1, ate2.2, frame1, 0);
    assert(ate3.0 == p5);
    let p6 = spec_checksum_from(ate3.0, 0);
    lemma_checksum_pointwise(ate3.0, 0);
    assert(spec_tick(s, map, inputs, d_straw, d_chili, d_let).players == p6);
    assert forall|k: int| 0 <= k < p0.len() implies ({
        let q = #[trigger] p6[k];
        q.pos == p0[k].pos && q.health == p0[k].health && q.ammo == p0[k].ammo && q.boost
            == p0[k].boost && q.checksum == spec_player_checksum(p0[k])
    }) by {
        assert(ate3.0[k] == p5[k]);
        assert(p5[k] == spec_kill_player(p4[k]));
        assert(p5[k].pos == p0[k].pos && p5[k].health == p0[k].health && p5[k].ammo
            == p0[k].ammo && p5[k].boost == p0[k].boost);
        assert(p6[k] == spec_checksum_player(ate3.0[k]));
        assert(spec_player_bytes(ate3.0[k]) == spec_player_bytes(p0[k]));
        crate::checksum::lemma_player_checksum_bounds(p0[k]);
        assert(spec_player_checksum(ate3.0[k]) == spec_player_checksum(p0[k]));
    }
}

/// Ammunition accounting of the readiness gate, over any run of ticks: a
/// player holding or releasing fire each tick, starting with `N` rounds
/// and picking none up, fires at most `N` shots; its ammunition is exactly
/// `N` minus the shots fired, and never drops below zero.
pub open spec fn spec_fire_run(p: Player, intents: Seq<bool>) -> (Player, int)
    decreases intents.len(),
{
    if intents.len() == 0 {
        (p, 0)
    } else {
        let q0 = Player {
            controls: PlayerControls { shooting: intents[0], ..p.controls },
            ..p
        };
        let q1 = spec_reload_player(q0);
        let q2 = spec_shot_player(q1);
        let rest = spec_fire_run(q2, intents.drop_first());
        (rest.0, rest.1 + (if spec_fires(q1) { 1int } else { 0int }))
    }
}

/// Ammunition conservation: over any sequence of per-tick fire intents,
/// with no pickups, the shots fired never exceed the starting ammunition,
/// and the remaining ammunition is exactly the start minus the shots, so
/// it can never go negative.
pub proof fn lemma_ammo_conservation(p: Player, intents: Seq<bool>)
    requires
        p.ammo >= 0,
    ensures
        ({
            let r = spec_fire_run(p, intents);
            &&& r.0.ammo == p.ammo - r.1
            &&& 0 <= r.1 <= p.ammo
        }),
    decreases intents.len(),
{
    if intents.len() > 0 {
        let q0 = Player {
            controls: PlayerControls { shooting: intents[0], ..p.controls },
            ..p
        };
        let q1 = spec_reload_player(q0);
        let q2 = spec_shot_player(q1);
        lemma_ammo_conservation(q2, intents.drop_first());
    }
}

/// Win detection, positive direction: if exactly one player is still
/// active, the detector names that player's handle.
pub proof fn lemma_solo_survivor_counts(players: Seq<Player>, h: int, i: int)
    requires
        0 <= h < players.len(),
        players[h].active,
        forall|k: int| 0 <= k < players.len() && k != h ==> !(#[trigger] players[k]).active,
        0 <= i <= players.len(),
    ensures
        spec_active_count_from(players, i) == (if i <= h {
            1int
        } else {
            0int
        }),
        spec_first_active_from(players, i) == (if i <= h {
            h
        } else {
            -1
        }),
    decreases players.len() - i,
{
    if i < players.len() {
        lemma_solo_survivor_counts(players, h, i + 1);
    }
}

/// Win detection: a roster whose only active player sits at handle `h`
/// yields the win record naming `h` — on the tick the roster first looks
/// like that, and not before.
pub proof fn lemma_win_detection(players: Seq<Player>, h: int)
    requires
        0 <= h < players.len(),
        players[h].active,
        players[h].handle == h,
        forall|k: int| 0 <= k < players.len() && k != h ==> !(#[trigger] players[k]).active,
    ensures
        spec_win_state(players) == Some(RoundOutcome::Winner(h as usize)),
{
    lemma_solo_survivor_counts(players, h, 0);
}

proof fn lemma_count_nonneg(players: Seq<Player>, i: int)
    ensures
        spec_active_count_from(players, i) >= 0,
    decreases players.len() - i,
{
    if 0 <= i < players.len() {
        lemma_count_nonneg(players, i + 1);
    }
}

proof fn lemma_count_at_least_one(players: Seq<Player>, i: int, a: int)
    requires
        0 <= i <= a < players.len(),
        players[a].active,
    ensures
        spec_active_count_from(players, i) >= 1,
    decreases players.len() - i,
{
    if i < a {
        lemma_count_at_least_one(players, i + 1, a);
        lemma_count_nonneg(players, i);
    } else {
        lemma_count_nonneg(players, i + 1);
    }
}

proof fn lemma_count_at_least_two(players: Seq<Player>, i: int, a: int, b: int)
    requires
        0 <= i <= a < b < players.len(),
        players[a].active,
        players[b].active,
    ensures
        spec_active_count_from(players, i) >= 2,
    decreases players.len() - i,
{
    if i < a {
        lemma_count_at_least_two(players, i + 1, a, b);
    } else {
        lemma_count_at_least_one(players, i + 1, b);
    }
}

/// Win detection, negative direction: while two or more players are still
/// active, the detector reports nothing — the round cannot end early.
pub proof fn lemma_no_early_win(players: Seq<Player>, a: int, b: int)
    requires
        0 <= a < b < players.len(),
        players[a].active,
        players[b].active,
    ensures
        spec_win_state(players) == None::<RoundOutcome>,
{
    lemma_count_at_least_two(players, 0, a, b);
}

} // verus!
