//! Sprint resolution and player movement against the static colliders.
//!
//! Both stages walk the roster in ascending handle order and are pure per
//! player.  Movement is axis-separated: the vertical displacement is applied
//! first and rejected if the target overlaps any wall, then the horizontal
//! displacement from the possibly-moved position.  That fixed order is part
//! of the determinism contract, because the two axis passes do not commute
//! when both would collide.

use crate::input::DIR_UNIT;
use crate::map::{blocked_by_wall, clamp_coord, scaled, spec_blocked, spec_clamp_coord,
    spec_scaled, Pos};
use crate::state::{Player, PLAYER_SPEED_BOOST, PLAYER_SPEED_MAX, PLAYER_SPEED_START};
use vstd::prelude::*;

verus! {

/// One player after the sprint stage: an active player holding sprint with a
/// charge left and speed at most the sprint gate gains one boost and spends
/// one charge; otherwise speed decays by one toward the starting speed.
pub open spec fn spec_sprint_player(p: Player) -> Player {
    if !p.active {
        p
    } else if p.controls.sprinting && p.boost > 0 && p.speed <= PLAYER_SPEED_MAX {
        Player { speed: (p.speed + PLAYER_SPEED_BOOST) as i32, boost: (p.boost - 1) as i32, ..p }
    } else if p.speed > PLAYER_SPEED_START {
        Player { speed: (p.speed - 1) as i32, ..p }
    } else {
        p
    }
}

pub open spec fn spec_sprint_from(players: Seq<Player>, i: int) -> Seq<Player>
    decreases players.len() - i,
{
    if i < 0 || i >= players.len() {
        players
    } else {
        spec_sprint_from(players.update(i, spec_sprint_player(players[i])), i + 1)
    }
}

/// The sprint stage: updates speed and sprint charges for every player in
/// ascending handle order.
pub fn apply_player_sprint(players: &mut Vec<Player>)
    requires
        forall|k: int| 0 <= k < old(players)@.len() ==> (#[trigger] old(players)@[k]).wf(),
    ensures
        final(players)@ == spec_sprint_from(old(players)@, 0),
        final(players)@.len() == old(players)@.len(),
        forall|k: int| 0 <= k < final(players)@.len() ==> (#[trigger] final(players)@[k]).wf(),
        forall|k: int|
            0 <= k < final(players)@.len() ==> (#[trigger] final(players)@[k]).handle
                == old(players)@[k].handle,
{
    let n = players.len();
    let mut i: usize = 0;
    while i < n
        invariant
            i <= n,
            players@.len() == n,
            spec_sprint_from(players@, i as int) == spec_sprint_from(old(players)@, 0),
            forall|k: int| 0 <= k < n ==> (#[trigger] players@[k]).wf(),
            forall|k: int|
                0 <= k < n ==> (#[trigger] players@[k]).handle == old(players)@[k].handle,
            forall|k: int| i <= k < n ==> players@[k] == old(players)@[k],
        decreases n - i,
    {
        let p = players[i];
        let ghost pre = players@;
        if p.active {
            if p.controls.sprinting && p.boost > 0 && p.speed <= PLAYER_SPEED_MAX {
                players.set(
                    i,
                    Player { speed: p.speed + PLAYER_SPEED_BOOST, boost: p.boost - 1, ..p },
                );
            } else if p.speed > PLAYER_SPEED_START {
                players.set(i, Player { speed: p.speed - 1, ..p });
            }
        }
        proof {
            assert(players@ =~= pre.update(i as int, spec_sprint_player(pre[i as int])));
        }
        i = i + 1;
    }
}

/// One player's position and facing after the movement stage.  The vertical
/// step is tried first against every collider, then the horizontal step from
/// the result; a blocked step is rejected whole.  Facing tracks the sign of
/// an applied horizontal step and is a rendering concern only.
pub open spec fn spec_move_player(p: Player, walls: Seq<Pos>) -> Player {
    if !p.active {
        p
    } else {
        let dy = spec_scaled(p.controls.dir.y as int, p.speed as int, DIR_UNIT as int);
        let ty = Pos { x: p.pos.x, y: spec_clamp_coord(p.pos.y + dy) };
        let pos1 = if spec_blocked(ty, walls) {
            p.pos
        } else {
            ty
        };
        let dx = spec_scaled(p.controls.dir.x as int, p.speed as int, DIR_UNIT as int);
        let tx = Pos { x: spec_clamp_coord(pos1.x + dx), y: pos1.y };
        if spec_blocked(tx, walls) {
            Player { pos: pos1, ..p }
        } else {
            Player {
                pos: tx,
                facing_left: if dx != 0 {
                    dx < 0
                } else {
                    p.facing_left
                },
                ..p
            }
        }
    }
}

pub open spec fn spec_move_from(players: Seq<Player>, walls: Seq<Pos>, i: int) -> Seq<Player>
    decreases players.len() - i,
{
    if i < 0 || i >= players.len() {
        players
    } else {
        spec_move_from(players.update(i, spec_move_player(players[i], walls)), walls, i + 1)
    }
}

/// The movement stage: displaces every active player by
/// `direction * speed / tick rate`, axis-separated against the colliders,
/// in ascending handle order.
pub fn move_players(players: &mut Vec<Player>, walls: &Vec<Pos>)
    requires
        forall|k: int| 0 <= k < old(players)@.len() ==> (#[trigger] old(players)@[k]).wf(),
        forall|k: int| 0 <= k < walls@.len() ==> (#[trigger] walls@[k]).in_bounds(),
    ensures
        final(players)@ == spec_move_from(old(players)@, walls@, 0),
        final(players)@.len() == old(players)@.len(),
        forall|k: int| 0 <= k < final(players)@.len() ==> (#[trigger] final(players)@[k]).wf(),
        forall|k: int|
            0 <= k < final(players)@.len() ==> (#[trigger] final(players)@[k]).handle
                == old(players)@[k].handle,
{
    let n = players.len();
    let mut i: usize = 0;
    while i < n
        invariant
            i <= n,
            players@.len() == n,
            spec_move_from(players@, walls@, i as int) == spec_move_from(old(players)@, walls@, 0),
            forall|k: int| 0 <= k < n ==> (#[trigger] players@[k]).wf(),
            forall|k: int|
                0 <= k < n ==> (#[trigger] players@[k]).handle == old(players)@[k].handle,
            forall|k: int| i <= k < n ==> players@[k] == old(players)@[k],
        decreases n - i,
    {
        let p = players[i];
        let ghost pre = players@;
        if p.active {
            let dy = scaled(p.controls.dir.y, p.speed as i64, DIR_UNIT as i64);
            let ty = Pos { x: p.pos.x, y: clamp_coord(p.pos.y + dy) };
            let pos1 = if blocked_by_wall(ty, walls) {
                p.pos
            } else {
                ty
            };
            let dx = scaled(p.controls.dir.x, p.speed as i64, DIR_UNIT as i64);
            let tx = Pos { x: clamp_coord(pos1.x + dx), y: pos1.y };
            if blocked_by_wall(tx, walls) {
                players.set(i, Player { pos: pos1, ..p });
            } else {
                let facing = if dx != 0 {
                    dx < 0
                } else {
                    p.facing_left
                };
                players.set(i, Player { pos: tx, facing_left: facing, ..p });
            }
        }
        proof {
            assert(players@ =~= pre.update(i as int, spec_move_player(pre[i as int], walls@)));
        }
        i = i + 1;
    }
}

} // verus!
