//! Combat: projectile lifecycle, hazards, damage and death resolution.
//!
//! Shooting is edge-triggered: the readiness gate arms only while the fire
//! intent is released (and ammo is left) and is cleared on spawn, so a held
//! button cannot fire continuously.  Projectiles advance, age and expire in
//! ascending spawn order; damage resolution walks active players in
//! ascending handle order against live projectiles in ascending spawn
//! order, and a projectile is marked removed by the first hit it deals, so
//! it damages at most one player.  A projectile never damages its own
//! shooter, a hazard never damages its own creator, and a player whose
//! health reaches zero is marked inactive once and stays present for win
//! detection.

use crate::input::DIR_UNIT;
use crate::map::{clamp_coord, circle_hit, scaled, spec_circle_hit, spec_clamp_coord, spec_scaled,
    Pos};
use crate::state::{
    AudioEvent, EdibleItem, Fireball, GameTimer, Player, PlayerPoop, SoundKind, FIREBALL_DAMAGE,
    FIREBALL_HIT_DIST, FIREBALL_LIFETIME_MS, FIREBALL_RADIUS, FIREBALL_SPAWN_OFFSET, POOP_DAMAGE,
    POOP_HIT_DIST, POOP_LIFETIME_MS, POOP_SIZE,
};
use vstd::prelude::*;

verus! {

/// Health after taking `dmg` points, guarded against underflow at the
/// decrement site.
pub open spec fn spec_damaged(health: i32, dmg: i32) -> i32 {
    if health - dmg < i32::MIN {
        i32::MIN
    } else {
        (health - dmg) as i32
    }
}

/// One player after the reload stage: the readiness gate arms exactly when
/// the fire intent is released while ammo is left.
pub open spec fn spec_reload_player(p: Player) -> Player {
    if !p.controls.shooting && p.ammo > 0 && !p.ready {
        Player { ready: true, ..p }
    } else {
        p
    }
}

pub open spec fn spec_reload_from(players: Seq<Player>, i: int) -> Seq<Player>
    decreases players.len() - i,
{
    if i < 0 || i >= players.len() {
        players
    } else {
        spec_reload_from(players.update(i, spec_reload_player(players[i])), i + 1)
    }
}

/// The reload stage: arms the edge-triggered readiness gate, in ascending
/// handle order.
pub fn reload_fireballs(players: &mut Vec<Player>)
    ensures
        final(players)@ == spec_reload_from(old(players)@, 0),
        final(players)@.len() == old(players)@.len(),
        forall|k: int|
            0 <= k < final(players)@.len() ==> old(players)@[k].wf() ==> (
            #[trigger] final(players)@[k]).wf(),
        forall|k: int|
            0 <= k < final(players)@.len() ==> (#[trigger] final(players)@[k]).handle
                == old(players)@[k].handle,
{
    let n = players.len();
    let mut i: usize = 0;
    while i < n
        invariant
            i <= n,
            players@.len() == n,
            spec_reload_from(players@, i as int) == spec_reload_from(old(players)@, 0),
            forall|k: int|
                0 <= k < n ==> old(players)@[k].wf() ==> (#[trigger] players@[k]).wf(),
            forall|k: int|
                0 <= k < n ==> (#[trigger] players@[k]).handle == old(players)@[k].handle,
            forall|k: int| i <= k < n ==> players@[k] == old(players)@[k],
        decreases n - i,
    {
        let p = players[i];
        let ghost pre = players@;
        if !p.controls.shooting && p.ammo > 0 && !p.ready {
            players.set(i, Player { ready: true, ..p });
        }
        proof {
            assert(players@ =~= pre.update(i as int, spec_reload_player(pre[i as int])));
        }
        i = i + 1;
    }
}

/// The projectile a player spawns: positioned one and a half tiles plus the
/// projectile radius ahead along the last nonzero aim direction, carrying
/// the shooter's handle, aim, and a snapshot of its current speed.
pub open spec fn spec_new_fireball(p: Player, id: u64) -> Fireball {
    Fireball {
        id,
        shot_by: p.handle,
        dir: p.controls.last_dir,
        speed: p.speed,
        pos: Pos {
            x: spec_clamp_coord(
                p.pos.x + spec_scaled(
                    p.controls.last_dir.x as int,
                    FIREBALL_SPAWN_OFFSET as int,
                    DIR_UNIT as int,
                ) + FIREBALL_RADIUS,
            ),
            y: spec_clamp_coord(
                p.pos.y + spec_scaled(
                    p.controls.last_dir.y as int,
                    FIREBALL_SPAWN_OFFSET as int,
                    DIR_UNIT as int,
                ) + FIREBALL_RADIUS,
            ),
        },
        lifetime: GameTimer {
            elapsed_ms: 0u32,
            duration_ms: FIREBALL_LIFETIME_MS,
            repeating: false,
        },
        expired: false,
    }
}

/// Whether a player fires this tick: it must be alive, holding the fire
/// intent, armed, and have ammunition left.
pub open spec fn spec_fires(p: Player) -> bool {
    p.active && p.controls.shooting && p.ready && p.ammo > 0
}

/// The shoot stage from handle `i` up: each firing player appends one
/// projectile, issues one sound cue keyed by the projectile's spawn id,
/// spends one ammunition and disarms its gate.
pub open spec fn spec_shoot_from(
    players: Seq<Player>,
    fbs: Seq<Fireball>,
    next_id: u64,
    events: Seq<AudioEvent>,
    frame: u32,
    i: int,
) -> (Seq<Player>, Seq<Fireball>, u64, Seq<AudioEvent>)
    decreases players.len() - i,
{
    if i < 0 || i >= players.len() {
        (players, fbs, next_id, events)
    } else {
        let p = players[i];
        if spec_fires(p) {
            spec_shoot_from(
                players.update(i, Player { ammo: (p.ammo - 1) as i32, ready: false, ..p }),
                fbs.push(spec_new_fireball(p, next_id)),
                (next_id + 1) as u64,
                events.push(
                    AudioEvent { sound: SoundKind::FireballShot, frame, sub_key: next_id },
                ),
                frame,
                i + 1,
            )
        } else {
            spec_shoot_from(players, fbs, next_id, events, frame, i + 1)
        }
    }
}

/// The shoot stage: spawns projectiles for every firing player in ascending
/// handle order.
pub fn shoot_fireballs(
    players: &mut Vec<Player>,
    fireballs: &mut Vec<Fireball>,
    next_id: &mut u64,
    events: &mut Vec<AudioEvent>,
    frame: u32,
)
    requires
        forall|k: int| 0 <= k < old(players)@.len() ==> (#[trigger] old(players)@[k]).wf(),
        forall|k: int| 0 <= k < old(fireballs)@.len() ==> (#[trigger] old(fireballs)@[k]).wf(),
        forall|k: int|
            0 <= k < old(fireballs)@.len() ==> (#[trigger] old(fireballs)@[k]).id < *old(next_id),
        *old(next_id) + old(players)@.len() <= u64::MAX,
    ensures
        (final(players)@, final(fireballs)@, *final(next_id), final(events)@) == spec_shoot_from(
            old(players)@,
            old(fireballs)@,
            *old(next_id),
            old(events)@,
            frame,
            0,
        ),
        final(players)@.len() == old(players)@.len(),
        forall|k: int| 0 <= k < final(players)@.len() ==> (#[trigger] final(players)@[k]).wf(),
        forall|k: int|
            0 <= k < final(players)@.len() ==> (#[trigger] final(players)@[k]).handle
                == old(players)@[k].handle,
        forall|k: int| 0 <= k < final(fireballs)@.len() ==> (#[trigger] final(fireballs)@[k]).wf(),
        forall|k: int|
            0 <= k < final(fireballs)@.len()
                ==> (#[trigger] final(fireballs)@[k]).id < *final(next_id),
        *old(next_id) <= *final(next_id) <= *old(next_id) + old(players)@.len(),
{
    let n = players.len();
    let mut i: usize = 0;
    while i < n
        invariant
            i <= n,
            players@.len() == n,
            spec_shoot_from(players@, fireballs@, *next_id, events@, frame, i as int)
                == spec_shoot_from(
                old(players)@,
                old(fireballs)@,
                *old(next_id),
                old(events)@,
                frame,
                0,
            ),
            forall|k: int| 0 <= k < n ==> (#[trigger] players@[k]).wf(),
            forall|k: int|
                0 <= k < n ==> (#[trigger] players@[k]).handle == old(players)@[k].handle,
            forall|k: int| i <= k < n ==> players@[k] == old(players)@[k],
            forall|k: int| 0 <= k < fireballs@.len() ==> (#[trigger] fireballs@[k]).wf(),
            forall|k: int| 0 <= k < fireballs@.len() ==> (#[trigger] fireballs@[k]).id < *next_id,
            *old(next_id) <= *next_id <= *old(next_id) + i,
        decreases n - i,
    {
        let p = players[i];
        let ghost pre_players = players@;
        let ghost pre_fbs = fireballs@;
        let ghost pre_id = *next_id;
        let ghost pre_events = events@;
        if p.active && p.controls.shooting && p.ready && p.ammo > 0 {
            let ox = scaled(p.controls.last_dir.x, FIREBALL_SPAWN_OFFSET, DIR_UNIT as i64);
            let oy = scaled(p.controls.last_dir.y, FIREBALL_SPAWN_OFFSET, DIR_UNIT as i64);
            let fb = Fireball {
                id: *next_id,
                shot_by: p.handle,
                dir: p.controls.last_dir,
                speed: p.speed,
                pos: Pos {
                    x: clamp_coord(p.pos.x + ox + FIREBALL_RADIUS),
                    y: clamp_coord(p.pos.y + oy + FIREBALL_RADIUS),
                },
                lifetime: GameTimer::one_shot(FIREBALL_LIFETIME_MS),
                expired: false,
            };
            fireballs.push(fb);
            events.push(AudioEvent { sound: SoundKind::FireballShot, frame, sub_key: *next_id });
            players.set(i, Player { ammo: p.ammo - 1, ready: false, ..p });
            *next_id = *next_id + 1;
            proof {
                assert(players@ =~= pre_players.update(
                    i as int,
                    Player { ammo: (p.ammo - 1) as i32, ready: false, ..p },
                ));
                assert(fireballs@ =~= pre_fbs.push(spec_new_fireball(p, pre_id)));
                assert(events@ =~= pre_events.push(
                    AudioEvent { sound: SoundKind::FireballShot, frame, sub_key: pre_id },
                ));
            }
        }
        i = i + 1;
    }
}

/// One projectile after advancing: displaced along its stored aim by its
/// snapshot speed times the fixed per-tick factor.
pub open spec fn spec_move_fireball(f: Fireball) -> Fireball {
    Fireball {
        pos: Pos {
            x: spec_clamp_coord(
                f.pos.x + spec_scaled(f.dir.x as int, 3 * f.speed as int, DIR_UNIT as int),
            ),
            y: spec_clamp_coord(
                f.pos.y + spec_scaled(f.dir.y as int, 3 * f.speed as int, DIR_UNIT as int),
            ),
        },
        ..f
    }
}

pub open spec fn spec_move_fireballs_from(fbs: Seq<Fireball>, i: int) -> Seq<Fireball>
    decreases fbs.len() - i,
{
    if i < 0 || i >= fbs.len() {
        fbs
    } else {
        spec_move_fireballs_from(fbs.update(i, spec_move_fireball(fbs[i])), i + 1)
    }
}

/// Advances every live projectile, in ascending spawn order.
pub fn move_fireballs(fireballs: &mut Vec<Fireball>)
    requires
        forall|k: int| 0 <= k < old(fireballs)@.len() ==> (#[trigger] old(fireballs)@[k]).wf(),
    ensures
        final(fireballs)@ == spec_move_fireballs_from(old(fireballs)@, 0),
        final(fireballs)@.len() == old(fireballs)@.len(),
        forall|k: int| 0 <= k < final(fireballs)@.len() ==> (#[trigger] final(fireballs)@[k]).wf(),
        forall|k: int|
            0 <= k < final(fireballs)@.len() ==> (#[trigger] final(fireballs)@[k]).id
                == old(fireballs)@[k].id,
{
    let n = fireballs.len();
    let mut i: usize = 0;
    while i < n
        invariant
            i <= n,
            fireballs@.len() == n,
            spec_move_fireballs_from(fireballs@, i as int)
                == spec_move_fireballs_from(old(fireballs)@, 0),
            forall|k: int| 0 <= k < n ==> (#[trigger] fireballs@[k]).wf(),
            forall|k: int|
                0 <= k < n ==> (#[trigger] fireballs@[k]).id == old(fireballs)@[k].id,
            forall|k: int| i <= k < n ==> fireballs@[k] == old(fireballs)@[k],
        decreases n - i,
    {
        let f = fireballs[i];
        let ghost pre = fireballs@;
        let dx = scaled(f.dir.x, 3 * (f.speed as i64), DIR_UNIT as i64);
        let dy = scaled(f.dir.y, 3 * (f.speed as i64), DIR_UNIT as i64);
        let pos = Pos { x: clamp_coord(f.pos.x + dx), y: clamp_coord(f.pos.y + dy) };
        fireballs.set(i, Fireball { pos, ..f });
        proof {
            assert(fireballs@ =~= pre.update(i as int, spec_move_fireball(pre[i as int])));
        }
        i = i + 1;
    }
}

pub open spec fn spec_tick_fireballs_from(fbs: Seq<Fireball>, i: int) -> Seq<Fireball>
    decreases fbs.len() - i,
{
    if i < 0 || i >= fbs.len() {
        fbs
    } else {
        spec_tick_fireballs_from(
            fbs.update(i, Fireball { lifetime: fbs[i].lifetime.spec_tick(), ..fbs[i] }),
            i + 1,
        )
    }
}

/// Ages every projectile's lifetime timer by one tick, in ascending spawn
/// order.
pub fn tick_fireball_timers(fireballs: &mut Vec<Fireball>)
    requires
        forall|k: int| 0 <= k < old(fireballs)@.len() ==> (#[trigger] old(fireballs)@[k]).wf(),
    ensures
        final(fireballs)@ == spec_tick_fireballs_from(old(fireballs)@, 0),
        final(fireballs)@.len() == old(fireballs)@.len(),
        forall|k: int| 0 <= k < final(fireballs)@.len() ==> (#[trigger] final(fireballs)@[k]).wf(),
        forall|k: int|
            0 <= k < final(fireballs)@.len() ==> (#[trigger] final(fireballs)@[k]).id
                == old(fireballs)@[k].id,
{
    let n = fireballs.len();
    let mut i: usize = 0;
    while i < n
        invariant
            i <= n,
            fireballs@.len() == n,
            spec_tick_fireballs_from(fireballs@, i as int)
                == spec_tick_fireballs_from(old(fireballs)@, 0),
            forall|k: int| 0 <= k < n ==> (#[trigger] fireballs@[k]).wf(),
            forall|k: int|
                0 <= k < n ==> (#[trigger] fireballs@[k]).id == old(fireballs)@[k].id,
            forall|k: int| i <= k < n ==> fireballs@[k] == old(fireballs)@[k],
        decreases n - i,
    {
        let f = fireballs[i];
        let ghost pre = fireballs@;
        let mut t = f.lifetime;
        t.tick();
        fireballs.set(i, Fireball { lifetime: t, ..f });
        proof {
            assert(fireballs@ =~= pre.update(
                i as int,
                Fireball { lifetime: pre[i as int].lifetime.spec_tick(), ..pre[i as int] },
            ));
        }
        i = i + 1;
    }
}

pub open spec fn spec_expire_fireballs_from(fbs: Seq<Fireball>, i: int) -> Seq<Fireball>
    decreases fbs.len() - i,
{
    if i < 0 || i >= fbs.len() {
        fbs
    } else {
        let f = fbs[i];
        let f2 = if f.lifetime.spec_finished() {
            Fireball { expired: true, ..f }
        } else {
            f
        };
        spec_expire_fireballs_from(fbs.update(i, f2), i + 1)
    }
}

/// Marks projectiles whose lifetime has run out for removal, in ascending
/// spawn order.
pub fn despawn_old_fireballs(fireballs: &mut Vec<Fireball>)
    requires
        forall|k: int| 0 <= k < old(fireballs)@.len() ==> (#[trigger] old(fireballs)@[k]).wf(),
    ensures
        final(fireballs)@ == spec_expire_fireballs_from(old(fireballs)@, 0),
        final(fireballs)@.len() == old(fireballs)@.len(),
        forall|k: int| 0 <= k < final(fireballs)@.len() ==> (#[trigger] final(fireballs)@[k]).wf(),
        forall|k: int|
            0 <= k < final(fireballs)@.len() ==> (#[trigger] final(fireballs)@[k]).id
                == old(fireballs)@[k].id,
{
    let n = fireballs.len();
    let mut i: usize = 0;
    while i < n
        invariant
            i <= n,
            fireballs@.len() == n,
            spec_expire_fireballs_from(fireballs@, i as int)
                == spec_expire_fireballs_from(old(fireballs)@, 0),
            forall|k: int| 0 <= k < n ==> (#[trigger] fireballs@[k]).wf(),
            forall|k: int|
                0 <= k < n ==> (#[trigger] fireballs@[k]).id == old(fireballs)@[k].id,
            forall|k: int| i <= k < n ==> fireballs@[k] == old(fireballs)@[k],
        decreases n - i,
    {
        let f = fireballs[i];
        let ghost pre = fireballs@;
        if f.lifetime.elapsed_ms >= f.lifetime.duration_ms {
            fireballs.set(i, Fireball { expired: true, ..f });
        }
        proof {
            assert(fireballs@ =~= pre.update(
                i as int,
                if pre[i as int].lifetime.spec_finished() {
                    Fireball { expired: true, ..pre[i as int] }
                } else {
                    pre[i as int]
                },
            ));
        }
        i = i + 1;
    }
}

/// One player resolved against the projectiles from index `j` up: every
/// live, non-own projectile within the hit radius deals its fixed damage
/// once and is marked removed.
pub open spec fn spec_hit_one(p: Player, fbs: Seq<Fireball>, j: int) -> (Player, Seq<Fireball>)
    decreases fbs.len() - j,
{
    if j < 0 || j >= fbs.len() {
        (p, fbs)
    } else {
        let fb = fbs[j];
        if p.active && !fb.expired && fb.shot_by != p.handle && spec_circle_hit(
            p.pos,
            fb.pos,
            FIREBALL_HIT_DIST,
        ) {
            spec_hit_one(
                Player { health: spec_damaged(p.health, FIREBALL_DAMAGE), ..p },
                fbs.update(j, Fireball { expired: true, ..fb }),
                j + 1,
            )
        } else {
            spec_hit_one(p, fbs, j + 1)
        }
    }
}

/// The damage stage from handle `i` up.
pub open spec fn spec_damage_from(players: Seq<Player>, fbs: Seq<Fireball>, i: int) -> (
    Seq<Player>,
    Seq<Fireball>,
)
    decreases players.len() - i,
{
    if i < 0 || i >= players.len() {
        (players, fbs)
    } else {
        let hit = spec_hit_one(players[i], fbs, 0);
        spec_damage_from(players.update(i, hit.0), hit.1, i + 1)
    }
}

/// The damage stage: resolves every active player against every live
/// projectile, players in ascending handle order, projectiles in ascending
/// spawn order; a projectile is removed by the first hit it deals.
pub fn fireball_damage_players(players: &mut Vec<Player>, fireballs: &mut Vec<Fireball>)
    requires
        forall|k: int| 0 <= k < old(players)@.len() ==> (#[trigger] old(players)@[k]).wf(),
        forall|k: int| 0 <= k < old(fireballs)@.len() ==> (#[trigger] old(fireballs)@[k]).wf(),
    ensures
        (final(players)@, final(fireballs)@) == spec_damage_from(
            old(players)@,
            old(fireballs)@,
            0,
        ),
        final(players)@.len() == old(players)@.len(),
        final(fireballs)@.len() == old(fireballs)@.len(),
        forall|k: int| 0 <= k < final(players)@.len() ==> (#[trigger] final(players)@[k]).wf(),
        forall|k: int|
            0 <= k < final(players)@.len() ==> (#[trigger] final(players)@[k]).handle
                == old(players)@[k].handle,
        forall|k: int| 0 <= k < final(fireballs)@.len() ==> (#[trigger] final(fireballs)@[k]).wf(),
        forall|k: int|
            0 <= k < final(fireballs)@.len() ==> (#[trigger] final(fireballs)@[k]).id
                == old(fireballs)@[k].id,
{
    let n = players.len();
    let mut i: usize = 0;
    while i < n
        invariant
            i <= n,
            players@.len() == n,
            fireballs@.len() == old(fireballs)@.len(),
            spec_damage_from(players@, fireballs@, i as int) == spec_damage_from(
                old(players)@,
                old(fireballs)@,
                0,
            ),
            forall|k: int| 0 <= k < n ==> (#[trigger] players@[k]).wf(),
            forall|k: int|
                0 <= k < n ==> (#[trigger] players@[k]).handle == old(players)@[k].handle,
            forall|k: int| i <= k < n ==> players@[k] == old(players)@[k],
            forall|k: int| 0 <= k < fireballs@.len() ==> (#[trigger] fireballs@[k]).wf(),
            forall|k: int|
                0 <= k < fireballs@.len() ==> (#[trigger] fireballs@[k]).id
                    == old(fireballs)@[k].id,
        decreases n - i,
    {
        let ghost pre_players = players@;
        let ghost pre_fbs = fireballs@;
        let mut p = players[i];
        let m = fireballs.len();
        let mut j: usize = 0;
        while j < m
            invariant
                j <= m,
                fireballs@.len() == m,
                spec_hit_one(p, fireballs@, j as int) == spec_hit_one(
                    pre_players[i as int],
                    pre_fbs,
                    0,
                ),
                p.wf(),
                p.handle == pre_players[i as int].handle,
                p.pos == pre_players[i as int].pos,
                p.active == pre_players[i as int].active,
                forall|k: int| 0 <= k < m ==> (#[trigger] fireballs@[k]).wf(),
                forall|k: int|
                    0 <= k < m ==> (#[trigger] fireballs@[k]).id == pre_fbs[k].id,
            decreases m - j,
        {
            let fb = fireballs[j];
            let ghost pre_inner = fireballs@;
            let ghost pre_p = p;
            if p.active && !fb.expired && fb.shot_by != p.handle && circle_hit(
                p.pos,
                fb.pos,
                FIREBALL_HIT_DIST,
            ) {
                let nh = if p.health >= i32::MIN + FIREBALL_DAMAGE {
                    p.health - FIREBALL_DAMAGE
                } else {
                    i32::MIN
                };
                p = Player { health: nh, ..p };
                fireballs.set(j, Fireball { expired: true, ..fb });
                proof {
                    assert(fireballs@ =~= pre_inner.update(
                        j as int,
                        Fireball { expired: true, ..pre_inner[j as int] },
                    ));
                    assert(p == (Player {
                        health: spec_damaged(pre_p.health, FIREBALL_DAMAGE),
                        ..pre_p
                    }));
                }
            }
            j = j + 1;
        }
        players.set(i, p);
        proof {
            assert(players@ =~= pre_players.update(
                i as int,
                spec_hit_one(pre_players[i as int], pre_fbs, 0).0,
            ));
        }
        i = i + 1;
    }
}

/// One player after death resolution: health at or below zero marks the
/// player inactive, a one-way transition.
pub open spec fn spec_kill_player(p: Player) -> Player {
    if p.health <= 0 {
        Player { active: false, ..p }
    } else {
        p
    }
}

pub open spec fn spec_kill_from(players: Seq<Player>, i: int) -> Seq<Player>
    decreases players.len() - i,
{
    if i < 0 || i >= players.len() {
        players
    } else {
        spec_kill_from(players.update(i, spec_kill_player(players[i])), i + 1)
    }
}

/// The kill stage: marks every player whose health dropped to zero or below
/// inactive, in ascending handle order, after all damage of the tick.
pub fn kill_players(players: &mut Vec<Player>)
    ensures
        final(players)@ == spec_kill_from(old(players)@, 0),
        final(players)@.len() == old(players)@.len(),
        forall|k: int|
            0 <= k < final(players)@.len() ==> old(players)@[k].wf() ==> (
            #[trigger] final(players)@[k]).wf(),
        forall|k: int|
            0 <= k < final(players)@.len() ==> (#[trigger] final(players)@[k]).handle
                == old(players)@[k].handle,
        forall|k: int|
            0 <= k < final(players)@.len()
                ==> ((#[trigger] final(players)@[k]).active ==> final(players)@[k].health > 0),
{
    let n = players.len();
    let mut i: usize = 0;
    while i < n
        invariant
            i <= n,
            players@.len() == n,
            spec_kill_from(players@, i as int) == spec_kill_from(old(players)@, 0),
            forall|k: int|
                0 <= k < n ==> old(players)@[k].wf() ==> (#[trigger] players@[k]).wf(),
            forall|k: int|
                0 <= k < n ==> (#[trigger] players@[k]).handle == old(players)@[k].handle,
            forall|k: int| 0 <= k < i ==> ((#[trigger] players@[k]).active ==> players@[k].health > 0),
            forall|k: int| i <= k < n ==> players@[k] == old(players)@[k],
        decreases n - i,
    {
        let p = players[i];
        let ghost pre = players@;
        if p.health <= 0 {
            players.set(i, Player { active: false, ..p });
        }
        proof {
            assert(players@ =~= pre.update(i as int, spec_kill_player(pre[i as int])));
        }
        i = i + 1;
    }
}

/// The hazard a sprinting player drops: placed at the player's position with
/// a tiny nudge along the current direction plus the hazard size offset.
pub open spec fn spec_new_poop(p: Player, id: u64) -> PlayerPoop {
    PlayerPoop {
        id,
        shat_by: p.handle,
        pos: Pos {
            x: spec_clamp_coord(
                p.pos.x + spec_scaled(p.controls.dir.x as int, 60, 48000) + POOP_SIZE,
            ),
            y: spec_clamp_coord(
                p.pos.y + spec_scaled(p.controls.dir.y as int, 60, 48000) + POOP_SIZE,
            ),
        },
        lifetime: GameTimer { elapsed_ms: 0u32, duration_ms: POOP_LIFETIME_MS, repeating: false },
        expired: false,
    }
}

/// Whether a player drops a hazard this tick: alive, sprinting, with a
/// charge still left after the sprint stage.
pub open spec fn spec_poops(p: Player) -> bool {
    p.active && p.controls.sprinting && p.boost > 0
}

/// The hazard placement stage from handle `i` up: each sprinting player
/// with a charge left drops one hazard and issues one sound cue.
pub open spec fn spec_poops_from(
    players: Seq<Player>,
    poops: Seq<PlayerPoop>,
    next_id: u64,
    events: Seq<AudioEvent>,
    frame: u32,
    i: int,
) -> (Seq<PlayerPoop>, u64, Seq<AudioEvent>)
    decreases players.len() - i,
{
    if i < 0 || i >= players.len() {
        (poops, next_id, events)
    } else {
        let p = players[i];
        if spec_poops(p) {
            spec_poops_from(
                players,
                poops.push(spec_new_poop(p, next_id)),
                (next_id + 1) as u64,
                events.push(AudioEvent { sound: SoundKind::Sprinting, frame, sub_key: next_id }),
                frame,
                i + 1,
            )
        } else {
            spec_poops_from(players, poops, next_id, events, frame, i + 1)
        }
    }
}

/// The hazard placement stage: sprinting players drop hazards, in ascending
/// handle order.
pub fn player_poops(
    players: &Vec<Player>,
    poops: &mut Vec<PlayerPoop>,
    next_id: &mut u64,
    events: &mut Vec<AudioEvent>,
    frame: u32,
)
    requires
        forall|k: int| 0 <= k < players@.len() ==> (#[trigger] players@[k]).wf(),
        forall|k: int| 0 <= k < old(poops)@.len() ==> (#[trigger] old(poops)@[k]).wf(),
        forall|k: int| 0 <= k < old(poops)@.len() ==> (#[trigger] old(poops)@[k]).id < *old(next_id),
        *old(next_id) + players@.len() <= u64::MAX,
    ensures
        (final(poops)@, *final(next_id), final(events)@) == spec_poops_from(
            players@,
            old(poops)@,
            *old(next_id),
            old(events)@,
            frame,
            0,
        ),
        forall|k: int| 0 <= k < final(poops)@.len() ==> (#[trigger] final(poops)@[k]).wf(),
        forall|k: int|
            0 <= k < final(poops)@.len() ==> (#[trigger] final(poops)@[k]).id < *final(next_id),
        *old(next_id) <= *final(next_id) <= *old(next_id) + players@.len(),
{
    let n = players.len();
    let mut i: usize = 0;
    while i < n
        invariant
            i <= n,
            spec_poops_from(players@, poops@, *next_id, events@, frame, i as int)
                == spec_poops_from(
                players@,
                old(poops)@,
                *old(next_id),
                old(events)@,
                frame,
                0,
            ),
            forall|k: int| 0 <= k < poops@.len() ==> (#[trigger] poops@[k]).wf(),
            forall|k: int| 0 <= k < poops@.len() ==> (#[trigger] poops@[k]).id < *next_id,
            *old(next_id) <= *next_id <= *old(next_id) + i,
        decreases n - i,
    {
        let p = players[i];
        let ghost pre_poops = poops@;
        let ghost pre_id = *next_id;
        let ghost pre_events = events@;
        if p.active && p.controls.sprinting && p.boost > 0 {
            let ox = scaled(p.controls.dir.x, 60, 48000);
            let oy = scaled(p.controls.dir.y, 60, 48000);
            let poop = PlayerPoop {
                id: *next_id,
                shat_by: p.handle,
                pos: Pos {
                    x: clamp_coord(p.pos.x + ox + POOP_SIZE),
                    y: clamp_coord(p.pos.y + oy + POOP_SIZE),
                },
                lifetime: GameTimer::one_shot(POOP_LIFETIME_MS),
                expired: false,
            };
            poops.push(poop);
            events.push(AudioEvent { sound: SoundKind::Sprinting, frame, sub_key: *next_id });
            *next_id = *next_id + 1;
            proof {
                assert(poops@ =~= pre_poops.push(spec_new_poop(players@[i as int], pre_id)));
                assert(events@ =~= pre_events.push(
                    AudioEvent { sound: SoundKind::Sprinting, frame, sub_key: pre_id },
                ));
            }
        }
        i = i + 1;
    }
}

/// One player resolved against the hazards from index `j` up: every live
/// hazard of another player within contact range deals its fixed damage
/// once and is destroyed by the contact.
pub open spec fn spec_poop_hit_one(p: Player, poops: Seq<PlayerPoop>, j: int) -> (
    Player,
    Seq<PlayerPoop>,
)
    decreases poops.len() - j,
{
    if j < 0 || j >= poops.len() {
        (p, poops)
    } else {
        let poop = poops[j];
        if p.active && !poop.expired && poop.shat_by != p.handle && spec_circle_hit(
            p.pos,
            poop.pos,
            POOP_HIT_DIST,
        ) {
            spec_poop_hit_one(
                Player { health: spec_damaged(p.health, POOP_DAMAGE), ..p },
                poops.update(j, PlayerPoop { expired: true, ..poop }),
                j + 1,
            )
        } else {
            spec_poop_hit_one(p, poops, j + 1)
        }
    }
}

pub open spec fn spec_poop_damage_from(players: Seq<Player>, poops: Seq<PlayerPoop>, i: int) -> (
    Seq<Player>,
    Seq<PlayerPoop>,
)
    decreases players.len() - i,
{
    if i < 0 || i >= players.len() {
        (players, poops)
    } else {
        let hit = spec_poop_hit_one(players[i], poops, 0);
        spec_poop_damage_from(players.update(i, hit.0), hit.1, i + 1)
    }
}

/// The hazard contact stage: players in ascending handle order against
/// hazards in ascending spawn order; a hazard is destroyed by the first
/// contact and never affects its own creator.
pub fn player_stepped_in_poop(players: &mut Vec<Player>, poops: &mut Vec<PlayerPoop>)
    requires
        forall|k: int| 0 <= k < old(players)@.len() ==> (#[trigger] old(players)@[k]).wf(),
        forall|k: int| 0 <= k < old(poops)@.len() ==> (#[trigger] old(poops)@[k]).wf(),
    ensures
        (final(players)@, final(poops)@) == spec_poop_damage_from(old(players)@, old(poops)@, 0),
        final(players)@.len() == old(players)@.len(),
        final(poops)@.len() == old(poops)@.len(),
        forall|k: int| 0 <= k < final(players)@.len() ==> (#[trigger] final(players)@[k]).wf(),
        forall|k: int|
            0 <= k < final(players)@.len() ==> (#[trigger] final(players)@[k]).handle
                == old(players)@[k].handle,
        forall|k: int| 0 <= k < final(poops)@.len() ==> (#[trigger] final(poops)@[k]).wf(),
        forall|k: int|
            0 <= k < final(poops)@.len() ==> (#[trigger] final(poops)@[k]).id == old(poops)@[k].id,
{
    let n = players.len();
    let mut i: usize = 0;
    while i < n
        invariant
            i <= n,
            players@.len() == n,
            poops@.len() == old(poops)@.len(),
            spec_poop_damage_from(players@, poops@, i as int) == spec_poop_damage_from(
                old(players)@,
                old(poops)@,
                0,
            ),
            forall|k: int| 0 <= k < n ==> (#[trigger] players@[k]).wf(),
            forall|k: int|
                0 <= k < n ==> (#[trigger] players@[k]).handle == old(players)@[k].handle,
            forall|k: int| i <= k < n ==> players@[k] == old(players)@[k],
            forall|k: int| 0 <= k < poops@.len() ==> (#[trigger] poops@[k]).wf(),
            forall|k: int|
                0 <= k < poops@.len() ==> (#[trigger] poops@[k]).id == old(poops)@[k].id,
        decreases n - i,
    {
        let ghost pre_players = players@;
        let ghost pre_poops = poops@;
        let mut p = players[i];
        let m = poops.len();
        let mut j: usize = 0;
        while j < m
            invariant
                j <= m,
                poops@.len() == m,
                spec_poop_hit_one(p, poops@, j as int) == spec_poop_hit_one(
                    pre_players[i as int],
                    pre_poops,
                    0,
                ),
                p.wf(),
                p.handle == pre_players[i as int].handle,
                p.pos == pre_players[i as int].pos,
                p.active == pre_players[i as int].active,
                forall|k: int| 0 <= k < m ==> (#[trigger] poops@[k]).wf(),
                forall|k: int| 0 <= k < m ==> (#[trigger] poops@[k]).id == pre_poops[k].id,
            decreases m - j,
        {
            let poop = poops[j];
            let ghost pre_inner = poops@;
            let ghost pre_p = p;
            if p.active && !poop.expired && poop.shat_by != p.handle && circle_hit(
                p.pos,
                poop.pos,
                POOP_HIT_DIST,
            ) {
                let nh = if p.health >= i32::MIN + POOP_DAMAGE {
                    p.health - POOP_DAMAGE
                } else {
                    i32::MIN
                };
                p = Player { health: nh, ..p };
                poops.set(j, PlayerPoop { expired: true, ..poop });
                proof {
                    assert(poops@ =~= pre_inner.update(
                        j as int,
                        PlayerPoop { expired: true, ..pre_inner[j as int] },
                    ));
                    assert(p == (Player {
                        health: spec_damaged(pre_p.health, POOP_DAMAGE),
                        ..pre_p
                    }));
                }
            }
            j = j + 1;
        }
        players.set(i, p);
        proof {
            assert(players@ =~= pre_players.update(
                i as int,
                spec_poop_hit_one(pre_players[i as int], pre_poops, 0).0,
            ));
        }
        i = i + 1;
    }
}

pub open spec fn spec_tick_poops_from(poops: Seq<PlayerPoop>, i: int) -> Seq<PlayerPoop>
    decreases poops.len() - i,
{
    if i < 0 || i >= poops.len() {
        poops
    } else {
        spec_tick_poops_from(
            poops.update(i, PlayerPoop { lifetime: poops[i].lifetime.spec_tick(), ..poops[i] }),
            i + 1,
        )
    }
}

/// Ages every hazard's lifetime timer by one tick, in ascending spawn order.
pub fn tick_poop_timers(poops: &mut Vec<PlayerPoop>)
    requires
        forall|k: int| 0 <= k < old(poops)@.len() ==> (#[trigger] old(poops)@[k]).wf(),
    ensures
        final(poops)@ == spec_tick_poops_from(old(poops)@, 0),
        final(poops)@.len() == old(poops)@.len(),
        forall|k: int| 0 <= k < final(poops)@.len() ==> (#[trigger] final(poops)@[k]).wf(),
        forall|k: int|
            0 <= k < final(poops)@.len() ==> (#[trigger] final(poops)@[k]).id == old(poops)@[k].id,
{
    let n = poops.len();
    let mut i: usize = 0;
    while i < n
        invariant
            i <= n,
            poops@.len() == n,
            spec_tick_poops_from(poops@, i as int) == spec_tick_poops_from(old(poops)@, 0),
            forall|k: int| 0 <= k < n ==> (#[trigger] poops@[k]).wf(),
            forall|k: int| 0 <= k < n ==> (#[trigger] poops@[k]).id == old(poops)@[k].id,
            forall|k: int| i <= k < n ==> poops@[k] == old(poops)@[k],
        decreases n - i,
    {
        let f = poops[i];
        let ghost pre = poops@;
        let mut t = f.lifetime;
        t.tick();
        poops.set(i, PlayerPoop { lifetime: t, ..f });
        proof {
            assert(poops@ =~= pre.update(
                i as int,
                PlayerPoop { lifetime: pre[i as int].lifetime.spec_tick(), ..pre[i as int] },
            ));
        }
        i = i + 1;
    }
}

pub open spec fn spec_expire_poops_from(poops: Seq<PlayerPoop>, i: int) -> Seq<PlayerPoop>
    decreases poops.len() - i,
{
    if i < 0 || i >= poops.len() {
        poops
    } else {
        let f = poops[i];
        let f2 = if f.lifetime.spec_finished() {
            PlayerPoop { expired: true, ..f }
        } else {
            f
        };
        spec_expire_poops_from(poops.update(i, f2), i + 1)
    }
}

/// Marks hazards whose lifetime has run out for removal, in ascending spawn
/// order.
pub fn despawn_old_poops(poops: &mut Vec<PlayerPoop>)
    requires
        forall|k: int| 0 <= k < old(poops)@.len() ==> (#[trigger] old(poops)@[k]).wf(),
    ensures
        final(poops)@ == spec_expire_poops_from(old(poops)@, 0),
        final(poops)@.len() == old(poops)@.len(),
        forall|k: int| 0 <= k < final(poops)@.len() ==> (#[trigger] final(poops)@[k]).wf(),
        forall|k: int|
            0 <= k < final(poops)@.len() ==> (#[trigger] final(poops)@[k]).id == old(poops)@[k].id,
{
    let n = poops.len();
    let mut i: usize = 0;
    while i < n
        invariant
            i <= n,
            poops@.len() == n,
            spec_expire_poops_from(poops@, i as int) == spec_expire_poops_from(old(poops)@, 0),
            forall|k: int| 0 <= k < n ==> (#[trigger] poops@[k]).wf(),
            forall|k: int| 0 <= k < n ==> (#[trigger] poops@[k]).id == old(poops)@[k].id,
            forall|k: int| i <= k < n ==> poops@[k] == old(poops)@[k],
        decreases n - i,
    {
        let f = poops[i];
        let ghost pre = poops@;
        if f.lifetime.elapsed_ms >= f.lifetime.duration_ms {
            poops.set(i, PlayerPoop { expired: true, ..f });
        }
        proof {
            assert(poops@ =~= pre.update(
                i as int,
                if pre[i as int].lifetime.spec_finished() {
                    PlayerPoop { expired: true, ..pre[i as int] }
                } else {
                    pre[i as int]
                },
            ));
        }
        i = i + 1;
    }
}

/// Live projectiles: the ones not marked for removal, in unchanged order.
pub open spec fn spec_live_fireballs(fbs: Seq<Fireball>) -> Seq<Fireball> {
    fbs.filter(|f: Fireball| !f.expired)
}

/// Live hazards, in unchanged order.
pub open spec fn spec_live_poops(poops: Seq<PlayerPoop>) -> Seq<PlayerPoop> {
    poops.filter(|p: PlayerPoop| !p.expired)
}

/// Live pickups, in unchanged order.
pub open spec fn spec_live_edibles(edibles: Seq<EdibleItem>) -> Seq<EdibleItem> {
    edibles.filter(|e: EdibleItem| !e.expired)
}

/// The removal pass at the end of the tick: drops every entity marked
/// expired, keeping each kind's ascending spawn order.
pub fn remove_expired(
    fireballs: &mut Vec<Fireball>,
    poops: &mut Vec<PlayerPoop>,
    edibles: &mut Vec<EdibleItem>,
)
    ensures
        final(fireballs)@ == spec_live_fireballs(old(fireballs)@),
        final(poops)@ == spec_live_poops(old(poops)@),
        final(edibles)@ == spec_live_edibles(old(edibles)@),
        forall|k: int|
            0 <= k < final(fireballs)@.len() ==> old(fireballs)@.contains(
                #[trigger] final(fireballs)@[k],
            ),
        forall|k: int|
            0 <= k < final(poops)@.len() ==> old(poops)@.contains(#[trigger] final(poops)@[k]),
        forall|k: int|
            0 <= k < final(edibles)@.len() ==> old(edibles)@.contains(
                #[trigger] final(edibles)@[k],
            ),
{
    let mut kept_f: Vec<Fireball> = Vec::new();
    let mut i: usize = 0;
    proof {
        reveal(Seq::filter);
        assert(fireballs@.take(0int) =~= Seq::<Fireball>::empty());
    }
    while i < fireballs.len()
        invariant
            i <= fireballs@.len(),
            kept_f@ == spec_live_fireballs(fireballs@.take(i as int)),
            forall|k: int|
                0 <= k < kept_f@.len() ==> fireballs@.contains(#[trigger] kept_f@[k]),
        decreases fireballs@.len() - i,
    {
        let f = fireballs[i];
        if !f.expired {
            kept_f.push(f);
        }
        proof {
            reveal(Seq::filter);
            assert(fireballs@.take(i + 1).drop_last() =~= fireballs@.take(i as int));
            assert(fireballs@.take(i + 1).last() == fireballs@[i as int]);
        }
        i = i + 1;
    }
    proof {
        assert(fireballs@.take(fireballs@.len() as int) =~= fireballs@);
    }
    *fireballs = kept_f;

    let mut kept_p: Vec<PlayerPoop> = Vec::new();
    let mut i: usize = 0;
    proof {
        reveal(Seq::filter);
        assert(poops@.take(0int) =~= Seq::<PlayerPoop>::empty());
    }
    while i < poops.len()
        invariant
            i <= poops@.len(),
            kept_p@ == spec_live_poops(poops@.take(i as int)),
            forall|k: int|
                0 <= k < kept_p@.len() ==> poops@.contains(#[trigger] kept_p@[k]),
        decreases poops@.len() - i,
    {
        let f = poops[i];
        if !f.expired {
            kept_p.push(f);
        }
        proof {
            reveal(Seq::filter);
            assert(poops@.take(i + 1).drop_last() =~= poops@.take(i as int));
            assert(poops@.take(i + 1).last() == poops@[i as int]);
        }
        i = i + 1;
    }
    proof {
        assert(poops@.take(poops@.len() as int) =~= poops@);
    }
    *poops = kept_p;

    let mut kept_e: Vec<EdibleItem> = Vec::new();
    let mut i: usize = 0;
    proof {
        reveal(Seq::filter);
        assert(edibles@.take(0int) =~= Seq::<EdibleItem>::empty());
    }
    while i < edibles.len()
        invariant
            i <= edibles@.len(),
            kept_e@ == spec_live_edibles(edibles@.take(i as int)),
            forall|k: int|
                0 <= k < kept_e@.len() ==> edibles@.contains(#[trigger] kept_e@[k]),
        decreases edibles@.len() - i,
    {
        let f = edibles[i];
        if !f.expired {
            kept_e.push(f);
        }
        proof {
            reveal(Seq::filter);
            assert(edibles@.take(i + 1).drop_last() =~= edibles@.take(i as int));
            assert(edibles@.take(i + 1).last() == edibles@[i as int]);
        }
        i = i + 1;
    }
    proof {
        assert(edibles@.take(edibles@.len() as int) =~= edibles@);
    }
    *edibles = kept_e;
}

} // verus!
