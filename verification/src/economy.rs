//! The resource economy: timed pickup spawns and pickup consumption.
//!
//! Three independent repeating timers gate the three pickup kinds.  When a
//! timer completes, one pickup spawns at a spawn area chosen by an index
//! drawn from the agreed random source, so every peer spawns it at the same
//! place.  Consumption tests every active player against every live pickup
//! of a kind, players in ascending handle order, pickups in ascending spawn
//! order; the first match removes the pickup at once, so no two players can
//! consume the same pickup in one tick.

use crate::map::{circle_hit, spec_circle_hit, Pos};
use crate::state::{
    AudioEvent, Edible, EdibleItem, EdibleSpawnTimer, Player, SoundKind, CHILI_PEPPER_AMMO_COUNT,
    CHILI_PEPPER_HIT_DIST, LETTUCE_HEALTH_GAIN, LETTUCE_HIT_DIST, PLAYER_HEALTH_MAX,
    STRAWBERRY_AMMO_COUNT, STRAWBERRY_HIT_DIST,
};
use vstd::prelude::*;

verus! {

/// The spawn timers after one tick.
pub open spec fn spec_tick_timers(t: EdibleSpawnTimer) -> EdibleSpawnTimer {
    EdibleSpawnTimer {
        chili_pepper_timer: t.chili_pepper_timer.spec_tick(),
        strawberry_timer: t.strawberry_timer.spec_tick(),
        lettuce_timer: t.lettuce_timer.spec_tick(),
    }
}

/// Advances the three spawn timers by one tick and reports which of them
/// completed, as (chili pepper, strawberry, lettuce).
pub fn tick_edible_timer(timers: &mut EdibleSpawnTimer) -> (fired: (bool, bool, bool))
    requires
        old(timers).wf(),
    ensures
        *final(timers) == spec_tick_timers(*old(timers)),
        final(timers).wf(),
        fired.0 == old(timers).chili_pepper_timer.spec_fires(),
        fired.1 == old(timers).strawberry_timer.spec_fires(),
        fired.2 == old(timers).lettuce_timer.spec_fires(),
{
    let c = timers.chili_pepper_timer.tick();
    let s = timers.strawberry_timer.tick();
    let l = timers.lettuce_timer.tick();
    (c, s, l)
}

/// The pickup spawned by a completed timer: the given kind, placed at the
/// spawn area the agreed random draw selected.
pub open spec fn spec_new_edible(kind: Edible, id: u64, pos: Pos) -> EdibleItem {
    EdibleItem { id, kind, pos, expired: false }
}

fn spawn_edible(
    edibles: &mut Vec<EdibleItem>,
    next_id: &mut u64,
    spawn_areas: &Vec<Pos>,
    idx: usize,
    kind: Edible,
)
    requires
        idx < spawn_areas@.len(),
        forall|k: int| 0 <= k < spawn_areas@.len() ==> (#[trigger] spawn_areas@[k]).in_bounds(),
        forall|k: int| 0 <= k < old(edibles)@.len() ==> (#[trigger] old(edibles)@[k]).wf(),
        forall|k: int| 0 <= k < old(edibles)@.len() ==> (#[trigger] old(edibles)@[k]).id < *old(next_id),
        *old(next_id) < u64::MAX,
    ensures
        final(edibles)@ == old(edibles)@.push(
            spec_new_edible(kind, *old(next_id), spawn_areas@[idx as int]),
        ),
        *final(next_id) == *old(next_id) + 1,
        forall|k: int| 0 <= k < final(edibles)@.len() ==> (#[trigger] final(edibles)@[k]).wf(),
        forall|k: int|
            0 <= k < final(edibles)@.len() ==> (#[trigger] final(edibles)@[k]).id < *final(next_id),
{
    let pos = spawn_areas[idx];
    edibles.push(EdibleItem { id: *next_id, kind, pos, expired: false });
    *next_id = *next_id + 1;
}

/// The timed chili pepper spawn: places one ammunition pickup at the drawn
/// spawn area.  Run when the chili pepper timer completes; `idx` is the
/// index the agreed random source drew.
pub fn spawn_chili_pepper_over_time(
    edibles: &mut Vec<EdibleItem>,
    next_id: &mut u64,
    spawn_areas: &Vec<Pos>,
    idx: usize,
)
    requires
        idx < spawn_areas@.len(),
        forall|k: int| 0 <= k < spawn_areas@.len() ==> (#[trigger] spawn_areas@[k]).in_bounds(),
        forall|k: int| 0 <= k < old(edibles)@.len() ==> (#[trigger] old(edibles)@[k]).wf(),
        forall|k: int| 0 <= k < old(edibles)@.len() ==> (#[trigger] old(edibles)@[k]).id < *old(next_id),
        *old(next_id) < u64::MAX,
    ensures
        final(edibles)@ == old(edibles)@.push(
            spec_new_edible(Edible::ChiliPepper, *old(next_id), spawn_areas@[idx as int]),
        ),
        *final(next_id) == *old(next_id) + 1,
        forall|k: int| 0 <= k < final(edibles)@.len() ==> (#[trigger] final(edibles)@[k]).wf(),
        forall|k: int|
            0 <= k < final(edibles)@.len() ==> (#[trigger] final(edibles)@[k]).id < *final(next_id),
{
    spawn_edible(edibles, next_id, spawn_areas, idx, Edible::ChiliPepper);
}

/// The timed strawberry spawn: places one sprint-charge pickup at the drawn
/// spawn area.
pub fn spawn_strawberry_over_time(
    edibles: &mut Vec<EdibleItem>,
    next_id: &mut u64,
    spawn_areas: &Vec<Pos>,
    idx: usize,
)
    requires
        idx < spawn_areas@.len(),
        forall|k: int| 0 <= k < spawn_areas@.len() ==> (#[trigger] spawn_areas@[k]).in_bounds(),
        forall|k: int| 0 <= k < old(edibles)@.len() ==> (#[trigger] old(edibles)@[k]).wf(),
        forall|k: int| 0 <= k < old(edibles)@.len() ==> (#[trigger] old(edibles)@[k]).id < *old(next_id),
        *old(next_id) < u64::MAX,
    ensures
        final(edibles)@ == old(edibles)@.push(
            spec_new_edible(Edible::Strawberry, *old(next_id), spawn_areas@[idx as int]),
        ),
        *final(next_id) == *old(next_id) + 1,
        forall|k: int| 0 <= k < final(edibles)@.len() ==> (#[trigger] final(edibles)@[k]).wf(),
        forall|k: int|
            0 <= k < final(edibles)@.len() ==> (#[trigger] final(edibles)@[k]).id < *final(next_id),
{
    spawn_edible(edibles, next_id, spawn_areas, idx, Edible::Strawberry);
}

/// The timed lettuce spawn: places one healing pickup at the drawn spawn
/// area.
pub fn spawn_lettuce_over_time(
    edibles: &mut Vec<EdibleItem>,
    next_id: &mut u64,
    spawn_areas: &Vec<Pos>,
    idx: usize,
)
    requires
        idx < spawn_areas@.len(),
        forall|k: int| 0 <= k < spawn_areas@.len() ==> (#[trigger] spawn_areas@[k]).in_bounds(),
        forall|k: int| 0 <= k < old(edibles)@.len() ==> (#[trigger] old(edibles)@[k]).wf(),
        forall|k: int| 0 <= k < old(edibles)@.len() ==> (#[trigger] old(edibles)@[k]).id < *old(next_id),
        *old(next_id) < u64::MAX,
    ensures
        final(edibles)@ == old(edibles)@.push(
            spec_new_edible(Edible::Lettuce, *old(next_id), spawn_areas@[idx as int]),
        ),
        *final(next_id) == *old(next_id) + 1,
        forall|k: int| 0 <= k < final(edibles)@.len() ==> (#[trigger] final(edibles)@[k]).wf(),
        forall|k: int|
            0 <= k < final(edibles)@.len() ==> (#[trigger] final(edibles)@[k]).id < *final(next_id),
{
    spawn_edible(edibles, next_id, spawn_areas, idx, Edible::Lettuce);
}

/// The combined pickup radius of a player and one pickup kind.
pub open spec fn spec_kind_dist(kind: Edible) -> i64 {
    match kind {
        Edible::ChiliPepper => CHILI_PEPPER_HIT_DIST,
        Edible::Strawberry => STRAWBERRY_HIT_DIST,
        Edible::Lettuce => LETTUCE_HIT_DIST,
    }
}

/// The effect of consuming one pickup of a kind: ammunition or sprint
/// charges increase by a fixed count (never beyond the machine range), and
/// healing raises health by a fixed amount clamped to the maximum.
pub open spec fn spec_consume_effect(kind: Edible, p: Player) -> Player {
    match kind {
        Edible::ChiliPepper => Player {
            ammo: if p.ammo + CHILI_PEPPER_AMMO_COUNT > i32::MAX {
                i32::MAX
            } else {
                (p.ammo + CHILI_PEPPER_AMMO_COUNT) as i32
            },
            ..p
        },
        Edible::Strawberry => Player {
            boost: if p.boost + STRAWBERRY_AMMO_COUNT > i32::MAX {
                i32::MAX
            } else {
                (p.boost + STRAWBERRY_AMMO_COUNT) as i32
            },
            ..p
        },
        Edible::Lettuce => if p.health < PLAYER_HEALTH_MAX {
            Player {
                health: if p.health + LETTUCE_HEALTH_GAIN > PLAYER_HEALTH_MAX {
                    PLAYER_HEALTH_MAX
                } else if p.health + LETTUCE_HEALTH_GAIN < 0 {
                    0
                } else {
                    (p.health + LETTUCE_HEALTH_GAIN) as i32
                },
                ..p
            }
        } else {
            p
        },
    }
}

/// One player resolved against the pickups of one kind from index `j` up:
/// the first live pickup of the kind within range is consumed, applying its
/// effect, removing it at once, and issuing one sound cue.
pub open spec fn spec_eat_one(
    kind: Edible,
    p: Player,
    edibles: Seq<EdibleItem>,
    events: Seq<AudioEvent>,
    frame: u32,
    j: int,
) -> (Player, Seq<EdibleItem>, Seq<AudioEvent>)
    decreases edibles.len() - j,
{
    if j < 0 || j >= edibles.len() {
        (p, edibles, events)
    } else {
        let e = edibles[j];
        if p.active && !e.expired && e.kind == kind && spec_circle_hit(
            p.pos,
            e.pos,
            spec_kind_dist(kind),
        ) {
            spec_eat_one(
                kind,
                spec_consume_effect(kind, p),
                edibles.update(j, EdibleItem { expired: true, ..e }),
                events.push(AudioEvent { sound: SoundKind::Pickup, frame, sub_key: e.id }),
                frame,
                j + 1,
            )
        } else {
            spec_eat_one(kind, p, edibles, events, frame, j + 1)
        }
    }
}

/// The consumption stage for one kind, from handle `i` up.
pub open spec fn spec_eat_from(
    kind: Edible,
    players: Seq<Player>,
    edibles: Seq<EdibleItem>,
    events: Seq<AudioEvent>,
    frame: u32,
    i: int,
) -> (Seq<Player>, Seq<EdibleItem>, Seq<AudioEvent>)
    decreases players.len() - i,
{
    if i < 0 || i >= players.len() {
        (players, edibles, events)
    } else {
        let one = spec_eat_one(kind, players[i], edibles, events, frame, 0);
        spec_eat_from(kind, players.update(i, one.0), one.1, one.2, frame, i + 1)
    }
}

fn eat_system(
    kind: Edible,
    players: &mut Vec<Player>,
    edibles: &mut Vec<EdibleItem>,
    events: &mut Vec<AudioEvent>,
    frame: u32,
)
    requires
        forall|k: int| 0 <= k < old(players)@.len() ==> (#[trigger] old(players)@[k]).wf(),
        forall|k: int| 0 <= k < old(edibles)@.len() ==> (#[trigger] old(edibles)@[k]).wf(),
    ensures
        (final(players)@, final(edibles)@, final(events)@) == spec_eat_from(
            kind,
            old(players)@,
            old(edibles)@,
            old(events)@,
            frame,
            0,
        ),
        final(players)@.len() == old(players)@.len(),
        final(edibles)@.len() == old(edibles)@.len(),
        forall|k: int| 0 <= k < final(players)@.len() ==> (#[trigger] final(players)@[k]).wf(),
        forall|k: int|
            0 <= k < final(players)@.len() ==> (#[trigger] final(players)@[k]).handle
                == old(players)@[k].handle,
        forall|k: int| 0 <= k < final(edibles)@.len() ==> (#[trigger] final(edibles)@[k]).wf(),
        forall|k: int|
            0 <= k < final(edibles)@.len() ==> (#[trigger] final(edibles)@[k]).id
                == old(edibles)@[k].id,
{
    let n = players.len();
    let mut i: usize = 0;
    while i < n
        invariant
            i <= n,
            players@.len() == n,
            edibles@.len() == old(edibles)@.len(),
            spec_eat_from(kind, players@, edibles@, events@, frame, i as int) == spec_eat_from(
                kind,
                old(players)@,
                old(edibles)@,
                old(events)@,
                frame,
                0,
            ),
            forall|k: int| 0 <= k < n ==> (#[trigger] players@[k]).wf(),
            forall|k: int|
                0 <= k < n ==> (#[trigger] players@[k]).handle == old(players)@[k].handle,
            forall|k: int| i <= k < n ==> players@[k] == old(players)@[k],
            forall|k: int| 0 <= k < edibles@.len() ==> (#[trigger] edibles@[k]).wf(),
            forall|k: int|
                0 <= k < edibles@.len() ==> (#[trigger] edibles@[k]).id == old(edibles)@[k].id,
        decreases n - i,
    {
        let ghost pre_players = players@;
        let ghost pre_edibles = edibles@;
        let ghost pre_events = events@;
        let mut p = players[i];
        let m = edibles.len();
        let mut j: usize = 0;
        while j < m
            invariant
                j <= m,
                edibles@.len() == m,
                spec_eat_one(kind, p, edibles@, events@, frame, j as int) == spec_eat_one(
                    kind,
                    pre_players[i as int],
                    pre_edibles,
                    pre_events,
                    frame,
                    0,
                ),
                p.wf(),
                p.handle == pre_players[i as int].handle,
                p.pos == pre_players[i as int].pos,
                p.active == pre_players[i as int].active,
                forall|k: int| 0 <= k < m ==> (#[trigger] edibles@[k]).wf(),
                forall|k: int|
                    0 <= k < m ==> (#[trigger] edibles@[k]).id == pre_edibles[k].id,
            decreases m - j,
        {
            let e = edibles[j];
            let ghost pre_inner = edibles@;
            let ghost pre_p = p;
            let dist = match kind {
                Edible::ChiliPepper => CHILI_PEPPER_HIT_DIST,
                Edible::Strawberry => STRAWBERRY_HIT_DIST,
                Edible::Lettuce => LETTUCE_HIT_DIST,
            };
            let same_kind = match (kind, e.kind) {
                (Edible::ChiliPepper, Edible::ChiliPepper) => true,
                (Edible::Strawberry, Edible::Strawberry) => true,
                (Edible::Lettuce, Edible::Lettuce) => true,
                _ => false,
            };
            if p.active && !e.expired && same_kind && circle_hit(p.pos, e.pos, dist) {
                p = match kind {
                    Edible::ChiliPepper => Player {
                        ammo: if p.ammo <= i32::MAX - CHILI_PEPPER_AMMO_COUNT {
                            p.ammo + CHILI_PEPPER_AMMO_COUNT
                        } else {
                            i32::MAX
                        },
                        ..p
                    },
                    Edible::Strawberry => Player {
                        boost: if p.boost <= i32::MAX - STRAWBERRY_AMMO_COUNT {
                            p.boost + STRAWBERRY_AMMO_COUNT
                        } else {
                            i32::MAX
                        },
                        ..p
                    },
                    Edible::Lettuce => {
                        if p.health < PLAYER_HEALTH_MAX {
                            let gained = p.health + LETTUCE_HEALTH_GAIN;
                            Player {
                                health: if gained > PLAYER_HEALTH_MAX {
                                    PLAYER_HEALTH_MAX
                                } else if gained < 0 {
                                    0
                                } else {
                                    gained
                                },
                                ..p
                            }
                        } else {
                            p
                        }
                    },
                };
                edibles.set(j, EdibleItem { expired: true, ..e });
                events.push(AudioEvent { sound: SoundKind::Pickup, frame, sub_key: e.id });
                proof {
                    assert(edibles@ =~= pre_inner.update(
                        j as int,
                        EdibleItem { expired: true, ..pre_inner[j as int] },
                    ));
                    assert(p == spec_consume_effect(kind, pre_p));
                }
            }
            j = j + 1;
        }
        players.set(i, p);
        proof {
            assert(players@ =~= pre_players.update(
                i as int,
                spec_eat_one(kind, pre_players[i as int], pre_edibles, pre_events, frame, 0).0,
            ));
        }
        i = i + 1;
    }
}

/// The chili pepper consumption stage: within pickup range, an active
/// player gains ammunition and the pickup is removed at once.
pub fn player_ate_chili_pepper_system(
    players: &mut Vec<Player>,
    edibles: &mut Vec<EdibleItem>,
    events: &mut Vec<AudioEvent>,
    frame: u32,
)
    requires
        forall|k: int| 0 <= k < old(players)@.len() ==> (#[trigger] old(players)@[k]).wf(),
        forall|k: int| 0 <= k < old(edibles)@.len() ==> (#[trigger] old(edibles)@[k]).wf(),
    ensures
        (final(players)@, final(edibles)@, final(events)@) == spec_eat_from(
            Edible::ChiliPepper,
            old(players)@,
            old(edibles)@,
            old(events)@,
            frame,
            0,
        ),
        final(players)@.len() == old(players)@.len(),
        final(edibles)@.len() == old(edibles)@.len(),
        forall|k: int| 0 <= k < final(players)@.len() ==> (#[trigger] final(players)@[k]).wf(),
        forall|k: int|
            0 <= k < final(players)@.len() ==> (#[trigger] final(players)@[k]).handle
                == old(players)@[k].handle,
        forall|k: int| 0 <= k < final(edibles)@.len() ==> (#[trigger] final(edibles)@[k]).wf(),
        forall|k: int|
            0 <= k < final(edibles)@.len() ==> (#[trigger] final(edibles)@[k]).id
                == old(edibles)@[k].id,
{
    eat_system(Edible::ChiliPepper, players, edibles, events, frame);
}

/// The strawberry consumption stage: within pickup range, an active player
/// gains sprint charges and the pickup is removed at once.
pub fn player_ate_strawberry_system(
    players: &mut Vec<Player>,
    edibles: &mut Vec<EdibleItem>,
    events: &mut Vec<AudioEvent>,
    frame: u32,
)
    requires
        forall|k: int| 0 <= k < old(players)@.len() ==> (#[trigger] old(players)@[k]).wf(),
        forall|k: int| 0 <= k < old(edibles)@.len() ==> (#[trigger] old(edibles)@[k]).wf(),
    ensures
        (final(players)@, final(edibles)@, final(events)@) == spec_eat_from(
            Edible::Strawberry,
            old(players)@,
            old(edibles)@,
            old(events)@,
            frame,
            0,
        ),
        final(players)@.len() == old(players)@.len(),
        final(edibles)@.len() == old(edibles)@.len(),
        forall|k: int| 0 <= k < final(players)@.len() ==> (#[trigger] final(players)@[k]).wf(),
        forall|k: int|
            0 <= k < final(players)@.len() ==> (#[trigger] final(players)@[k]).handle
                == old(players)@[k].handle,
        forall|k: int| 0 <= k < final(edibles)@.len() ==> (#[trigger] final(edibles)@[k]).wf(),
        forall|k: int|
            0 <= k < final(edibles)@.len() ==> (#[trigger] final(edibles)@[k]).id
                == old(edibles)@[k].id,
{
    eat_system(Edible::Strawberry, players, edibles, events, frame);
}

/// The lettuce consumption stage: within pickup range, an active player is
/// healed by a fixed amount clamped to the maximum and the pickup is
/// removed at once.
pub fn player_ate_lettuce_system(
    players: &mut Vec<Player>,
    edibles: &mut Vec<EdibleItem>,
    events: &mut Vec<AudioEvent>,
    frame: u32,
)
    requires
        forall|k: int| 0 <= k < old(players)@.len() ==> (#[trigger] old(players)@[k]).wf(),
        forall|k: int| 0 <= k < old(edibles)@.len() ==> (#[trigger] old(edibles)@[k]).wf(),
    ensures
        (final(players)@, final(edibles)@, final(events)@) == spec_eat_from(
            Edible::Lettuce,
            old(players)@,
            old(edibles)@,
            old(events)@,
            frame,
            0,
        ),
        final(players)@.len() == old(players)@.len(),
        final(edibles)@.len() == old(edibles)@.len(),
        forall|k: int| 0 <= k < final(players)@.len() ==> (#[trigger] final(players)@[k]).wf(),
        forall|k: int|
            0 <= k < final(players)@.len() ==> (#[trigger] final(players)@[k]).handle
                == old(players)@[k].handle,
        forall|k: int| 0 <= k < final(edibles)@.len() ==> (#[trigger] final(edibles)@[k]).wf(),
        forall|k: int|
            0 <= k < final(edibles)@.len() ==> (#[trigger] final(edibles)@[k]).id
                == old(edibles)@[k].id,
{
    eat_system(Edible::Lettuce, players, edibles, events, frame);
}

} // verus!
