//! The complete simulation state and its entities.
//!
//! Everything a rollback re-simulation needs is held in plain values here:
//! players, projectiles, hazards, pickups, the economy timers, the frame
//! number and the id counter.  Entities are stored in per-kind arrays in
//! ascending spawn order, and each carries a spawn id drawn from a counter
//! that never repeats, so that every iteration the pipeline makes has one
//! deterministic order.

use crate::checksum::spec_player_checksum;
use crate::input::{DirVec, PlayerControls};
use crate::map::Pos;
use crate::FIXED_TICK_MS;
use vstd::prelude::*;

verus! {

pub const CHILI_PEPPER_SIZE: i64 = 1200;

pub const CHILI_PEPPER_AMMO_COUNT: i32 = 5;

pub const CHILI_PEPPER_SPAWN_RATE_MS: u32 = 2500;

/// Combined pickup radius of a player (half tile) and a chili pepper.
pub const CHILI_PEPPER_HIT_DIST: i64 = 1560;

pub const FIREBALL_RADIUS: i64 = 720;

pub const FIREBALL_DAMAGE: i32 = 5;

pub const FIREBALL_LIFETIME_MS: u32 = 10000;

/// Combined hit radius of a player tile and a fireball.
pub const FIREBALL_HIT_DIST: i64 = crate::TILE_SIZE + FIREBALL_RADIUS;

/// Distance, in units, by which a fireball spawns ahead of its shooter
/// (one and a half tiles along the aim direction).
pub const FIREBALL_SPAWN_OFFSET: i64 = 2880;

pub const STRAWBERRY_SIZE: i64 = 1920;

pub const STRAWBERRY_AMMO_COUNT: i32 = 5;

pub const STRAWBERRY_SPAWN_RATE_MS: u32 = 3500;

pub const STRAWBERRY_HIT_DIST: i64 = 1920;

pub const LETTUCE_SIZE: i64 = 1920;

pub const LETTUCE_HEALTH_GAIN: i32 = 10;

pub const LETTUCE_SPAWN_RATE_MS: u32 = 5000;

pub const LETTUCE_HIT_DIST: i64 = 1920;

pub const PLAYER_HEALTH_MAX: i32 = 100;

pub const PLAYER_HEALTH_MID: i32 = 50;

pub const PLAYER_HEALTH_LOW: i32 = 25;

pub const PLAYER_SPEED_START: i32 = 100;

pub const PLAYER_SPEED_BOOST: i32 = 25;

pub const PLAYER_SPEED_BOOST_MAX: i32 = 25;

pub const PLAYER_SPEED_MAX: i32 = 800;

/// Highest speed a player can reach: one boost above the sprint gate.
pub const PLAYER_SPEED_LIMIT: i32 = PLAYER_SPEED_MAX + PLAYER_SPEED_BOOST;

pub const POOP_SIZE: i64 = 960;

pub const POOP_DAMAGE: i32 = 2;

pub const POOP_LIFETIME_MS: u32 = 10000;

/// Combined contact radius of a player (half tile) and a hazard.
pub const POOP_HIT_DIST: i64 = 1440;

/// A fixed-cadence timer advanced by exactly one tick's worth of
/// milliseconds per tick, never by wall-clock time.
#[derive(Clone, Copy, PartialEq, Eq, Structural, Debug)]
pub struct GameTimer {
    pub elapsed_ms: u32,
    pub duration_ms: u32,
    pub repeating: bool,
}

impl GameTimer {
    pub open spec fn wf(self) -> bool {
        &&& 1 <= self.duration_ms <= 1_000_000
        &&& self.elapsed_ms <= self.duration_ms
        &&& (self.repeating ==> self.elapsed_ms < self.duration_ms)
    }

    /// The timer after one tick: a repeating timer wraps when it completes,
    /// a one-shot timer saturates at its duration.
    pub open spec fn spec_tick(self) -> GameTimer {
        let e = self.elapsed_ms + FIXED_TICK_MS;
        if self.repeating {
            if e >= self.duration_ms {
                GameTimer { elapsed_ms: (e % (self.duration_ms as int)) as u32, ..self }
            } else {
                GameTimer { elapsed_ms: e as u32, ..self }
            }
        } else {
            if e >= self.duration_ms {
                GameTimer { elapsed_ms: self.duration_ms, ..self }
            } else {
                GameTimer { elapsed_ms: e as u32, ..self }
            }
        }
    }

    /// Whether this tick completes the timer.
    pub open spec fn spec_fires(self) -> bool {
        self.elapsed_ms + FIXED_TICK_MS >= self.duration_ms
    }

    /// Whether the timer has completed (meaningful for one-shot timers,
    /// whose elapsed time saturates at the duration).
    pub open spec fn spec_finished(self) -> bool {
        self.elapsed_ms >= self.duration_ms
    }

    /// A fresh repeating timer of the given cadence.
    pub fn repeating(duration_ms: u32) -> (t: GameTimer)
        requires
            1 <= duration_ms <= 1_000_000,
        ensures
            t == (GameTimer { elapsed_ms: 0u32, duration_ms, repeating: true }),
            t.wf(),
    {
        GameTimer { elapsed_ms: 0, duration_ms, repeating: true }
    }

    /// A fresh one-shot timer of the given duration.
    pub fn one_shot(duration_ms: u32) -> (t: GameTimer)
        requires
            1 <= duration_ms <= 1_000_000,
        ensures
            t == (GameTimer { elapsed_ms: 0u32, duration_ms, repeating: false }),
            t.wf(),
    {
        GameTimer { elapsed_ms: 0, duration_ms, repeating: false }
    }

    /// Advances the timer by one tick and reports whether it completed.
    pub fn tick(&mut self) -> (fired: bool)
        requires
            old(self).wf(),
        ensures
            *final(self) == old(self).spec_tick(),
            fired == old(self).spec_fires(),
            final(self).wf(),
    {
        let e: u32 = self.elapsed_ms + FIXED_TICK_MS;
        if self.repeating {
            if e >= self.duration_ms {
                self.elapsed_ms = e % self.duration_ms;
                true
            } else {
                self.elapsed_ms = e;
                false
            }
        } else {
            if e >= self.duration_ms {
                self.elapsed_ms = self.duration_ms;
                true
            } else {
                self.elapsed_ms = e;
                false
            }
        }
    }

    /// Whether the next tick will complete this timer.
    pub fn will_fire(&self) -> (r: bool)
        ensures
            r == self.spec_fires(),
    {
        self.elapsed_ms as u64 + FIXED_TICK_MS as u64 >= self.duration_ms as u64
    }

    /// Whether a one-shot timer has run out.
    pub fn finished(&self) -> (r: bool)
        ensures
            r == self.spec_finished(),
    {
        self.elapsed_ms >= self.duration_ms
    }
}

/// One player slot of the round.  The handle equals the index in the state's
/// player array and never changes.
#[derive(Clone, Copy, PartialEq, Eq, Structural, Debug)]
pub struct Player {
    pub handle: usize,
    /// Cleared once, when health drops to zero; an inactive player is
    /// skipped by movement and combat but kept for win detection.
    pub active: bool,
    pub pos: Pos,
    pub health: i32,
    pub speed: i32,
    /// Sprint charges.
    pub boost: i32,
    /// Ranged ammunition.
    pub ammo: i32,
    /// The edge-triggered readiness gate: armed only while the fire intent
    /// is released, so a held button fires once.
    pub ready: bool,
    pub controls: PlayerControls,
    /// Sprite facing, tracked for rendering only; never read by the pipeline.
    pub facing_left: bool,
    /// Fingerprint of this player's simulation-relevant fields, recomputed
    /// every tick.
    pub checksum: u16,
}

impl Player {
    pub open spec fn wf(self) -> bool {
        &&& self.pos.in_bounds()
        &&& self.health <= PLAYER_HEALTH_MAX
        &&& PLAYER_SPEED_START <= self.speed <= PLAYER_SPEED_LIMIT
        &&& 0 <= self.boost
        &&& 0 <= self.ammo
        &&& self.controls.wf()
    }

    /// A freshly spawned player at its designated spawn point.
    pub open spec fn spec_new(handle: usize, pos: Pos) -> Player {
        Player {
            handle,
            active: true,
            pos,
            health: PLAYER_HEALTH_MAX,
            speed: PLAYER_SPEED_START,
            boost: 0,
            ammo: 0,
            ready: false,
            controls: PlayerControls::spec_default(),
            facing_left: false,
            checksum: 0,
        }
    }

    pub fn new(handle: usize, pos: Pos) -> (p: Player)
        ensures
            p == Player::spec_new(handle, pos),
    {
        Player {
            handle,
            active: true,
            pos,
            health: PLAYER_HEALTH_MAX,
            speed: PLAYER_SPEED_START,
            boost: 0,
            ammo: 0,
            ready: false,
            controls: Default::default(),
            facing_left: false,
            checksum: 0,
        }
    }

    /// Health as a percentage of the maximum, clamped into `[0, 100]`,
    /// for one-way consumers such as health bars.
    pub fn percentage(&self) -> (r: i32)
        ensures
            r == (if self.health < 0 {
                0int
            } else if self.health > PLAYER_HEALTH_MAX {
                100int
            } else {
                self.health * 100 / (PLAYER_HEALTH_MAX as int)
            }),
    {
        if self.health < 0 {
            0
        } else if self.health > PLAYER_HEALTH_MAX {
            100
        } else {
            self.health * 100 / PLAYER_HEALTH_MAX
        }
    }
}

/// A live projectile: owner, aim snapshot, speed snapshot, position and
/// remaining lifetime.
#[derive(Clone, Copy, PartialEq, Eq, Structural, Debug)]
pub struct Fireball {
    pub id: u64,
    pub shot_by: usize,
    pub dir: DirVec,
    /// The shooter's speed at spawn time; later shooter speed changes do not
    /// affect a live projectile.
    pub speed: i32,
    pub pos: Pos,
    pub lifetime: GameTimer,
    /// Marked when the projectile expires or deals damage; removed in the
    /// cleanup pass at the end of the tick.
    pub expired: bool,
}

impl Fireball {
    pub open spec fn wf(self) -> bool {
        &&& self.pos.in_bounds()
        &&& self.dir.bounded()
        &&& PLAYER_SPEED_START <= self.speed <= PLAYER_SPEED_LIMIT
        &&& self.lifetime.wf()
    }
}

/// A stationary hazard that damages any non-owner standing on it.
#[derive(Clone, Copy, PartialEq, Eq, Structural, Debug)]
pub struct PlayerPoop {
    pub id: u64,
    pub shat_by: usize,
    pub pos: Pos,
    pub lifetime: GameTimer,
    pub expired: bool,
}

impl PlayerPoop {
    pub open spec fn wf(self) -> bool {
        &&& self.pos.in_bounds()
        &&& self.lifetime.wf()
    }
}

/// The pickup kinds of the resource economy.
#[derive(Clone, Copy, PartialEq, Eq, Structural, Debug)]
pub enum Edible {
    /// Grants ranged ammunition.
    ChiliPepper,
    /// Grants sprint charges.
    Strawberry,
    /// Restores health, clamped to the maximum.
    Lettuce,
}

/// A spawned pickup awaiting consumption.
#[derive(Clone, Copy, PartialEq, Eq, Structural, Debug)]
pub struct EdibleItem {
    pub id: u64,
    pub kind: Edible,
    pub pos: Pos,
    pub expired: bool,
}

impl EdibleItem {
    pub open spec fn wf(self) -> bool {
        self.pos.in_bounds()
    }
}

/// The three independent repeating spawn timers of the resource economy.
#[derive(Clone, Copy, PartialEq, Eq, Structural, Debug)]
pub struct EdibleSpawnTimer {
    pub chili_pepper_timer: GameTimer,
    pub strawberry_timer: GameTimer,
    pub lettuce_timer: GameTimer,
}

impl EdibleSpawnTimer {
    pub open spec fn wf(self) -> bool {
        &&& self.chili_pepper_timer.wf() && self.chili_pepper_timer.repeating
        &&& self.strawberry_timer.wf() && self.strawberry_timer.repeating
        &&& self.lettuce_timer.wf() && self.lettuce_timer.repeating
    }

    pub open spec fn spec_default() -> EdibleSpawnTimer {
        EdibleSpawnTimer {
            chili_pepper_timer: GameTimer {
                elapsed_ms: 0u32,
                duration_ms: CHILI_PEPPER_SPAWN_RATE_MS,
                repeating: true,
            },
            strawberry_timer: GameTimer {
                elapsed_ms: 0u32,
                duration_ms: STRAWBERRY_SPAWN_RATE_MS,
                repeating: true,
            },
            lettuce_timer: GameTimer {
                elapsed_ms: 0u32,
                duration_ms: LETTUCE_SPAWN_RATE_MS,
                repeating: true,
            },
        }
    }
}

impl Default for EdibleSpawnTimer {
    fn default() -> (t: EdibleSpawnTimer)
        ensures
            t == EdibleSpawnTimer::spec_default(),
            t.wf(),
    {
        EdibleSpawnTimer {
            chili_pepper_timer: GameTimer::repeating(CHILI_PEPPER_SPAWN_RATE_MS),
            strawberry_timer: GameTimer::repeating(STRAWBERRY_SPAWN_RATE_MS),
            lettuce_timer: GameTimer::repeating(LETTUCE_SPAWN_RATE_MS),
        }
    }
}

/// Sound cues the pipeline can issue for the audio collaborator.
#[derive(Clone, Copy, PartialEq, Eq, Structural, Debug)]
pub enum SoundKind {
    FireballShot,
    Sprinting,
    Pickup,
}

/// One audio trigger: which sound, the tick it was issued on, and a stable
/// per-instance sub-key (the spawn id of the entity that caused it).
#[derive(Clone, Copy, PartialEq, Eq, Structural, Debug)]
pub struct AudioEvent {
    pub sound: SoundKind,
    pub frame: u32,
    pub sub_key: u64,
}

/// The authoritative, fully re-entrant simulation state of one round.
#[derive(Clone, Debug, PartialEq)]
pub struct GameState {
    pub frame: u32,
    /// Next spawn id; strictly greater than the id of every live entity.
    pub next_id: u64,
    /// Players in ascending handle order; `players[h].handle == h`.
    pub players: Vec<Player>,
    /// Projectiles in ascending spawn order.
    pub fireballs: Vec<Fireball>,
    /// Hazards in ascending spawn order.
    pub poops: Vec<PlayerPoop>,
    /// Pickups in ascending spawn order.
    pub edibles: Vec<EdibleItem>,
    pub timers: EdibleSpawnTimer,
}

impl GameState {
    pub open spec fn wf(self) -> bool {
        &&& forall|i: int|
            0 <= i < self.players@.len() ==> (#[trigger] self.players@[i]).wf()
                && self.players@[i].handle == i
        &&& forall|i: int|
            0 <= i < self.fireballs@.len() ==> (#[trigger] self.fireballs@[i]).wf()
                && self.fireballs@[i].id < self.next_id
        &&& forall|i: int|
            0 <= i < self.poops@.len() ==> (#[trigger] self.poops@[i]).wf()
                && self.poops@[i].id < self.next_id
        &&& forall|i: int|
            0 <= i < self.edibles@.len() ==> (#[trigger] self.edibles@[i]).wf()
                && self.edibles@[i].id < self.next_id
        &&& self.timers.wf()
    }

    /// Every player's stored checksum matches its simulation-relevant
    /// fields; true at the end of every tick.
    pub open spec fn checksums_current(self) -> bool {
        forall|i: int|
            0 <= i < self.players@.len() ==> (#[trigger] self.players@[i]).checksum
                == spec_player_checksum(self.players@[i])
    }
}

} // verus!
