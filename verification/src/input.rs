//! Per-tick input resolution.
//!
//! The transport layer hands the simulation one 8-bit mask per player plus a
//! status tag.  A disconnected player's mask is replaced by the neutral mask
//! before decoding, so a dropped peer is a deterministic no-op rather than an
//! error.  Masks decode into orthogonal intents; a diagonal direction is
//! normalized so that no combination of key bits moves a player faster than a
//! single axis does.
//!
//! Direction components are scaled by `DIR_UNIT`: a cardinal direction has a
//! component of `±DIR_UNIT`, a diagonal one has both components `±DIR_DIAG`
//! (`DIR_DIAG / DIR_UNIT` approximating `1 / sqrt(2)` from below).

use vstd::prelude::*;

verus! {

pub const INPUT_UP: u8 = 0x01;
pub const INPUT_DOWN: u8 = 0x02;
pub const INPUT_LEFT: u8 = 0x04;
pub const INPUT_RIGHT: u8 = 0x08;
pub const INPUT_FIRE: u8 = 0x10;
pub const INPUT_EXIT: u8 = 0x20;
pub const INPUT_SPRINT: u8 = 0x40;

/// Scale of a unit direction component.
pub const DIR_UNIT: i32 = 1000;

/// Component of a normalized diagonal direction (1000 / sqrt(2), rounded
/// down so that a diagonal step is never faster than a cardinal one).
pub const DIR_DIAG: i32 = 707;

/// Delivery status of one player's input for one tick.
#[derive(Clone, Copy, PartialEq, Eq, Structural, Debug)]
pub enum InputStatus {
    /// The authoritative input of that player for this tick.
    Confirmed,
    /// A guess by the rollback layer; the tick may be re-simulated later.
    Predicted,
    /// The player is gone; the simulation substitutes the neutral input.
    Disconnected,
}

/// The raw per-tick input of one player: a bitmask of pressed intents.
#[derive(Clone, Copy, PartialEq, Eq, Structural, Debug)]
pub struct PlayerInput {
    pub input: u8,
}

/// A direction vector with components scaled by `DIR_UNIT`.
#[derive(Clone, Copy, PartialEq, Eq, Structural, Debug)]
pub struct DirVec {
    pub x: i32,
    pub y: i32,
}

impl DirVec {
    /// The zero direction.
    pub open spec fn spec_zero() -> DirVec {
        DirVec { x: 0, y: 0 }
    }

    pub fn zero() -> (d: DirVec)
        ensures
            d == DirVec::spec_zero(),
    {
        DirVec { x: 0, y: 0 }
    }

    /// Every direction this module produces has components bounded by one
    /// unit in magnitude.
    pub open spec fn bounded(self) -> bool {
        -DIR_UNIT <= self.x <= DIR_UNIT && -DIR_UNIT <= self.y <= DIR_UNIT
    }

    pub open spec fn is_zero(self) -> bool {
        self.x == 0 && self.y == 0
    }
}

/// The structured per-frame intent of one player, decoded from its mask.
#[derive(Clone, Copy, PartialEq, Eq, Structural, Debug)]
pub struct PlayerControls {
    /// Normalized movement direction for this tick.
    pub dir: DirVec,
    /// Last nonzero direction, used to aim projectiles while standing still.
    pub last_dir: DirVec,
    pub exiting: bool,
    pub shooting: bool,
    pub sprinting: bool,
}

impl PlayerControls {
    /// The neutral intent: no direction held yet, no action flags.
    pub open spec fn spec_default() -> PlayerControls {
        PlayerControls {
            dir: DirVec::spec_zero(),
            last_dir: DirVec::spec_zero(),
            exiting: false,
            shooting: false,
            sprinting: false,
        }
    }

    pub open spec fn wf(self) -> bool {
        self.dir.bounded() && self.last_dir.bounded()
    }

    /// Whether the player moves this tick.  One-way consumers read it to
    /// gate the walking-loop sound; nothing in the pipeline does.
    pub fn is_moving(&self) -> (r: bool)
        ensures
            r == !self.dir.is_zero(),
    {
        self.dir.x != 0 || self.dir.y != 0
    }
}

impl Default for PlayerControls {
    fn default() -> (c: PlayerControls)
        ensures
            c == PlayerControls::spec_default(),
    {
        PlayerControls {
            dir: DirVec::zero(),
            last_dir: DirVec::zero(),
            exiting: false,
            shooting: false,
            sprinting: false,
        }
    }
}

/// The mask actually applied for a player: a disconnected player contributes
/// the neutral mask, a confirmed or predicted one contributes its own.
pub open spec fn spec_resolved_mask(input: PlayerInput, status: InputStatus) -> u8 {
    match status {
        InputStatus::Disconnected => 0u8,
        _ => input.input,
    }
}

/// The normalized direction encoded by a mask: opposed bits cancel, and a
/// diagonal is scaled down to unit length.
pub open spec fn spec_dir_from_mask(mask: u8) -> DirVec {
    let xr: int = (if mask & INPUT_RIGHT != 0 { 1int } else { 0int }) - (if mask & INPUT_LEFT != 0 { 1int } else { 0int });
    let yr: int = (if mask & INPUT_UP != 0 { 1int } else { 0int }) - (if mask & INPUT_DOWN != 0 { 1int } else { 0int });
    if xr != 0 && yr != 0 {
        DirVec { x: (DIR_DIAG * xr) as i32, y: (DIR_DIAG * yr) as i32 }
    } else {
        DirVec { x: (DIR_UNIT * xr) as i32, y: (DIR_UNIT * yr) as i32 }
    }
}

/// Decodes the direction bits of `mask`.
pub fn dir_from_mask(mask: u8) -> (d: DirVec)
    ensures
        d == spec_dir_from_mask(mask),
        d.bounded(),
{
    let xr: i32 = (if mask & INPUT_RIGHT != 0 { 1i32 } else { 0i32 }) - (if mask & INPUT_LEFT != 0 { 1i32 } else { 0i32 });
    let yr: i32 = (if mask & INPUT_UP != 0 { 1i32 } else { 0i32 }) - (if mask & INPUT_DOWN != 0 { 1i32 } else { 0i32 });
    if xr != 0 && yr != 0 {
        DirVec { x: DIR_DIAG * xr, y: DIR_DIAG * yr }
    } else {
        DirVec { x: DIR_UNIT * xr, y: DIR_UNIT * yr }
    }
}

/// The intent record after decoding `mask` on top of the previous controls:
/// the direction is replaced, the last nonzero direction is remembered, and
/// the action flags follow the mask bits exactly.
pub open spec fn spec_controls_update(prev: PlayerControls, mask: u8) -> PlayerControls {
    let d = spec_dir_from_mask(mask);
    PlayerControls {
        dir: d,
        last_dir: if d.is_zero() { prev.last_dir } else { d },
        shooting: mask & INPUT_FIRE != 0,
        sprinting: mask & INPUT_SPRINT != 0,
        exiting: mask & INPUT_EXIT != 0,
    }
}

/// Decodes one resolved mask into the player's intent record.
pub fn controls_update(prev: PlayerControls, mask: u8) -> (c: PlayerControls)
    ensures
        c == spec_controls_update(prev, mask),
{
    let d = dir_from_mask(mask);
    PlayerControls {
        dir: d,
        last_dir: if d.x == 0 && d.y == 0 { prev.last_dir } else { d },
        shooting: mask & INPUT_FIRE != 0,
        sprinting: mask & INPUT_SPRINT != 0,
        exiting: mask & INPUT_EXIT != 0,
    }
}

/// One player after the input stage: its intent record is replaced by the
/// decoded intents of its resolved mask; nothing else changes.
pub open spec fn spec_player_after_input(
    p: crate::state::Player,
    input: (PlayerInput, InputStatus),
) -> crate::state::Player {
    crate::state::Player {
        controls: spec_controls_update(p.controls, spec_resolved_mask(input.0, input.1)),
        ..p
    }
}

/// The player roster after resolving inputs for every handle from `i` up.
pub open spec fn spec_apply_inputs_from(
    players: Seq<crate::state::Player>,
    inputs: Seq<(PlayerInput, InputStatus)>,
    i: int,
) -> Seq<crate::state::Player>
    decreases players.len() - i,
{
    if i < 0 || i >= players.len() {
        players
    } else {
        spec_apply_inputs_from(
            players.update(i, spec_player_after_input(players[i], inputs[i])),
            inputs,
            i + 1,
        )
    }
}

/// The input resolver stage: writes each player's per-frame intent record
/// from that handle's resolved input, in ascending handle order.  Pure per
/// player; a disconnected handle deterministically decodes the neutral mask.
pub fn apply_inputs(
    players: &mut Vec<crate::state::Player>,
    inputs: &Vec<(PlayerInput, InputStatus)>,
)
    requires
        inputs@.len() == old(players)@.len(),
        forall|k: int| 0 <= k < old(players)@.len() ==> (#[trigger] old(players)@[k]).wf(),
    ensures
        final(players)@ == spec_apply_inputs_from(old(players)@, inputs@, 0),
        final(players)@.len() == old(players)@.len(),
        forall|k: int| 0 <= k < final(players)@.len() ==> (#[trigger] final(players)@[k]).wf(),
        forall|k: int|
            0 <= k < final(players)@.len() ==> (#[trigger] final(players)@[k]).handle
                == old(players)@[k].handle,
{
    let n = players.len();
    let mut i: usize = 0;
    while i < n
        invariant
            i <= n,
            players@.len() == n,
            spec_apply_inputs_from(players@, inputs@, i as int)
                == spec_apply_inputs_from(old(players)@, inputs@, 0),
            forall|k: int| 0 <= k < n ==> (#[trigger] players@[k]).wf(),
            forall|k: int|
                0 <= k < n ==> (#[trigger] players@[k]).handle == old(players)@[k].handle,
            forall|k: int| i <= k < n ==> players@[k] == old(players)@[k],
        decreases n - i,
    {
        let p = players[i];
        let status = inputs[i].1;
        let mask: u8 = match status {
            InputStatus::Disconnected => 0,
            _ => inputs[i].0.input,
        };
        let c = controls_update(p.controls, mask);
        let ghost pre = players@;
        players.set(i, crate::state::Player { controls: c, ..p });
        proof {
            assert(players@ == pre.update(i as int, spec_player_after_input(pre[i as int], inputs@[i as int])));
        }
        i = i + 1;
    }
}

/// No diagonal speed bonus: whatever combination of direction bits a mask
/// holds, the decoded direction vector has length at most one unit.
pub proof fn lemma_no_diagonal_speed_bonus(mask: u8)
    ensures
        spec_dir_from_mask(mask).x * spec_dir_from_mask(mask).x
            + spec_dir_from_mask(mask).y * spec_dir_from_mask(mask).y
            <= DIR_UNIT * DIR_UNIT,
{
    let d = spec_dir_from_mask(mask);
    assert(d.x == 0 || d.x == 707 || d.x == -707 || d.x == 1000 || d.x == -1000);
    assert(d.y == 0 || d.y == 707 || d.y == -707 || d.y == 1000 || d.y == -1000);
    assert(d.x == 1000 || d.x == -1000 ==> d.y == 0);
    assert(d.y == 1000 || d.y == -1000 ==> d.x == 0);
    assert(d.x * d.x + d.y * d.y <= 1000 * 1000) by (nonlinear_arith)
        requires
            (d.x == 0 || d.x == 707 || d.x == -707 || d.x == 1000 || d.x == -1000)
                && (d.y == 0 || d.y == 707 || d.y == -707 || d.y == 1000 || d.y == -1000)
                && ((d.x == 1000 || d.x == -1000) ==> d.y == 0)
                && ((d.y == 1000 || d.y == -1000) ==> d.x == 0),
    ;
}

} // verus!
