//! Order-stable state fingerprint, recomputed every tick.
//!
//! A player's simulation-relevant fields are serialized into a byte
//! sequence in a fixed, documented order — the x coordinate, the y
//! coordinate (eight little-endian bytes each), then health, ammunition
//! and sprint charges (four little-endian bytes each), every value
//! offset-shifted out of two's complement — and folded through a 16-bit
//! running checksum: two accumulators, each kept modulo 255, combined into
//! the high and low halves of the result.  Speed and the firing readiness
//! flag are left out on purpose: both legitimately change on a tick in
//! which nothing happens (speed decays toward its start value, readiness
//! returns), and the checksum must be stable across no-op ticks.

use vstd::prelude::*;

verus! {

/// One step of the running checksum: absorb one byte into the accumulators.
pub open spec fn spec_fletcher_step(acc: (int, int), b: u8) -> (int, int) {
    (
        (acc.0 + b) % 255,
        (acc.1 + (acc.0 + b) % 255) % 255,
    )
}

/// Accumulator pair after absorbing every byte of `bytes`, starting from
/// `(0, 0)`.
pub open spec fn spec_fletcher_fold(bytes: Seq<u8>) -> (int, int)
    decreases bytes.len(),
{
    if bytes.len() == 0 {
        (0int, 0int)
    } else {
        spec_fletcher_step(spec_fletcher_fold(bytes.drop_last()), bytes.last())
    }
}

/// The 16-bit checksum of a byte sequence: second accumulator in the high
/// byte, first accumulator in the low byte.
pub open spec fn spec_fletcher16(bytes: Seq<u8>) -> int {
    spec_fletcher_fold(bytes).1 * 256 + spec_fletcher_fold(bytes).0
}

proof fn lemma_fletcher_fold_bounds(bytes: Seq<u8>)
    ensures
        0 <= spec_fletcher_fold(bytes).0 < 255,
        0 <= spec_fletcher_fold(bytes).1 < 255,
    decreases bytes.len(),
{
    if bytes.len() > 0 {
        lemma_fletcher_fold_bounds(bytes.drop_last());
    }
}

/// Computes the 16-bit running checksum of `bytes`.
pub fn fletcher16(bytes: &Vec<u8>) -> (r: u16)
    ensures
        r == spec_fletcher16(bytes@),
{
    let mut s1: u16 = 0;
    let mut s2: u16 = 0;
    let mut i: usize = 0;
    while i < bytes.len()
        invariant
            i <= bytes@.len(),
            s1 < 255,
            s2 < 255,
            (s1 as int, s2 as int) == spec_fletcher_fold(bytes@.take(i as int)),
        decreases bytes@.len() - i,
    {
        let b = bytes[i];
        s1 = (s1 + b as u16) % 255;
        s2 = (s2 + s1) % 255;
        proof {
            assert(bytes@.take(i + 1).drop_last() =~= bytes@.take(i as int));
            assert(bytes@.take(i + 1).last() == bytes@[i as int]);
        }
        i = i + 1;
    }
    proof {
        assert(bytes@.take(bytes@.len() as int) =~= bytes@);
    }
    s2 * 256 + s1
}

/// A coordinate shifted so that the whole `i64` range maps into `u64`:
/// the serialized form of `x` is the offset value `x + 2^63`.
pub open spec fn spec_offset_u64(x: i64) -> u64 {
    (x + 0x8000_0000_0000_0000) as u64
}

/// The `k` low-order bytes of `v`, least significant first.
pub open spec fn spec_le_bytes(v: u64, k: nat) -> Seq<u8>
    decreases k,
{
    if k == 0 {
        Seq::empty()
    } else {
        seq![(v % 256) as u8] + spec_le_bytes(v / 256, (k - 1) as nat)
    }
}

/// The eight serialized bytes of one coordinate.
pub open spec fn spec_coord_bytes(x: i64) -> Seq<u8> {
    spec_le_bytes(spec_offset_u64(x), 8)
}

/// A counter shifted so that the whole `i32` range maps into `u32`.
pub open spec fn spec_offset_u32(v: i32) -> u32 {
    (v + 0x8000_0000) as u32
}

/// The four serialized bytes of one counter field.
pub open spec fn spec_field_bytes(v: i32) -> Seq<u8> {
    spec_le_bytes(spec_offset_u32(v) as u64, 4)
}

/// The serialized simulation-relevant bytes of one player, in the fixed
/// field order: x, y, health, ammunition, sprint charges.
pub open spec fn spec_player_bytes(p: crate::state::Player) -> Seq<u8> {
    spec_coord_bytes(p.pos.x) + spec_coord_bytes(p.pos.y) + spec_field_bytes(p.health)
        + spec_field_bytes(p.ammo) + spec_field_bytes(p.boost)
}

/// The per-player checksum: the 16-bit checksum of its serialized fields.
pub open spec fn spec_player_checksum(p: crate::state::Player) -> int {
    spec_fletcher16(spec_player_bytes(p))
}

fn push_le_bytes(out: &mut Vec<u8>, v: u64, k: usize)
    ensures
        final(out)@ == old(out)@ + spec_le_bytes(v, k as nat),
    decreases k,
{
    if k > 0 {
        out.push((v % 256) as u8);
        push_le_bytes(out, v / 256, k - 1);
        proof {
            assert(out@ =~= old(out)@ + spec_le_bytes(v, k as nat));
        }
    } else {
        proof {
            assert(out@ =~= old(out)@ + spec_le_bytes(v, 0));
        }
    }
}

fn push_coord_bytes(out: &mut Vec<u8>, x: i64)
    ensures
        final(out)@ == old(out)@ + spec_coord_bytes(x),
{
    let v: u64 = ((x as i128) + 0x8000_0000_0000_0000i128) as u64;
    push_le_bytes(out, v, 8);
}

fn push_field_bytes(out: &mut Vec<u8>, v: i32)
    ensures
        final(out)@ == old(out)@ + spec_field_bytes(v),
{
    let u: u32 = ((v as i64) + 0x8000_0000i64) as u32;
    push_le_bytes(out, u as u64, 4);
}

/// One player after the checksum stage: its stored fingerprint is
/// recomputed from its simulation-relevant fields; nothing else changes.
pub open spec fn spec_checksum_player(p: crate::state::Player) -> crate::state::Player {
    crate::state::Player { checksum: spec_player_checksum(p) as u16, ..p }
}

pub open spec fn spec_checksum_from(players: Seq<crate::state::Player>, i: int) -> Seq<
    crate::state::Player,
>
    decreases players.len() - i,
{
    if i < 0 || i >= players.len() {
        players
    } else {
        spec_checksum_from(players.update(i, spec_checksum_player(players[i])), i + 1)
    }
}

/// The checksum stage: recomputes every player's fingerprint from its
/// simulation-relevant fields, in ascending handle order, so the host can
/// compare state across peers each tick.
pub fn checksum_players(players: &mut Vec<crate::state::Player>)
    ensures
        final(players)@ == spec_checksum_from(old(players)@, 0),
        final(players)@.len() == old(players)@.len(),
        forall|k: int|
            0 <= k < final(players)@.len() ==> old(players)@[k].wf() ==> (
            #[trigger] final(players)@[k]).wf(),
        forall|k: int|
            0 <= k < final(players)@.len() ==> (#[trigger] final(players)@[k]).handle
                == old(players)@[k].handle,
        forall|k: int|
            0 <= k < final(players)@.len() ==> (#[trigger] final(players)@[k]).checksum
                == spec_player_checksum(old(players)@[k]),
        forall|k: int|
            0 <= k < final(players)@.len() ==> (#[trigger] final(players)@[k])
                == spec_checksum_player(old(players)@[k]),
{
    let n = players.len();
    let mut i: usize = 0;
    while i < n
        invariant
            i <= n,
            players@.len() == n,
            spec_checksum_from(players@, i as int) == spec_checksum_from(old(players)@, 0),
            forall|k: int|
                0 <= k < n ==> old(players)@[k].wf() ==> (#[trigger] players@[k]).wf(),
            forall|k: int|
                0 <= k < n ==> (#[trigger] players@[k]).handle == old(players)@[k].handle,
            forall|k: int|
                0 <= k < i ==> (#[trigger] players@[k]).checksum == spec_player_checksum(
                    old(players)@[k],
                ),
            forall|k: int|
                0 <= k < i ==> (#[trigger] players@[k]) == spec_checksum_player(
                    old(players)@[k],
                ),
            forall|k: int| i <= k < n ==> players@[k] == old(players)@[k],
        decreases n - i,
    {
        let p = players[i];
        let ghost pre = players@;
        let c = player_checksum(&p);
        players.set(i, crate::state::Player { checksum: c, ..p });
        proof {
            assert(players@ =~= pre.update(i as int, spec_checksum_player(pre[i as int])));
        }
        i = i + 1;
    }
}

/// The checksum value always fits in sixteen bits.
pub proof fn lemma_player_checksum_bounds(p: crate::state::Player)
    ensures
        0 <= spec_player_checksum(p) < 0x10000,
{
    lemma_fletcher_fold_bounds(spec_player_bytes(p));
}

/// Computes the checksum of one player's simulation-relevant fields, in
/// the fixed serialization order.
pub fn player_checksum(p: &crate::state::Player) -> (r: u16)
    ensures
        r == spec_player_checksum(*p),
{
    let mut bytes: Vec<u8> = Vec::new();
    push_coord_bytes(&mut bytes, p.pos.x);
    push_coord_bytes(&mut bytes, p.pos.y);
    push_field_bytes(&mut bytes, p.health);
    push_field_bytes(&mut bytes, p.ammo);
    push_field_bytes(&mut bytes, p.boost);
    proof {
        assert(bytes@ =~= spec_player_bytes(*p));
    }
    fletcher16(&bytes)
}

} // verus!
