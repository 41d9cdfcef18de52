//! Game configuration and the validation primitives every operation relies
//! on: saturating cooldown checks, forward-only clocks, one-shot bit claims.
use vstd::prelude::*;

verus! {

// Arena match configuration.
pub const MAX_ROUNDS: u8 = 3;
pub const WINS_NEEDED: u8 = 2;
pub const HP_PER_ROUND: u8 = 3;
/// Ticks in one round (sixty seconds at twenty ticks a second).
pub const ROUND_TICKS: u32 = 1200;
/// Ticks that must pass between two hits on the same player.
pub const DAMAGE_COOLDOWN_TICKS: u32 = 10;
pub const MAX_DAMAGE_PER_HIT: u8 = 1;

// Derby configuration.
pub const DERBY_MAX_LAPS: u8 = 3;
pub const DERBY_CHECKPOINT_COUNT: u8 = 4;
pub const DERBY_MAX_OBSTACLES: u8 = 10;
pub const DERBY_MAX_BOOSTS: u8 = 8;
pub const DERBY_MAX_GOLD: u8 = 15;
/// Last tick a race accepts input for (five minutes at twenty ticks a second).
pub const DERBY_MAX_TICKS: u32 = 6000;
pub const DERBY_BOOST_DURATION_TICKS: u32 = 100;

/// Ticks elapsed from `last` to `current`, zero when `last` lies ahead.
pub open spec fn ticks_since(current: u32, last: u32) -> int {
    if current >= last {
        current - last
    } else {
        0
    }
}

/// The later of two ticks.
pub open spec fn later_tick(a: u32, b: u32) -> u32 {
    if a >= b {
        a
    } else {
        b
    }
}

/// The 16-bit mask with only bit `i` set.
pub open spec fn bit16(i: u8) -> u16 {
    (1u16 << i) as u16
}

/// The 8-bit mask with only bit `i` set.
pub open spec fn bit8(i: u8) -> u8 {
    (1u8 << i) as u8
}

/// Whether at least `cooldown` ticks separate `last` from `current`; the
/// difference saturates at zero, so a `last` ahead of `current` never passes
/// a non-zero cooldown.
pub fn cooldown_elapsed(current: u32, last: u32, cooldown: u32) -> (r: bool)
    ensures
        r == (ticks_since(current, last) >= cooldown),
{
    current.saturating_sub(last) >= cooldown
}

/// Moves a clock forward to `reported` when that is later; never backward.
pub fn adopt_tick(current: u32, reported: u32) -> (r: u32)
    ensures
        r == later_tick(current, reported),
        r >= current,
{
    if reported > current {
        reported
    } else {
        current
    }
}

/// Claims slot `index` of a 16-bit mask: the mask with that bit set, or
/// `None` when the slot was claimed before.
pub fn claim_bit16(mask: u16, index: u8) -> (r: Option<u16>)
    requires
        index < 16,
    ensures
        r is None <==> mask & bit16(index) != 0,
        r matches Some(m) ==> m == mask | bit16(index),
{
    let bit: u16 = 1u16 << index;
    if mask & bit != 0 {
        None
    } else {
        Some(mask | bit)
    }
}

/// Claims slot `index` of an 8-bit mask: the mask with that bit set, or
/// `None` when the slot was claimed before.
pub fn claim_bit8(mask: u8, index: u8) -> (r: Option<u8>)
    requires
        index < 8,
    ensures
        r is None <==> mask & bit8(index) != 0,
        r matches Some(m) ==> m == mask | bit8(index),
{
    let bit: u8 = 1u8 << index;
    if mask & bit != 0 {
        None
    } else {
        Some(mask | bit)
    }
}

/// A claimed slot stays claimed when other slots are claimed after it.
pub proof fn lemma_claim16_keeps(mask: u16, i: u8, j: u8)
    requires
        i < 16,
        j < 16,
        mask & bit16(i) != 0,
    ensures
        (mask | bit16(j)) & bit16(i) != 0,
{
    assert((mask & (1u16 << i)) != 0 && i < 16 && j < 16 ==> ((mask | (1u16 << j)) & (1u16 << i)) != 0) by (bit_vector);
}

/// A claimed slot stays claimed when other slots are claimed after it.
pub proof fn lemma_claim8_keeps(mask: u8, i: u8, j: u8)
    requires
        i < 8,
        j < 8,
        mask & bit8(i) != 0,
    ensures
        (mask | bit8(j)) & bit8(i) != 0,
{
    assert((mask & (1u8 << i)) != 0 && i < 8 && j < 8 ==> ((mask | (1u8 << j)) & (1u8 << i)) != 0) by (bit_vector);
}

/// Claiming a slot marks it as claimed.
pub proof fn lemma_claim16_sets(mask: u16, i: u8)
    requires
        i < 16,
    ensures
        (mask | bit16(i)) & bit16(i) != 0,
{
    assert(i < 16 ==> ((mask | (1u16 << i)) & (1u16 << i)) != 0) by (bit_vector);
}

/// Claiming a slot marks it as claimed.
pub proof fn lemma_claim8_sets(mask: u8, i: u8)
    requires
        i < 8,
    ensures
        (mask | bit8(i)) & bit8(i) != 0,
{
    assert(i < 8 ==> ((mask | (1u8 << i)) & (1u8 << i)) != 0) by (bit_vector);
}

} // verus!
