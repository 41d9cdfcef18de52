//! The derby: one player's race over a fixed number of laps, with checkpoints
//! to pass on every lap and one-shot gold and boost pickups, refereed by a game
//! server that reports each race event.
use vstd::prelude::*;

use crate::key::Key;
use crate::rules::{
    adopt_tick, bit16, bit8, claim_bit16, claim_bit8, later_tick, DERBY_BOOST_DURATION_TICKS,
    DERBY_CHECKPOINT_COUNT, DERBY_MAX_BOOSTS, DERBY_MAX_GOLD, DERBY_MAX_LAPS, DERBY_MAX_TICKS,
};

verus! {

/// Lifecycle of a derby race. No operation here cancels a race, but a
/// cancelled race may be settled and closed like a finished one.
#[derive(Clone, Copy, Debug, PartialEq, Eq, Structural)]
pub enum DerbyStatus {
    Created,
    Racing,
    Finished,
    Cancelled,
}

impl DerbyStatus {
    /// Whether a race in this status is over: finished, or cancelled.
    pub fn is_over(&self) -> (r: bool)
        ensures
            r == (*self == DerbyStatus::Finished || *self == DerbyStatus::Cancelled),
    {
        *self == DerbyStatus::Finished || *self == DerbyStatus::Cancelled
    }
}

impl Default for DerbyStatus {
    fn default() -> (s: DerbyStatus)
        ensures
            s == DerbyStatus::Created,
    {
        DerbyStatus::Created
    }
}

/// An event of the race, reported by the game server.
#[derive(Clone, Copy, Debug, PartialEq, Eq, Structural)]
pub enum DerbyAction {
    RecordCollision,
    CollectGold { item_index: u8 },
    CollectBoost { item_index: u8 },
    PassCheckpoint { checkpoint_id: u8 },
    CompleteLap,
    FinishRace,
}

/// Why a derby operation was refused. A refused operation changes nothing.
#[derive(Clone, Copy, Debug, PartialEq, Eq, Structural)]
pub enum DerbyError {
    InvalidDerbyState,
    RaceNotActive,
    RaceNotFinished,
    RaceTimedOut,
    InvalidItemIndex,
    ItemAlreadyCollected,
    InvalidCheckpoint,
    MissingCheckpoints,
    LapsNotComplete,
    UnauthorizedServer,
}

impl DerbyError {
    /// A short human-readable description of the error.
    pub fn message(&self) -> &'static str {
        match self {
            DerbyError::InvalidDerbyState => "Invalid derby state for this action",
            DerbyError::RaceNotActive => "Race is not active",
            DerbyError::RaceNotFinished => "Race is not finished or cancelled",
            DerbyError::RaceTimedOut => "Race timed out",
            DerbyError::InvalidItemIndex => "Invalid item index",
            DerbyError::ItemAlreadyCollected => "Item already collected",
            DerbyError::InvalidCheckpoint => "Invalid checkpoint ID",
            DerbyError::MissingCheckpoints => "Not all checkpoints passed",
            DerbyError::LapsNotComplete => "Not all laps complete",
            DerbyError::UnauthorizedServer => "Unauthorized game server",
        }
    }
}

/// One race of one player, refereed by a game server.
///
/// `gold_bitmask` and `boost_bitmask` record which item slots were claimed over
/// the whole race; `checkpoints_passed` records the checkpoints of the current
/// lap only.
#[derive(Clone, Copy, Debug)]
pub struct DerbyRaceState {
    pub race_id: u64,
    pub game_server: Key,
    pub player: Key,
    pub vrf_seed: [u8; 32],
    pub status: DerbyStatus,
    pub current_tick: u32,
    pub current_lap: u8,
    pub checkpoints_passed: u8,
    pub collisions: u16,
    pub gold_collected: u8,
    pub boosts_collected: u8,
    pub boost_end_tick: u32,
    pub finish_tick: u32,
    pub gold_bitmask: u16,
    pub boost_bitmask: u8,
    pub created_at: i64,
    pub settled_at: i64,
}

/// The checkpoint mask of a lap on which every checkpoint was passed: one bit
/// for each of the `DERBY_CHECKPOINT_COUNT` checkpoints.
pub const ALL_CHECKPOINTS: u8 = 0b1111;

impl DerbyRaceState {
    /// The record's invariant: only the race's checkpoints can be marked, the
    /// lap count stays within the race's laps, and the clock of a race not yet
    /// started is at zero.
    pub open spec fn wf(&self) -> bool {
        &&& self.checkpoints_passed <= ALL_CHECKPOINTS
        &&& self.current_lap <= DERBY_MAX_LAPS
        &&& self.status == DerbyStatus::Created ==> self.current_tick == 0
    }

    /// Executable check of the invariant, for records that come from outside.
    pub fn is_well_formed(&self) -> (r: bool)
        ensures
            r == self.wf(),
    {
        self.checkpoints_passed <= ALL_CHECKPOINTS && self.current_lap <= DERBY_MAX_LAPS && (
        self.status != DerbyStatus::Created || self.current_tick == 0)
    }
}

/// The lap count after one more lap, held at the race's number of laps.
pub open spec fn next_lap(lap: u8) -> u8 {
    if lap < DERBY_MAX_LAPS {
        (lap + 1) as u8
    } else {
        DERBY_MAX_LAPS
    }
}

/// `x + 1`, held at the largest `u8`.
pub open spec fn inc_u8(x: u8) -> u8 {
    if x < u8::MAX {
        (x + 1) as u8
    } else {
        u8::MAX
    }
}

/// `x + 1`, held at the largest `u16`.
pub open spec fn inc_u16(x: u16) -> u16 {
    if x < u16::MAX {
        (x + 1) as u16
    } else {
        u16::MAX
    }
}

/// `x + y`, held at the largest `u32`.
pub open spec fn sat_add_u32(x: u32, y: u32) -> u32 {
    if x + y <= u32::MAX {
        (x + y) as u32
    } else {
        u32::MAX
    }
}

/// What the server's report of `action` answers, on a racing record.
pub open spec fn action_result(d: DerbyRaceState, action: DerbyAction) -> Result<(), DerbyError> {
    match action {
        DerbyAction::RecordCollision => Ok(()),
        DerbyAction::CollectGold { item_index } => if item_index >= DERBY_MAX_GOLD {
            Err(DerbyError::InvalidItemIndex)
        } else if d.gold_bitmask & bit16(item_index) != 0 {
            Err(DerbyError::ItemAlreadyCollected)
        } else {
            Ok(())
        },
        DerbyAction::CollectBoost { item_index } => if item_index >= DERBY_MAX_BOOSTS {
            Err(DerbyError::InvalidItemIndex)
        } else if d.boost_bitmask & bit8(item_index) != 0 {
            Err(DerbyError::ItemAlreadyCollected)
        } else {
            Ok(())
        },
        DerbyAction::PassCheckpoint { checkpoint_id } => if checkpoint_id
            >= DERBY_CHECKPOINT_COUNT {
            Err(DerbyError::InvalidCheckpoint)
        } else {
            Ok(())
        },
        DerbyAction::CompleteLap => if d.checkpoints_passed != ALL_CHECKPOINTS {
            Err(DerbyError::MissingCheckpoints)
        } else {
            Ok(())
        },
        DerbyAction::FinishRace => if d.current_lap < DERBY_MAX_LAPS {
            Err(DerbyError::LapsNotComplete)
        } else {
            Ok(())
        },
    }
}

/// What `derby_server_update` answers.
pub open spec fn update_result(d: DerbyRaceState, actor: Key, action: DerbyAction) -> Result<
    (),
    DerbyError,
> {
    if actor != d.game_server {
        Err(DerbyError::UnauthorizedServer)
    } else if d.status != DerbyStatus::Racing {
        Err(DerbyError::RaceNotActive)
    } else {
        action_result(d, action)
    }
}

/// The record after the server's report of `action` is accepted at time `now`.
pub open spec fn after_action(d: DerbyRaceState, action: DerbyAction, now: i64) -> DerbyRaceState {
    match action {
        DerbyAction::RecordCollision => DerbyRaceState { collisions: inc_u16(d.collisions), ..d },
        DerbyAction::CollectGold { item_index } => DerbyRaceState {
            gold_bitmask: d.gold_bitmask | bit16(item_index),
            gold_collected: inc_u8(d.gold_collected),
            ..d
        },
        DerbyAction::CollectBoost { item_index } => DerbyRaceState {
            boost_bitmask: d.boost_bitmask | bit8(item_index),
            boosts_collected: inc_u8(d.boosts_collected),
            boost_end_tick: sat_add_u32(d.current_tick, DERBY_BOOST_DURATION_TICKS),
            ..d
        },
        DerbyAction::PassCheckpoint { checkpoint_id } => DerbyRaceState {
            checkpoints_passed: d.checkpoints_passed | bit8(checkpoint_id),
            ..d
        },
        DerbyAction::CompleteLap => DerbyRaceState {
            current_lap: next_lap(d.current_lap),
            checkpoints_passed: 0,
            ..d
        },
        DerbyAction::FinishRace => DerbyRaceState {
            status: DerbyStatus::Finished,
            finish_tick: d.current_tick,
            settled_at: now,
            ..d
        },
    }
}

/// A fresh race, not started, with the given random seed and every counter
/// and mask at zero.
pub fn create_derby(race_id: u64, game_server: Key, player: Key, vrf_seed: [u8; 32], now: i64) -> (d:
    DerbyRaceState)
    ensures
        d.wf(),
        d == (DerbyRaceState {
            race_id,
            game_server,
            player,
            vrf_seed,
            status: DerbyStatus::Created,
            current_tick: 0,
            current_lap: 0,
            checkpoints_passed: 0,
            collisions: 0,
            gold_collected: 0,
            boosts_collected: 0,
            boost_end_tick: 0,
            finish_tick: 0,
            gold_bitmask: 0,
            boost_bitmask: 0,
            created_at: now,
            settled_at: 0,
        }),
{
    DerbyRaceState {
        race_id,
        game_server,
        player,
        vrf_seed,
        status: DerbyStatus::Created,
        current_tick: 0,
        current_lap: 0,
        checkpoints_passed: 0,
        collisions: 0,
        gold_collected: 0,
        boosts_collected: 0,
        boost_end_tick: 0,
        finish_tick: 0,
        gold_bitmask: 0,
        boost_bitmask: 0,
        created_at: now,
        settled_at: 0,
    }
}

/// The server reports one race event. Collisions always count (held at the
/// counter's maximum); each gold or boost slot can be claimed once per race,
/// whatever the lap; a boost opens a fresh window from the current tick,
/// replacing any open one; passing a checkpoint again changes nothing; a lap
/// completes only once every checkpoint was passed on it, and clears them (the
/// lap count stops at the race's number of laps); the race finishes only after
/// the last lap.
pub fn derby_server_update(d: &mut DerbyRaceState, actor: Key, action: DerbyAction, now: i64) -> (r:
    Result<(), DerbyError>)
    requires
        old(d).wf(),
    ensures
        final(d).wf(),
        r == update_result(*old(d), actor, action),
        r is Err ==> *final(d) == *old(d),
        r is Ok ==> *final(d) == after_action(*old(d), action, now),
{
    if actor != d.game_server {
        return Err(DerbyError::UnauthorizedServer);
    }
    if d.status != DerbyStatus::Racing {
        return Err(DerbyError::RaceNotActive);
    }
    match action {
        DerbyAction::RecordCollision => {
            d.collisions = d.collisions.saturating_add(1);
        },
        DerbyAction::CollectGold { item_index } => {
            if item_index >= DERBY_MAX_GOLD {
                return Err(DerbyError::InvalidItemIndex);
            }
            match claim_bit16(d.gold_bitmask, item_index) {
                None => {
                    return Err(DerbyError::ItemAlreadyCollected);
                },
                Some(mask) => {
                    d.gold_bitmask = mask;
                    d.gold_collected = d.gold_collected.saturating_add(1);
                },
            }
        },
        DerbyAction::CollectBoost { item_index } => {
            if item_index >= DERBY_MAX_BOOSTS {
                return Err(DerbyError::InvalidItemIndex);
            }
            match claim_bit8(d.boost_bitmask, item_index) {
                None => {
                    return Err(DerbyError::ItemAlreadyCollected);
                },
                Some(mask) => {
                    d.boost_bitmask = mask;
                    d.boosts_collected = d.boosts_collected.saturating_add(1);
                    d.boost_end_tick = d.current_tick.saturating_add(DERBY_BOOST_DURATION_TICKS);
                },
            }
        },
        DerbyAction::PassCheckpoint { checkpoint_id } => {
            if checkpoint_id >= DERBY_CHECKPOINT_COUNT {
                return Err(DerbyError::InvalidCheckpoint);
            }
            let old_mask: u8 = d.checkpoints_passed;
            let bit: u8 = 1u8 << checkpoint_id;
            assert(old_mask <= 15 && checkpoint_id < 4 ==> (old_mask | (1u8 << checkpoint_id))
                <= 15) by (bit_vector);
            d.checkpoints_passed = old_mask | bit;
        },
        DerbyAction::CompleteLap => {
            if d.checkpoints_passed != ALL_CHECKPOINTS {
                return Err(DerbyError::MissingCheckpoints);
            }
            if d.current_lap < DERBY_MAX_LAPS {
                d.current_lap = d.current_lap + 1;
            }
            d.checkpoints_passed = 0;
        },
        DerbyAction::FinishRace => {
            if d.current_lap < DERBY_MAX_LAPS {
                return Err(DerbyError::LapsNotComplete);
            }
            d.status = DerbyStatus::Finished;
            d.finish_tick = d.current_tick;
            d.settled_at = now;
        },
    }
    Ok(())
}

/// What `start_derby` answers.
pub open spec fn start_derby_result(d: DerbyRaceState, actor: Key) -> Result<(), DerbyError> {
    if actor != d.game_server {
        Err(DerbyError::UnauthorizedServer)
    } else if d.status != DerbyStatus::Created {
        Err(DerbyError::InvalidDerbyState)
    } else {
        Ok(())
    }
}

/// The race once it starts.
pub open spec fn after_start_derby(d: DerbyRaceState) -> DerbyRaceState {
    DerbyRaceState {
        status: DerbyStatus::Racing,
        current_tick: 0,
        current_lap: 0,
        checkpoints_passed: 0,
        ..d
    }
}

/// The server starts a created race: clock, lap and checkpoints start at zero.
pub fn start_derby(d: &mut DerbyRaceState, actor: Key) -> (r: Result<(), DerbyError>)
    requires
        old(d).wf(),
    ensures
        final(d).wf(),
        r == start_derby_result(*old(d), actor),
        r is Err ==> *final(d) == *old(d),
        r is Ok ==> *final(d) == after_start_derby(*old(d)),
{
    if actor != d.game_server {
        return Err(DerbyError::UnauthorizedServer);
    }
    if d.status != DerbyStatus::Created {
        return Err(DerbyError::InvalidDerbyState);
    }
    d.status = DerbyStatus::Racing;
    d.current_tick = 0;
    d.current_lap = 0;
    d.checkpoints_passed = 0;
    Ok(())
}

/// What `submit_derby_input` answers.
pub open spec fn derby_input_result(d: DerbyRaceState, tick: u32) -> Result<(), DerbyError> {
    if d.status != DerbyStatus::Racing {
        Err(DerbyError::RaceNotActive)
    } else if tick > DERBY_MAX_TICKS {
        Err(DerbyError::RaceTimedOut)
    } else {
        Ok(())
    }
}

/// The race after an input for `tick` is accepted: only its clock may move.
pub open spec fn after_derby_input(d: DerbyRaceState, tick: u32) -> DerbyRaceState {
    DerbyRaceState { current_tick: later_tick(d.current_tick, tick), ..d }
}

/// The player's input for `tick`: accepted while racing up to the race's last
/// tick, and the race clock moves forward to `tick` when that is later.
pub fn submit_derby_input(d: &mut DerbyRaceState, tick: u32) -> (r: Result<(), DerbyError>)
    requires
        old(d).wf(),
    ensures
        final(d).wf(),
        r == derby_input_result(*old(d), tick),
        r is Err ==> *final(d) == *old(d),
        r is Ok ==> *final(d) == after_derby_input(*old(d), tick),
{
    if d.status != DerbyStatus::Racing {
        return Err(DerbyError::RaceNotActive);
    }
    if tick > DERBY_MAX_TICKS {
        return Err(DerbyError::RaceTimedOut);
    }
    d.current_tick = adopt_tick(d.current_tick, tick);
    Ok(())
}

/// Whether the race is over: finished, or cancelled.
pub open spec fn race_over(d: DerbyRaceState) -> bool {
    d.status == DerbyStatus::Finished || d.status == DerbyStatus::Cancelled
}

/// Whether `actor` may reclaim the race record: its game server may, once the
/// race is over.
pub fn close_derby(d: &DerbyRaceState, actor: Key) -> (r: Result<(), DerbyError>)
    ensures
        r == (if actor != d.game_server {
            Err(DerbyError::UnauthorizedServer)
        } else if !race_over(*d) {
            Err(DerbyError::RaceNotFinished)
        } else {
            Ok(())
        }),
{
    if actor != d.game_server {
        return Err(DerbyError::UnauthorizedServer);
    }
    if !d.status.is_over() {
        return Err(DerbyError::RaceNotFinished);
    }
    Ok(())
}

} // verus!
