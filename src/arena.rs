//! The arena match: a duel of two players over up to three rounds, refereed
//! by a game server that starts and ends rounds and reports hits.
use vstd::prelude::*;

use crate::key::{Key, unset_key};
use crate::rules::{
    adopt_tick, cooldown_elapsed, later_tick, ticks_since, DAMAGE_COOLDOWN_TICKS, HP_PER_ROUND,
    MAX_DAMAGE_PER_HIT, MAX_ROUNDS, ROUND_TICKS, WINS_NEEDED,
};

verus! {

/// Lifecycle of an arena match.
#[derive(Clone, Copy, Debug, PartialEq, Eq, Structural)]
pub enum MatchStatus {
    WaitingForPlayer,
    Countdown,
    Active,
    RoundEnd,
    Complete,
    Cancelled,
}

impl Default for MatchStatus {
    fn default() -> (s: MatchStatus)
        ensures
            s == MatchStatus::WaitingForPlayer,
    {
        MatchStatus::WaitingForPlayer
    }
}

/// Why an arena operation was refused. A refused operation changes nothing.
#[derive(Clone, Copy, Debug, PartialEq, Eq, Structural)]
pub enum ArenaError {
    MatchNotJoinable,
    CannotJoinOwnMatch,
    MatchNotActive,
    MatchNotComplete,
    MatchAlreadyStarted,
    InvalidMatchState,
    InvalidTargetSlot,
    DamageCooldown,
    UnauthorizedServer,
    UnauthorizedPlayer,
}

impl ArenaError {
    /// A short human-readable description of the error.
    pub fn message(&self) -> &'static str {
        match self {
            ArenaError::MatchNotJoinable => "Match is not in a joinable state",
            ArenaError::CannotJoinOwnMatch => "Cannot join your own match",
            ArenaError::MatchNotActive => "Match is not active",
            ArenaError::MatchNotComplete => "Match is not complete",
            ArenaError::MatchAlreadyStarted => "Match has already started",
            ArenaError::InvalidMatchState => "Invalid match state for this action",
            ArenaError::InvalidTargetSlot => "Invalid target slot (must be 1 or 2)",
            ArenaError::DamageCooldown => "Damage cooldown not elapsed",
            ArenaError::UnauthorizedServer => "Unauthorized game server",
            ArenaError::UnauthorizedPlayer => "Unauthorized player",
        }
    }
}

/// One arena match between two players, refereed by a game server.
///
/// `last_p1_damage_tick` is stamped when player 2 is hit and
/// `last_p2_damage_tick` when player 1 is hit: each victim's cooldown runs on
/// the clock of the opponent who dealt the damage.
#[derive(Clone, Copy, Debug)]
pub struct ArenaMatchState {
    pub match_id: u64,
    pub game_server: Key,
    pub player1: Key,
    pub player2: Key,
    pub status: MatchStatus,
    pub current_round: u8,
    pub player1_rounds_won: u8,
    pub player2_rounds_won: u8,
    pub player1_hp: u8,
    pub player2_hp: u8,
    pub current_tick: u32,
    pub round_start_tick: u32,
    pub last_p1_damage_tick: u32,
    pub last_p2_damage_tick: u32,
    pub winner: Key,
    pub created_at: i64,
    pub settled_at: i64,
}

/// One player's latest input in one match. `last_tick` is the highest tick the
/// player has reported; it never decreases.
#[derive(Clone, Copy, Debug)]
pub struct PlayerState {
    pub match_id: u64,
    pub player: Key,
    pub dx: i8,
    pub dy: i8,
    pub attacking: bool,
    pub last_tick: u32,
    pub input_count: u64,
}

impl ArenaMatchState {
    /// Both players are seated and the match has not ended.
    pub open spec fn in_play(&self) -> bool {
        self.status == MatchStatus::Countdown || self.status == MatchStatus::Active
            || self.status == MatchStatus::RoundEnd
    }

    /// The record's invariant.
    pub open spec fn wf(&self) -> bool {
        &&& self.player1_rounds_won <= WINS_NEEDED
        &&& self.player2_rounds_won <= WINS_NEEDED
        &&& self.player1_hp <= HP_PER_ROUND
        &&& self.player2_hp <= HP_PER_ROUND
        &&& self.current_round <= MAX_ROUNDS
        &&& self.round_start_tick <= self.current_tick
        &&& self.status == MatchStatus::WaitingForPlayer ==> self.player1_rounds_won == 0
            && self.player2_rounds_won == 0 && self.current_tick == 0
        &&& self.in_play() ==> {
            &&& 1 <= self.current_round
            &&& self.player1_rounds_won < WINS_NEEDED
            &&& self.player2_rounds_won < WINS_NEEDED
        }
        &&& (self.in_play() || self.status == MatchStatus::Complete) ==> self.player1
            != self.player2
    }

    /// Executable check of the invariant, for records that come from outside.
    pub fn is_well_formed(&self) -> (r: bool)
        ensures
            r == self.wf(),
    {
        let in_play = self.status == MatchStatus::Countdown || self.status == MatchStatus::Active
            || self.status == MatchStatus::RoundEnd;
        let seated = in_play || self.status == MatchStatus::Complete;
        self.player1_rounds_won <= WINS_NEEDED && self.player2_rounds_won <= WINS_NEEDED
            && self.player1_hp <= HP_PER_ROUND && self.player2_hp <= HP_PER_ROUND
            && self.current_round <= MAX_ROUNDS && self.round_start_tick <= self.current_tick
            && (self.status != MatchStatus::WaitingForPlayer || (self.player1_rounds_won == 0
            && self.player2_rounds_won == 0 && self.current_tick == 0)) && (!in_play || (1 <= self.current_round
            && self.player1_rounds_won < WINS_NEEDED && self.player2_rounds_won < WINS_NEEDED))
            && (!seated || self.player1 != self.player2)
    }

    /// Whether the current round has run for its full length. This is advisory:
    /// nothing ends the round until the server calls `end_round`.
    pub fn round_timed_out(&self) -> (r: bool)
        ensures
            r == (ticks_since(self.current_tick, self.round_start_tick) >= ROUND_TICKS),
    {
        self.current_tick.saturating_sub(self.round_start_tick) >= ROUND_TICKS
    }
}

/// A fresh match waiting for its second player.
pub fn create_match(match_id: u64, game_server: Key, player1: Key, now: i64) -> (m:
    ArenaMatchState)
    ensures
        m.wf(),
        m.match_id == match_id,
        m.game_server == game_server,
        m.player1 == player1,
        m.player2 == unset_key(),
        m.status == MatchStatus::WaitingForPlayer,
        m.current_round == 0,
        m.player1_rounds_won == 0,
        m.player2_rounds_won == 0,
        m.player1_hp == HP_PER_ROUND,
        m.player2_hp == HP_PER_ROUND,
        m.current_tick == 0,
        m.round_start_tick == 0,
        m.last_p1_damage_tick == 0,
        m.last_p2_damage_tick == 0,
        m.winner == unset_key(),
        m.created_at == now,
        m.settled_at == 0,
{
    ArenaMatchState {
        match_id,
        game_server,
        player1,
        player2: Key::unset(),
        status: MatchStatus::WaitingForPlayer,
        current_round: 0,
        player1_rounds_won: 0,
        player2_rounds_won: 0,
        player1_hp: HP_PER_ROUND,
        player2_hp: HP_PER_ROUND,
        current_tick: 0,
        round_start_tick: 0,
        last_p1_damage_tick: 0,
        last_p2_damage_tick: 0,
        winner: Key::unset(),
        created_at: now,
        settled_at: 0,
    }
}

/// Rounds won by player 1 once the round being ended is credited: the
/// player left with more hit points wins it, and equal hit points credit no one.
pub open spec fn credited_p1_wins(m: ArenaMatchState) -> u8 {
    if m.player1_hp > m.player2_hp {
        (m.player1_rounds_won + 1) as u8
    } else {
        m.player1_rounds_won
    }
}

/// Rounds won by player 2 once the round being ended is credited.
pub open spec fn credited_p2_wins(m: ArenaMatchState) -> u8 {
    if m.player2_hp > m.player1_hp {
        (m.player2_rounds_won + 1) as u8
    } else {
        m.player2_rounds_won
    }
}

/// The player with strictly more rounds won, or the unset key on a tie.
pub open spec fn leader(m: ArenaMatchState) -> Key {
    if m.player1_rounds_won > m.player2_rounds_won {
        m.player1
    } else if m.player2_rounds_won > m.player1_rounds_won {
        m.player2
    } else {
        unset_key()
    }
}

/// Whether a match whose rounds have just been credited is decided: a player
/// reached the wins needed, or the last round was played.
pub open spec fn match_decided(credited: ArenaMatchState) -> bool {
    credited.player1_rounds_won >= WINS_NEEDED || credited.player2_rounds_won >= WINS_NEEDED
        || credited.current_round >= MAX_ROUNDS
}

/// The record after the server ends the current round at time `now`.
pub open spec fn after_end_round(m: ArenaMatchState, now: i64) -> ArenaMatchState {
    let credited = ArenaMatchState {
        player1_rounds_won: credited_p1_wins(m),
        player2_rounds_won: credited_p2_wins(m),
        ..m
    };
    if match_decided(credited) {
        ArenaMatchState {
            status: MatchStatus::Complete,
            winner: leader(credited),
            settled_at: now,
            ..credited
        }
    } else {
        ArenaMatchState {
            status: MatchStatus::RoundEnd,
            current_round: (m.current_round + 1) as u8,
            ..credited
        }
    }
}

/// What `end_round` answers.
pub open spec fn end_round_result(m: ArenaMatchState, actor: Key) -> Result<(), ArenaError> {
    if actor != m.game_server {
        Err(ArenaError::UnauthorizedServer)
    } else if m.status != MatchStatus::Active {
        Err(ArenaError::MatchNotActive)
    } else {
        Ok(())
    }
}

/// Ends the current round: credits it to the player with more hit points,
/// then either completes the match (a player reached the wins needed, or the
/// last round was played; the winner is the player with more rounds won, unset
/// on a tie) or moves to the break before the next round.
pub fn end_round(m: &mut ArenaMatchState, actor: Key, now: i64) -> (r: Result<(), ArenaError>)
    requires
        old(m).wf(),
    ensures
        final(m).wf(),
        r == end_round_result(*old(m), actor),
        r is Err ==> *final(m) == *old(m),
        r is Ok ==> *final(m) == after_end_round(*old(m), now),
{
    if actor != m.game_server {
        return Err(ArenaError::UnauthorizedServer);
    }
    if m.status != MatchStatus::Active {
        return Err(ArenaError::MatchNotActive);
    }
    if m.player1_hp > m.player2_hp {
        m.player1_rounds_won = m.player1_rounds_won + 1;
    } else if m.player2_hp > m.player1_hp {
        m.player2_rounds_won = m.player2_rounds_won + 1;
    }
    if m.player1_rounds_won >= WINS_NEEDED || m.player2_rounds_won >= WINS_NEEDED
        || m.current_round >= MAX_ROUNDS {
        m.status = MatchStatus::Complete;
        m.winner = if m.player1_rounds_won > m.player2_rounds_won {
            m.player1
        } else if m.player2_rounds_won > m.player1_rounds_won {
            m.player2
        } else {
            Key::unset()
        };
        m.settled_at = now;
    } else {
        m.status = MatchStatus::RoundEnd;
        m.current_round = m.current_round + 1;
    }
    Ok(())
}

/// Whether player `slot`'s victim cooldown has run out: a hit on player 1 is
/// timed by `last_p2_damage_tick`, a hit on player 2 by `last_p1_damage_tick`.
pub open spec fn victim_ready(m: ArenaMatchState, slot: u8) -> bool {
    if slot == 1 {
        ticks_since(m.current_tick, m.last_p2_damage_tick) >= DAMAGE_COOLDOWN_TICKS
    } else {
        ticks_since(m.current_tick, m.last_p1_damage_tick) >= DAMAGE_COOLDOWN_TICKS
    }
}

/// `hp` less one hit, floored at zero.
pub open spec fn hp_after_hit(hp: u8) -> u8 {
    if hp >= MAX_DAMAGE_PER_HIT {
        (hp - MAX_DAMAGE_PER_HIT) as u8
    } else {
        0
    }
}

/// The record after player `slot` takes one hit.
pub open spec fn after_hit(m: ArenaMatchState, slot: u8) -> ArenaMatchState {
    if slot == 1 {
        ArenaMatchState {
            player1_hp: hp_after_hit(m.player1_hp),
            last_p2_damage_tick: m.current_tick,
            ..m
        }
    } else {
        ArenaMatchState {
            player2_hp: hp_after_hit(m.player2_hp),
            last_p1_damage_tick: m.current_tick,
            ..m
        }
    }
}

/// What `apply_damage` answers.
pub open spec fn damage_result(m: ArenaMatchState, actor: Key, slot: u8) -> Result<(), ArenaError> {
    if actor != m.game_server {
        Err(ArenaError::UnauthorizedServer)
    } else if m.status != MatchStatus::Active {
        Err(ArenaError::MatchNotActive)
    } else if slot != 1 && slot != 2 {
        Err(ArenaError::InvalidTargetSlot)
    } else if !victim_ready(m, slot) {
        Err(ArenaError::DamageCooldown)
    } else {
        Ok(())
    }
}

/// The server reports a hit on player `target_slot` (1 or 2): that player loses
/// one hit point (never below zero), provided the victim's cooldown has run
/// out; the victim's cooldown then restarts at the current tick.
pub fn apply_damage(m: &mut ArenaMatchState, actor: Key, target_slot: u8) -> (r: Result<
    (),
    ArenaError,
>)
    requires
        old(m).wf(),
    ensures
        final(m).wf(),
        r == damage_result(*old(m), actor, target_slot),
        r is Err ==> *final(m) == *old(m),
        r is Ok ==> *final(m) == after_hit(*old(m), target_slot),
{
    if actor != m.game_server {
        return Err(ArenaError::UnauthorizedServer);
    }
    if m.status != MatchStatus::Active {
        return Err(ArenaError::MatchNotActive);
    }
    if target_slot == 1 {
        if !cooldown_elapsed(m.current_tick, m.last_p2_damage_tick, DAMAGE_COOLDOWN_TICKS) {
            return Err(ArenaError::DamageCooldown);
        }
        m.player1_hp = m.player1_hp.saturating_sub(MAX_DAMAGE_PER_HIT);
        m.last_p2_damage_tick = m.current_tick;
    } else if target_slot == 2 {
        if !cooldown_elapsed(m.current_tick, m.last_p1_damage_tick, DAMAGE_COOLDOWN_TICKS) {
            return Err(ArenaError::DamageCooldown);
        }
        m.player2_hp = m.player2_hp.saturating_sub(MAX_DAMAGE_PER_HIT);
        m.last_p1_damage_tick = m.current_tick;
    } else {
        return Err(ArenaError::InvalidTargetSlot);
    }
    Ok(())
}

/// The record after player `slot` forfeits at time `now`.
pub open spec fn after_forfeit(m: ArenaMatchState, slot: u8, now: i64) -> ArenaMatchState {
    ArenaMatchState {
        status: MatchStatus::Complete,
        winner: if slot == 1 {
            m.player2
        } else {
            m.player1
        },
        settled_at: now,
        ..m
    }
}

/// What `forfeit` answers.
pub open spec fn forfeit_result(m: ArenaMatchState, actor: Key, slot: u8) -> Result<(), ArenaError> {
    if actor != m.game_server {
        Err(ArenaError::UnauthorizedServer)
    } else if !m.in_play() {
        Err(ArenaError::InvalidMatchState)
    } else if slot != 1 && slot != 2 {
        Err(ArenaError::InvalidTargetSlot)
    } else {
        Ok(())
    }
}

/// Player `forfeiter_slot` (1 or 2) gives up: the other player wins and the
/// match is complete. Allowed once both players are seated and until the match
/// has ended, whether or not a round was played.
pub fn forfeit(m: &mut ArenaMatchState, actor: Key, forfeiter_slot: u8, now: i64) -> (r: Result<
    (),
    ArenaError,
>)
    requires
        old(m).wf(),
    ensures
        final(m).wf(),
        r == forfeit_result(*old(m), actor, forfeiter_slot),
        r is Err ==> *final(m) == *old(m),
        r is Ok ==> *final(m) == after_forfeit(*old(m), forfeiter_slot, now),
{
    if actor != m.game_server {
        return Err(ArenaError::UnauthorizedServer);
    }
    if !(m.status == MatchStatus::Active || m.status == MatchStatus::Countdown || m.status
        == MatchStatus::RoundEnd) {
        return Err(ArenaError::InvalidMatchState);
    }
    if forfeiter_slot == 1 {
        m.winner = m.player2;
    } else if forfeiter_slot == 2 {
        m.winner = m.player1;
    } else {
        return Err(ArenaError::InvalidTargetSlot);
    }
    m.status = MatchStatus::Complete;
    m.settled_at = now;
    Ok(())
}

/// What `submit_input` answers.
pub open spec fn input_result(m: ArenaMatchState) -> Result<(), ArenaError> {
    if m.status != MatchStatus::Active {
        Err(ArenaError::MatchNotActive)
    } else {
        Ok(())
    }
}

/// The match after an input for `tick` is accepted: only its clock may move.
pub open spec fn after_input(m: ArenaMatchState, tick: u32) -> ArenaMatchState {
    ArenaMatchState { current_tick: later_tick(m.current_tick, tick), ..m }
}

/// A player's input for `tick` during a round. The input record takes the new
/// intent (the last write wins) and counts one more input; its own clock and
/// the match clock each move forward to `tick` when that is later, and never
/// move back.
pub fn submit_input(
    m: &mut ArenaMatchState,
    ps: &mut PlayerState,
    tick: u32,
    dx: i8,
    dy: i8,
    attacking: bool,
) -> (r: Result<(), ArenaError>)
    requires
        old(m).wf(),
        old(ps).input_count < u64::MAX,
    ensures
        final(m).wf(),
        r == input_result(*old(m)),
        r is Err ==> *final(m) == *old(m) && *final(ps) == *old(ps),
        r is Ok ==> *final(m) == after_input(*old(m), tick),
        r is Ok ==> *final(ps) == (PlayerState {
            last_tick: later_tick(old(ps).last_tick, tick),
            dx,
            dy,
            attacking,
            input_count: (old(ps).input_count + 1) as u64,
            ..*old(ps)
        }),
{
    if m.status != MatchStatus::Active {
        return Err(ArenaError::MatchNotActive);
    }
    ps.last_tick = adopt_tick(ps.last_tick, tick);
    ps.dx = dx;
    ps.dy = dy;
    ps.attacking = attacking;
    ps.input_count = ps.input_count + 1;
    m.current_tick = adopt_tick(m.current_tick, tick);
    Ok(())
}

/// What `join_match` answers.
pub open spec fn join_result(m: ArenaMatchState, player2: Key) -> Result<(), ArenaError> {
    if m.status != MatchStatus::WaitingForPlayer {
        Err(ArenaError::MatchNotJoinable)
    } else if m.player1 == player2 {
        Err(ArenaError::CannotJoinOwnMatch)
    } else {
        Ok(())
    }
}

/// The match after `player2` joins it.
pub open spec fn after_join(m: ArenaMatchState, player2: Key) -> ArenaMatchState {
    ArenaMatchState {
        player2,
        status: MatchStatus::Countdown,
        current_round: 1,
        current_tick: 0,
        round_start_tick: 0,
        player1_hp: HP_PER_ROUND,
        player2_hp: HP_PER_ROUND,
        ..m
    }
}

/// `player2` takes the second seat: the match moves to its countdown, at
/// round 1 with a fresh clock and full hit points.
pub fn join_match(m: &mut ArenaMatchState, player2: Key) -> (r: Result<(), ArenaError>)
    requires
        old(m).wf(),
    ensures
        final(m).wf(),
        r == join_result(*old(m), player2),
        r is Err ==> *final(m) == *old(m),
        r is Ok ==> *final(m) == after_join(*old(m), player2),
{
    if m.status != MatchStatus::WaitingForPlayer {
        return Err(ArenaError::MatchNotJoinable);
    }
    if m.player1 == player2 {
        return Err(ArenaError::CannotJoinOwnMatch);
    }
    m.player2 = player2;
    m.status = MatchStatus::Countdown;
    m.current_round = 1;
    m.current_tick = 0;
    m.round_start_tick = 0;
    m.player1_hp = HP_PER_ROUND;
    m.player2_hp = HP_PER_ROUND;
    Ok(())
}

/// What `start_round` answers.
pub open spec fn start_round_result(m: ArenaMatchState, actor: Key) -> Result<(), ArenaError> {
    if actor != m.game_server {
        Err(ArenaError::UnauthorizedServer)
    } else if m.status != MatchStatus::Countdown && m.status != MatchStatus::RoundEnd {
        Err(ArenaError::InvalidMatchState)
    } else {
        Ok(())
    }
}

/// The match once a round starts.
pub open spec fn after_start_round(m: ArenaMatchState) -> ArenaMatchState {
    ArenaMatchState {
        status: MatchStatus::Active,
        round_start_tick: m.current_tick,
        player1_hp: HP_PER_ROUND,
        player2_hp: HP_PER_ROUND,
        last_p1_damage_tick: 0,
        last_p2_damage_tick: 0,
        ..m
    }
}

/// The server starts a round (after the countdown, or after the break that
/// follows a round): full hit points, fresh cooldowns, and the round's clock
/// pinned to the current tick.
pub fn start_round(m: &mut ArenaMatchState, actor: Key) -> (r: Result<(), ArenaError>)
    requires
        old(m).wf(),
    ensures
        final(m).wf(),
        r == start_round_result(*old(m), actor),
        r is Err ==> *final(m) == *old(m),
        r is Ok ==> *final(m) == after_start_round(*old(m)),
{
    if actor != m.game_server {
        return Err(ArenaError::UnauthorizedServer);
    }
    if m.status != MatchStatus::Countdown && m.status != MatchStatus::RoundEnd {
        return Err(ArenaError::InvalidMatchState);
    }
    m.status = MatchStatus::Active;
    m.round_start_tick = m.current_tick;
    m.player1_hp = HP_PER_ROUND;
    m.player2_hp = HP_PER_ROUND;
    m.last_p1_damage_tick = 0;
    m.last_p2_damage_tick = 0;
    Ok(())
}

/// A fresh input record for `player` in match `match_id`.
pub fn create_player_state(match_id: u64, player: Key) -> (ps: PlayerState)
    ensures
        ps == (PlayerState {
            match_id,
            player,
            dx: 0,
            dy: 0,
            attacking: false,
            last_tick: 0,
            input_count: 0,
        }),
{
    PlayerState { match_id, player, dx: 0, dy: 0, attacking: false, last_tick: 0, input_count: 0 }
}

/// Player 1 calls off a match nobody has joined yet; the record may then be
/// reclaimed. No winner is recorded.
pub fn cancel_match(m: &ArenaMatchState, actor: Key) -> (r: Result<(), ArenaError>)
    ensures
        r == (if actor != m.player1 {
            Err(ArenaError::UnauthorizedPlayer)
        } else if m.status != MatchStatus::WaitingForPlayer {
            Err(ArenaError::MatchAlreadyStarted)
        } else {
            Ok(())
        }),
{
    if actor != m.player1 {
        return Err(ArenaError::UnauthorizedPlayer);
    }
    if m.status != MatchStatus::WaitingForPlayer {
        return Err(ArenaError::MatchAlreadyStarted);
    }
    Ok(())
}

/// Whether `actor` may reclaim the match record. The game server is trusted to
/// close at any time, whatever the status, since the fast layer's status may
/// lag the real game.
pub fn close_match(m: &ArenaMatchState, actor: Key) -> (r: Result<(), ArenaError>)
    ensures
        r == (if actor != m.game_server {
            Err(ArenaError::UnauthorizedServer)
        } else {
            Ok(())
        }),
{
    if actor != m.game_server {
        return Err(ArenaError::UnauthorizedServer);
    }
    Ok(())
}

/// Whether `actor` may reclaim an input record of match `m`: only its game
/// server may.
pub fn close_player_state(m: &ArenaMatchState, actor: Key) -> (r: Result<(), ArenaError>)
    ensures
        r == (if actor != m.game_server {
            Err(ArenaError::UnauthorizedServer)
        } else {
            Ok(())
        }),
{
    if actor != m.game_server {
        return Err(ArenaError::UnauthorizedServer);
    }
    Ok(())
}

} // verus!
