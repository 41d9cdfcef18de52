//! Properties of whole runs of calls on one record, stated over the same
//! specification functions that the operations' contracts use.
use vstd::prelude::*;

use crate::arena::{
    after_end_round, after_forfeit, after_hit, after_input, after_join, after_start_round,
    damage_result, end_round_result, forfeit_result, input_result, join_result,
    start_round_result, ArenaMatchState, MatchStatus,
};
use crate::derby::{
    after_action, after_derby_input, after_start_derby, derby_input_result, start_derby_result,
    update_result, DerbyAction, DerbyError, DerbyRaceState, DerbyStatus, ALL_CHECKPOINTS,
};
use crate::key::{unset_key, Key};
use crate::rules::{
    bit16, bit8, lemma_claim16_keeps, lemma_claim16_sets, lemma_claim8_keeps, lemma_claim8_sets,
    MAX_ROUNDS, WINS_NEEDED,
};

verus! {

// ── Runs of calls ──────────────────────────────────────────────────────────
/// The match after the server reports a hit on player `slot`, accepted or not.
pub open spec fn damage_step(m: ArenaMatchState, actor: Key, slot: u8) -> ArenaMatchState {
    if damage_result(m, actor, slot) is Ok {
        after_hit(m, slot)
    } else {
        m
    }
}

/// The match after the server reports hits on each of `slots` in turn.
pub open spec fn damage_run(m: ArenaMatchState, actor: Key, slots: Seq<u8>) -> ArenaMatchState
    decreases slots.len(),
{
    if slots.len() == 0 {
        m
    } else {
        damage_step(damage_run(m, actor, slots.drop_last()), actor, slots.last())
    }
}

/// One call on a match record, with its arguments (an input call's effect on
/// the player's own input record aside).
pub enum MatchCall {
    Join { player2: Key },
    StartRound { actor: Key },
    Input { tick: u32 },
    Damage { actor: Key, slot: u8 },
    EndRound { actor: Key, now: i64 },
    Forfeit { actor: Key, slot: u8, now: i64 },
}

/// The match after `call`, accepted or not.
pub open spec fn match_step(m: ArenaMatchState, call: MatchCall) -> ArenaMatchState {
    match call {
        MatchCall::Join { player2 } => if join_result(m, player2) is Ok {
            after_join(m, player2)
        } else {
            m
        },
        MatchCall::StartRound { actor } => if start_round_result(m, actor) is Ok {
            after_start_round(m)
        } else {
            m
        },
        MatchCall::Input { tick } => if input_result(m) is Ok {
            after_input(m, tick)
        } else {
            m
        },
        MatchCall::Damage { actor, slot } => damage_step(m, actor, slot),
        MatchCall::EndRound { actor, now } => if end_round_result(m, actor) is Ok {
            after_end_round(m, now)
        } else {
            m
        },
        MatchCall::Forfeit { actor, slot, now } => if forfeit_result(m, actor, slot) is Ok {
            after_forfeit(m, slot, now)
        } else {
            m
        },
    }
}

/// The match after each of `calls` in turn.
pub open spec fn match_run(m: ArenaMatchState, calls: Seq<MatchCall>) -> ArenaMatchState
    decreases calls.len(),
{
    if calls.len() == 0 {
        m
    } else {
        match_step(match_run(m, calls.drop_last()), calls.last())
    }
}

/// One call on a race record, with its arguments.
pub enum DerbyCall {
    Start { actor: Key },
    Input { tick: u32 },
    Update { actor: Key, action: DerbyAction, now: i64 },
}

/// The race after `call`, accepted or not.
pub open spec fn derby_step(d: DerbyRaceState, call: DerbyCall) -> DerbyRaceState {
    match call {
        DerbyCall::Start { actor } => if start_derby_result(d, actor) is Ok {
            after_start_derby(d)
        } else {
            d
        },
        DerbyCall::Input { tick } => if derby_input_result(d, tick) is Ok {
            after_derby_input(d, tick)
        } else {
            d
        },
        DerbyCall::Update { actor, action, now } => if update_result(d, actor, action) is Ok {
            after_action(d, action, now)
        } else {
            d
        },
    }
}

/// The race after each of `calls` in turn.
pub open spec fn derby_run(d: DerbyRaceState, calls: Seq<DerbyCall>) -> DerbyRaceState
    decreases calls.len(),
{
    if calls.len() == 0 {
        d
    } else {
        derby_step(derby_run(d, calls.drop_last()), calls.last())
    }
}

// ── Hit points ─────────────────────────────────────────────────────────────
/// Over any run of reported hits, neither player's hit points ever grow: after
/// the whole run they are at most what they were after any first part of it.
/// (Being a `u8`, they cannot drop below zero.)
pub proof fn lemma_hits_never_heal(m: ArenaMatchState, actor: Key, slots: Seq<u8>, i: int)
    requires
        0 <= i <= slots.len(),
    ensures
        damage_run(m, actor, slots).player1_hp <= damage_run(m, actor, slots.take(i)).player1_hp,
        damage_run(m, actor, slots).player2_hp <= damage_run(m, actor, slots.take(i)).player2_hp,
    decreases slots.len(),
{
    if i == slots.len() {
        assert(slots.take(i) =~= slots);
    } else {
        lemma_hits_never_heal(m, actor, slots.drop_last(), i);
        assert(slots.drop_last().take(i) =~= slots.take(i));
    }
}

/// Player `slot`'s hit points.
pub open spec fn hp_of(m: ArenaMatchState, slot: u8) -> int {
    if slot == 1 {
        m.player1_hp as int
    } else {
        m.player2_hp as int
    }
}

/// How many hits on player `slot` were accepted over a run of calls.
pub open spec fn hits_on(m: ArenaMatchState, calls: Seq<MatchCall>, slot: u8) -> nat
    decreases calls.len(),
{
    if calls.len() == 0 {
        0
    } else {
        let prev = match_run(m, calls.drop_last());
        let this_one: nat = match calls.last() {
            MatchCall::Damage { actor, slot: target } => if target == slot && damage_result(
                prev,
                actor,
                target,
            ) is Ok {
                1
            } else {
                0
            },
            _ => 0,
        };
        hits_on(m, calls.drop_last(), slot) + this_one
    }
}

/// Whether a call leaves hit points alone unless it is a hit: everything but
/// joining and starting a round, which refill them.
pub open spec fn keeps_hit_points(call: MatchCall) -> bool {
    !(call is Join) && !(call is StartRound)
}

/// Over any run of calls that refills no hit points (hits mixed with inputs,
/// round ends and forfeits), each accepted hit on player `slot` removes exactly
/// one hit point, floored at zero: the player ends with the starting hit
/// points less the accepted hits, or zero.
pub proof fn lemma_hits_counted(m: ArenaMatchState, calls: Seq<MatchCall>, slot: u8)
    requires
        slot == 1 || slot == 2,
        forall|i: int| 0 <= i < calls.len() ==> keeps_hit_points(#[trigger] calls[i]),
    ensures
        hp_of(match_run(m, calls), slot) == if hp_of(m, slot) >= hits_on(m, calls, slot) {
            hp_of(m, slot) - hits_on(m, calls, slot)
        } else {
            0
        },
    decreases calls.len(),
{
    if calls.len() > 0 {
        let rest = calls.drop_last();
        assert forall|i: int| 0 <= i < rest.len() implies keeps_hit_points(#[trigger] rest[i]) by {
            assert(rest[i] == calls[i]);
        }
        lemma_hits_counted(m, rest, slot);
        assert(keeps_hit_points(calls[calls.len() - 1]));
    }
}

// ── Clocks ─────────────────────────────────────────────────────────────────
/// Any run of calls keeps a well-formed match well-formed.
pub proof fn lemma_match_run_wf(m: ArenaMatchState, calls: Seq<MatchCall>)
    requires
        m.wf(),
    ensures
        match_run(m, calls).wf(),
    decreases calls.len(),
{
    if calls.len() > 0 {
        lemma_match_run_wf(m, calls.drop_last());
    }
}

/// Over any run of calls on a match (inputs, round control, hits,
/// forfeits), the match clock never moves back: after the whole run it is at
/// least what it was after any first part of it.
pub proof fn lemma_match_clock_monotonic(m: ArenaMatchState, calls: Seq<MatchCall>, i: int)
    requires
        m.wf(),
        0 <= i <= calls.len(),
    ensures
        match_run(m, calls.take(i)).current_tick <= match_run(m, calls).current_tick,
    decreases calls.len(),
{
    if i == calls.len() {
        assert(calls.take(i) =~= calls);
    } else {
        lemma_match_clock_monotonic(m, calls.drop_last(), i);
        lemma_match_run_wf(m, calls.drop_last());
        assert(calls.drop_last().take(i) =~= calls.take(i));
    }
}

/// Any run of calls keeps a well-formed race well-formed.
pub proof fn lemma_derby_run_wf(d: DerbyRaceState, calls: Seq<DerbyCall>)
    requires
        d.wf(),
    ensures
        derby_run(d, calls).wf(),
    decreases calls.len(),
{
    if calls.len() > 0 {
        lemma_derby_run_wf(d, calls.drop_last());
        let prev = derby_run(d, calls.drop_last());
        if let DerbyCall::Update { actor, action, now } = calls.last() {
            if let DerbyAction::PassCheckpoint { checkpoint_id } = action {
                let old_mask = prev.checkpoints_passed;
                assert(old_mask <= 15 && checkpoint_id < 4 ==> (old_mask | (1u8 << checkpoint_id))
                    <= 15) by (bit_vector);
            }
        }
    }
}

/// Over any run of calls on a race (start, inputs, server events), the race
/// clock never moves back: after the whole run it is at least what it was
/// after any first part of it.
pub proof fn lemma_race_clock_monotonic(d: DerbyRaceState, calls: Seq<DerbyCall>, i: int)
    requires
        d.wf(),
        0 <= i <= calls.len(),
    ensures
        derby_run(d, calls.take(i)).current_tick <= derby_run(d, calls).current_tick,
    decreases calls.len(),
{
    if i == calls.len() {
        assert(calls.take(i) =~= calls);
    } else {
        lemma_race_clock_monotonic(d, calls.drop_last(), i);
        lemma_derby_run_wf(d, calls.drop_last());
        assert(calls.drop_last().take(i) =~= calls.take(i));
    }
}

// ── Item claims ────────────────────────────────────────────────────────────
/// Calls on a race never change its server, and never release a claimed gold
/// slot `g` or boost slot `b`.
pub proof fn lemma_run_keeps_claims(d: DerbyRaceState, calls: Seq<DerbyCall>, g: u8, b: u8)
    requires
        g < 16,
        b < 8,
    ensures
        derby_run(d, calls).game_server == d.game_server,
        d.gold_bitmask & bit16(g) != 0 ==> derby_run(d, calls).gold_bitmask & bit16(g) != 0,
        d.boost_bitmask & bit8(b) != 0 ==> derby_run(d, calls).boost_bitmask & bit8(b) != 0,
    decreases calls.len(),
{
    if calls.len() > 0 {
        let prev = derby_run(d, calls.drop_last());
        lemma_run_keeps_claims(d, calls.drop_last(), g, b);
        if let DerbyCall::Update { actor, action, now } = calls.last() {
            if update_result(prev, actor, action) is Ok {
                match action {
                    DerbyAction::CollectGold { item_index } => {
                        if prev.gold_bitmask & bit16(g) != 0 {
                            lemma_claim16_keeps(prev.gold_bitmask, g, item_index);
                        }
                    },
                    DerbyAction::CollectBoost { item_index } => {
                        if prev.boost_bitmask & bit8(b) != 0 {
                            lemma_claim8_keeps(prev.boost_bitmask, b, item_index);
                        }
                    },
                    _ => {},
                }
            }
        }
    }
}

/// A gold slot is claimed at most once per race: once a claim of slot `i` is
/// accepted, any later claim of it is refused, whatever calls (laps included)
/// came between; while the race runs the refusal is `ItemAlreadyCollected`.
pub proof fn lemma_gold_claimed_once(
    d: DerbyRaceState,
    actor: Key,
    i: u8,
    now: i64,
    calls: Seq<DerbyCall>,
)
    requires
        update_result(d, actor, DerbyAction::CollectGold { item_index: i }) is Ok,
    ensures
        ({
            let later = derby_run(
                after_action(d, DerbyAction::CollectGold { item_index: i }, now),
                calls,
            );
            update_result(later, actor, DerbyAction::CollectGold { item_index: i }) == if later.status
                == DerbyStatus::Racing {
                Err::<(), DerbyError>(DerbyError::ItemAlreadyCollected)
            } else {
                Err(DerbyError::RaceNotActive)
            }
        }),
{
    let first = after_action(d, DerbyAction::CollectGold { item_index: i }, now);
    lemma_claim16_sets(d.gold_bitmask, i);
    lemma_run_keeps_claims(first, calls, i, 0);
}

/// A boost slot is claimed at most once per race: once a claim of slot `i` is
/// accepted, any later claim of it is refused, whatever calls (laps included)
/// came between; while the race runs the refusal is `ItemAlreadyCollected`.
pub proof fn lemma_boost_claimed_once(
    d: DerbyRaceState,
    actor: Key,
    i: u8,
    now: i64,
    calls: Seq<DerbyCall>,
)
    requires
        update_result(d, actor, DerbyAction::CollectBoost { item_index: i }) is Ok,
    ensures
        ({
            let later = derby_run(
                after_action(d, DerbyAction::CollectBoost { item_index: i }, now),
                calls,
            );
            update_result(later, actor, DerbyAction::CollectBoost { item_index: i }) == if later.status
                == DerbyStatus::Racing {
                Err::<(), DerbyError>(DerbyError::ItemAlreadyCollected)
            } else {
                Err(DerbyError::RaceNotActive)
            }
        }),
{
    let first = after_action(d, DerbyAction::CollectBoost { item_index: i }, now);
    lemma_claim8_sets(d.boost_bitmask, i);
    lemma_run_keeps_claims(first, calls, 0, i);
}

// ── Laps ───────────────────────────────────────────────────────────────────
/// On a running race reported by its server, completing a lap is accepted
/// exactly when every checkpoint of the lap was passed, and leaves no
/// checkpoint marked.
pub proof fn lemma_complete_lap(d: DerbyRaceState, actor: Key, now: i64)
    requires
        d.wf(),
        d.status == DerbyStatus::Racing,
        actor == d.game_server,
    ensures
        update_result(d, actor, DerbyAction::CompleteLap) is Ok <==> d.checkpoints_passed
            == ALL_CHECKPOINTS,
        update_result(d, actor, DerbyAction::CompleteLap) is Ok ==> after_action(
            d,
            DerbyAction::CompleteLap,
            now,
        ).checkpoints_passed == 0,
{
}

// ── Match outcome ──────────────────────────────────────────────────────────
/// Ending a round completes the match exactly when a player has reached the
/// wins needed or the last round was played. The winner of a completed match
/// is the player with strictly more rounds won; it is unset only on equal
/// counts, which happens only after the last round.
pub proof fn lemma_match_completion(m: ArenaMatchState, actor: Key, now: i64)
    requires
        m.wf(),
        end_round_result(m, actor) is Ok,
    ensures
        ({
            let e = after_end_round(m, now);
            &&& (e.status == MatchStatus::Complete) <==> (e.player1_rounds_won == WINS_NEEDED
                || e.player2_rounds_won == WINS_NEEDED || m.current_round == MAX_ROUNDS)
            &&& e.status == MatchStatus::Complete && e.player1_rounds_won > e.player2_rounds_won
                ==> e.winner == m.player1
            &&& e.status == MatchStatus::Complete && e.player2_rounds_won > e.player1_rounds_won
                ==> e.winner == m.player2
            &&& e.status == MatchStatus::Complete && e.player1_rounds_won == e.player2_rounds_won
                ==> e.winner == unset_key() && m.current_round == MAX_ROUNDS
            &&& e.status != MatchStatus::Complete ==> e.status == MatchStatus::RoundEnd
                && e.current_round == m.current_round + 1
        }),
{
}

/// A forfeit during the countdown, before any round is played, is accepted and
/// hands the match to the other player.
pub proof fn lemma_forfeit_from_countdown(m: ArenaMatchState, actor: Key, slot: u8, now: i64)
    requires
        m.status == MatchStatus::Countdown,
        actor == m.game_server,
        slot == 1 || slot == 2,
    ensures
        forfeit_result(m, actor, slot) is Ok,
        after_forfeit(m, slot, now).status == MatchStatus::Complete,
        after_forfeit(m, slot, now).winner == if slot == 1 {
            m.player2
        } else {
            m.player1
        },
{
}

} // verus!
