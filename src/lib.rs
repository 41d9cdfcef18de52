//! Rules engine for two competitive mini-games played on a fast, delegated
//! execution layer and settled on a slow base ledger: a two-player arena match
//! (rounds, hit points, damage cooldowns, forfeits) and a single-player derby
//! race (laps, checkpoints, one-shot item pickups).
//!
//! Every operation is a transition on a plain record that either applies in
//! full or is refused with an error and leaves the record untouched. The
//! acting authority of each call is handed in already authenticated; the
//! engine only compares it with the keys the record holds.
pub mod arena;
pub mod derby;
pub mod key;
pub mod laws;
pub mod rules;
pub mod settlement;

pub use arena::{
    apply_damage, cancel_match, close_match, close_player_state, create_match,
    create_player_state, end_round, forfeit, join_match, start_round, submit_input, ArenaError,
    ArenaMatchState, MatchStatus, PlayerState,
};
pub use derby::{
    close_derby, create_derby, derby_server_update, start_derby, submit_derby_input, DerbyAction,
    DerbyError, DerbyRaceState, DerbyStatus,
};
pub use key::Key;
pub use settlement::{
    delegate_derby, delegate_match, delegate_player_state, end_derby, end_match,
    DelegationRequest,
};
