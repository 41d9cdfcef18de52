//! Hand-off between the base layer and the fast execution layer: the
//! addresses of records to delegate, and who may commit a record back.
use vstd::prelude::*;

use vstd::array::array_as_slice;
use vstd::bytes::{spec_u64_to_le_bytes, u64_to_le_bytes};
use vstd::slice::slice_to_vec;
use vstd::string::StringSliceAdditionalSpecFns;

use crate::arena::{ArenaError, ArenaMatchState};
use crate::derby::{race_over, DerbyError, DerbyRaceState};
use crate::key::Key;

verus! {

/// Address seed of a match record.
pub open spec fn match_seed_bytes() -> Seq<u8> {
    "arena_match".spec_bytes()
}

/// Address seed of a player input record.
pub open spec fn player_state_seed_bytes() -> Seq<u8> {
    "player_state".spec_bytes()
}

/// Address seed of a race record.
pub open spec fn derby_seed_bytes() -> Seq<u8> {
    "derby_race".spec_bytes()
}

/// The seed bytes of a match record's address.
pub fn match_seed() -> (s: &'static [u8])
    ensures
        s@ == match_seed_bytes(),
{
    "arena_match".as_bytes()
}

/// The seed bytes of a player input record's address.
pub fn player_state_seed() -> (s: &'static [u8])
    ensures
        s@ == player_state_seed_bytes(),
{
    "player_state".as_bytes()
}

/// The seed bytes of a race record's address.
pub fn derby_seed() -> (s: &'static [u8])
    ensures
        s@ == derby_seed_bytes(),
{
    "derby_race".as_bytes()
}

/// A request to hand a record from the base layer to the fast execution
/// layer: the seeds that derive the record's address, and the executor to pin
/// it to, if any.
pub struct DelegationRequest {
    pub seeds: Vec<Vec<u8>>,
    pub validator: Option<Key>,
}

/// The seeds of a request, as byte sequences.
pub open spec fn seeds_of(r: DelegationRequest) -> Seq<Seq<u8>> {
    r.seeds@.map_values(|s: Vec<u8>| s@)
}

/// Hands match `match_id`'s record to the fast layer, pinned to `validator`
/// when one is given. Its address is derived from the match seed and the
/// match number in little-endian bytes.
pub fn delegate_match(match_id: u64, validator: Option<Key>) -> (r: DelegationRequest)
    ensures
        seeds_of(r) == seq![match_seed_bytes(), spec_u64_to_le_bytes(match_id)],
        r.validator == validator,
{
    let seeds = vec![slice_to_vec(match_seed()), u64_to_le_bytes(match_id)];
    let r = DelegationRequest { seeds, validator };
    assert(seeds_of(r) =~= seq![match_seed_bytes(), spec_u64_to_le_bytes(match_id)]);
    r
}

/// Hands the input record of `player` in match `match_id` to the fast layer,
/// pinned to `validator` when one is given. Its address is derived from the
/// input-record seed, the match number in little-endian bytes and the player's
/// key.
pub fn delegate_player_state(match_id: u64, player: Key, validator: Option<Key>) -> (r:
    DelegationRequest)
    ensures
        seeds_of(r) == seq![player_state_seed_bytes(), spec_u64_to_le_bytes(match_id), player@],
        r.validator == validator,
{
    let seeds = vec![
        slice_to_vec(player_state_seed()),
        u64_to_le_bytes(match_id),
        slice_to_vec(array_as_slice(&player.bytes)),
    ];
    let r = DelegationRequest { seeds, validator };
    assert(seeds_of(r) =~= seq![
        player_state_seed_bytes(),
        spec_u64_to_le_bytes(match_id),
        player@,
    ]);
    r
}

/// Hands race `d`'s record to the fast layer, pinned to `validator` when one is
/// given. Its address is derived from the race seed and the race number in
/// little-endian bytes.
pub fn delegate_derby(d: &DerbyRaceState, validator: Option<Key>) -> (r: DelegationRequest)
    ensures
        seeds_of(r) == seq![derby_seed_bytes(), spec_u64_to_le_bytes(d.race_id)],
        r.validator == validator,
{
    let seeds = vec![slice_to_vec(derby_seed()), u64_to_le_bytes(d.race_id)];
    let r = DelegationRequest { seeds, validator };
    assert(seeds_of(r) =~= seq![derby_seed_bytes(), spec_u64_to_le_bytes(d.race_id)]);
    r
}

/// Whether `actor` may commit the match record back to the base layer and
/// release it there. Only the game server may; it may do so in any status,
/// since the fast layer's status can lag the real game, so a caller must not
/// assume the match was seen complete.
pub fn end_match(m: &ArenaMatchState, actor: Key) -> (r: Result<(), ArenaError>)
    ensures
        r == (if actor != m.game_server {
            Err(ArenaError::UnauthorizedServer)
        } else {
            Ok(())
        }),
{
    if actor != m.game_server {
        return Err(ArenaError::UnauthorizedServer);
    }
    Ok(())
}

/// Whether `actor` may commit the race record back to the base layer and
/// release it there: the game server may, once the race is finished or
/// cancelled.
pub fn end_derby(d: &DerbyRaceState, actor: Key) -> (r: Result<(), DerbyError>)
    ensures
        r == (if actor != d.game_server {
            Err(DerbyError::UnauthorizedServer)
        } else if !race_over(*d) {
            Err(DerbyError::RaceNotFinished)
        } else {
            Ok(())
        }),
{
    if actor != d.game_server {
        return Err(DerbyError::UnauthorizedServer);
    }
    if !d.status.is_over() {
        return Err(DerbyError::RaceNotFinished);
    }
    Ok(())
}

} // verus!
