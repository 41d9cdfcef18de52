use arena_match::{
    close_derby, create_derby, derby_server_update, start_derby, submit_derby_input, DerbyAction,
    DerbyError, DerbyRaceState, DerbyStatus, Key,
};

fn server() -> Key {
    Key::new([7u8; 32])
}

fn racer() -> Key {
    Key::new([5u8; 32])
}

fn racing() -> DerbyRaceState {
    let mut d = create_derby(7, server(), racer(), [42u8; 32], 1000);
    start_derby(&mut d, server()).unwrap();
    d
}

fn update(d: &mut DerbyRaceState, action: DerbyAction) -> Result<(), DerbyError> {
    derby_server_update(d, server(), action, 2000)
}

fn run_lap(d: &mut DerbyRaceState) {
    for id in 0..4u8 {
        update(d, DerbyAction::PassCheckpoint { checkpoint_id: id }).unwrap();
    }
    update(d, DerbyAction::CompleteLap).unwrap();
}

#[test]
fn create_derby_starts_zeroed() {
    let d = create_derby(7, server(), racer(), [42u8; 32], 1000);
    assert_eq!(d.race_id, 7);
    assert!(d.game_server == server());
    assert!(d.player == racer());
    assert_eq!(d.vrf_seed, [42u8; 32]);
    assert_eq!(d.status, DerbyStatus::Created);
    assert_eq!((d.current_tick, d.current_lap, d.checkpoints_passed), (0, 0, 0));
    assert_eq!((d.collisions, d.gold_collected, d.boosts_collected), (0, 0, 0));
    assert_eq!((d.gold_bitmask, d.boost_bitmask), (0, 0));
    assert_eq!((d.boost_end_tick, d.finish_tick), (0, 0));
    assert_eq!((d.created_at, d.settled_at), (1000, 0));
    assert!(d.is_well_formed());
}

#[test]
fn scenario_three_laps_then_finish() {
    let mut d = racing();
    for id in 0..4u8 {
        update(&mut d, DerbyAction::PassCheckpoint { checkpoint_id: id }).unwrap();
    }
    update(&mut d, DerbyAction::CompleteLap).unwrap();
    assert_eq!(d.current_lap, 1);
    assert_eq!(d.checkpoints_passed, 0);
    run_lap(&mut d);
    assert_eq!(d.current_lap, 2);
    assert_eq!(update(&mut d, DerbyAction::FinishRace), Err(DerbyError::LapsNotComplete));
    assert_eq!(d.status, DerbyStatus::Racing);
    run_lap(&mut d);
    assert_eq!(d.current_lap, 3);
    submit_derby_input(&mut d, 4321).unwrap();
    update(&mut d, DerbyAction::FinishRace).unwrap();
    assert_eq!(d.status, DerbyStatus::Finished);
    assert_eq!(d.finish_tick, 4321);
    assert_eq!(d.settled_at, 2000);
}

#[test]
fn scenario_gold_collected_twice() {
    let mut d = racing();
    update(&mut d, DerbyAction::CollectGold { item_index: 3 }).unwrap();
    assert_eq!(
        update(&mut d, DerbyAction::CollectGold { item_index: 3 }),
        Err(DerbyError::ItemAlreadyCollected)
    );
    assert_eq!(d.gold_collected, 1);
    assert_eq!(d.gold_bitmask, 1 << 3);
}

#[test]
fn gold_claim_survives_laps() {
    let mut d = racing();
    update(&mut d, DerbyAction::CollectGold { item_index: 14 }).unwrap();
    run_lap(&mut d);
    run_lap(&mut d);
    assert_eq!(
        update(&mut d, DerbyAction::CollectGold { item_index: 14 }),
        Err(DerbyError::ItemAlreadyCollected)
    );
    update(&mut d, DerbyAction::CollectGold { item_index: 0 }).unwrap();
    assert_eq!(d.gold_collected, 2);
    assert_eq!(d.gold_bitmask, (1 << 14) | 1);
}

#[test]
fn boost_claimed_once_and_window_replaced() {
    let mut d = racing();
    submit_derby_input(&mut d, 50).unwrap();
    update(&mut d, DerbyAction::CollectBoost { item_index: 7 }).unwrap();
    assert_eq!(d.boost_end_tick, 150);
    assert_eq!(d.boosts_collected, 1);
    assert_eq!(d.boost_bitmask, 0x80);
    run_lap(&mut d);
    assert_eq!(
        update(&mut d, DerbyAction::CollectBoost { item_index: 7 }),
        Err(DerbyError::ItemAlreadyCollected)
    );
    submit_derby_input(&mut d, 60).unwrap();
    update(&mut d, DerbyAction::CollectBoost { item_index: 2 }).unwrap();
    assert_eq!(d.boost_end_tick, 160);
    assert_eq!(d.boosts_collected, 2);
}

#[test]
fn item_index_limits() {
    let mut d = racing();
    assert_eq!(
        update(&mut d, DerbyAction::CollectGold { item_index: 15 }),
        Err(DerbyError::InvalidItemIndex)
    );
    assert_eq!(
        update(&mut d, DerbyAction::CollectBoost { item_index: 8 }),
        Err(DerbyError::InvalidItemIndex)
    );
    update(&mut d, DerbyAction::CollectBoost { item_index: 0 }).unwrap();
    assert_eq!(d.gold_collected, 0);
    assert_eq!(d.boosts_collected, 1);
}

#[test]
fn checkpoints_are_idempotent_and_bounded() {
    let mut d = racing();
    update(&mut d, DerbyAction::PassCheckpoint { checkpoint_id: 2 }).unwrap();
    update(&mut d, DerbyAction::PassCheckpoint { checkpoint_id: 2 }).unwrap();
    assert_eq!(d.checkpoints_passed, 0b100);
    assert_eq!(
        update(&mut d, DerbyAction::PassCheckpoint { checkpoint_id: 4 }),
        Err(DerbyError::InvalidCheckpoint)
    );
    assert_eq!(d.checkpoints_passed, 0b100);
}

#[test]
fn complete_lap_needs_every_checkpoint() {
    let mut d = racing();
    assert_eq!(update(&mut d, DerbyAction::CompleteLap), Err(DerbyError::MissingCheckpoints));
    for id in [0u8, 1, 3] {
        update(&mut d, DerbyAction::PassCheckpoint { checkpoint_id: id }).unwrap();
    }
    assert_eq!(update(&mut d, DerbyAction::CompleteLap), Err(DerbyError::MissingCheckpoints));
    assert_eq!(d.checkpoints_passed, 0b1011);
    assert_eq!(d.current_lap, 0);
    update(&mut d, DerbyAction::PassCheckpoint { checkpoint_id: 2 }).unwrap();
    assert_eq!(d.checkpoints_passed, 0b1111);
    update(&mut d, DerbyAction::CompleteLap).unwrap();
    assert_eq!(d.checkpoints_passed, 0);
    assert_eq!(d.current_lap, 1);
}

#[test]
fn lap_count_stops_at_race_laps() {
    let mut d = racing();
    for _ in 0..4 {
        run_lap(&mut d);
    }
    assert_eq!(d.current_lap, 3);
    assert_eq!(d.checkpoints_passed, 0);
    assert!(d.is_well_formed());
}

#[test]
fn collisions_count_up() {
    let mut d = racing();
    for _ in 0..3 {
        update(&mut d, DerbyAction::RecordCollision).unwrap();
    }
    assert_eq!(d.collisions, 3);
}

#[test]
fn collisions_saturate() {
    let mut d = racing();
    d.collisions = u16::MAX - 1;
    update(&mut d, DerbyAction::RecordCollision).unwrap();
    update(&mut d, DerbyAction::RecordCollision).unwrap();
    assert_eq!(d.collisions, u16::MAX);
}

#[test]
fn server_updates_need_a_running_race_and_the_server() {
    let mut d = create_derby(7, server(), racer(), [0u8; 32], 0);
    assert_eq!(update(&mut d, DerbyAction::RecordCollision), Err(DerbyError::RaceNotActive));
    start_derby(&mut d, server()).unwrap();
    assert_eq!(
        derby_server_update(&mut d, racer(), DerbyAction::RecordCollision, 0),
        Err(DerbyError::UnauthorizedServer)
    );
    assert_eq!(d.collisions, 0);
}

#[test]
fn start_derby_refusals() {
    let mut d = create_derby(7, server(), racer(), [0u8; 32], 0);
    assert_eq!(start_derby(&mut d, racer()), Err(DerbyError::UnauthorizedServer));
    start_derby(&mut d, server()).unwrap();
    assert_eq!(d.status, DerbyStatus::Racing);
    assert_eq!(start_derby(&mut d, server()), Err(DerbyError::InvalidDerbyState));
}

#[test]
fn derby_input_moves_clock_forward_only() {
    let mut d = racing();
    let mut last = d.current_tick;
    for tick in [30u32, 10, 6000, 5999] {
        submit_derby_input(&mut d, tick).unwrap();
        assert!(d.current_tick >= last);
        last = d.current_tick;
    }
    assert_eq!(d.current_tick, 6000);
}

#[test]
fn derby_input_refusals() {
    let mut d = create_derby(7, server(), racer(), [0u8; 32], 0);
    assert_eq!(submit_derby_input(&mut d, 1), Err(DerbyError::RaceNotActive));
    start_derby(&mut d, server()).unwrap();
    assert_eq!(submit_derby_input(&mut d, 6001), Err(DerbyError::RaceTimedOut));
    assert_eq!(d.current_tick, 0);
}

#[test]
fn close_derby_after_finish_only() {
    let mut d = racing();
    assert_eq!(close_derby(&d, server()), Err(DerbyError::RaceNotFinished));
    d.status = DerbyStatus::Cancelled;
    assert_eq!(close_derby(&d, server()), Ok(()));
    assert_eq!(close_derby(&d, racer()), Err(DerbyError::UnauthorizedServer));
}

#[test]
fn derby_defaults_and_messages() {
    assert_eq!(DerbyStatus::default(), DerbyStatus::Created);
    assert!(DerbyStatus::Finished.is_over());
    assert!(!DerbyStatus::Racing.is_over());
    assert_eq!(DerbyError::ItemAlreadyCollected.message(), "Item already collected");
}
