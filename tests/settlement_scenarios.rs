use arena_match::{
    create_derby, create_match, delegate_derby, delegate_match, delegate_player_state,
    derby_server_update, end_derby, end_match, start_derby, ArenaError, DerbyAction, DerbyError,
    DerbyStatus, Key,
};

fn server() -> Key {
    Key::new([9u8; 32])
}

#[test]
fn match_delegation_seeds() {
    let r = delegate_match(0x0102, None);
    assert_eq!(r.seeds, vec![b"arena_match".to_vec(), vec![2, 1, 0, 0, 0, 0, 0, 0]]);
    assert!(r.validator.is_none());
}

#[test]
fn player_state_delegation_seeds_and_validator() {
    let player = Key::new([3u8; 32]);
    let validator = Key::new([4u8; 32]);
    let r = delegate_player_state(u64::MAX, player, Some(validator));
    assert_eq!(r.seeds.len(), 3);
    assert_eq!(r.seeds[0], b"player_state".to_vec());
    assert_eq!(r.seeds[1], vec![0xff; 8]);
    assert_eq!(r.seeds[2], vec![3u8; 32]);
    assert!(r.validator.unwrap() == validator);
}

#[test]
fn derby_delegation_seeds() {
    let d = create_derby(7, server(), Key::new([5u8; 32]), [0u8; 32], 0);
    let r = delegate_derby(&d, None);
    assert_eq!(r.seeds, vec![b"derby_race".to_vec(), vec![7, 0, 0, 0, 0, 0, 0, 0]]);
}

#[test]
fn end_match_needs_only_the_server() {
    let m = create_match(1, server(), Key::new([1u8; 32]), 0);
    assert_eq!(end_match(&m, server()), Ok(()));
    assert_eq!(end_match(&m, Key::new([1u8; 32])), Err(ArenaError::UnauthorizedServer));
}

#[test]
fn end_derby_needs_a_finished_race() {
    let mut d = create_derby(7, server(), Key::new([5u8; 32]), [0u8; 32], 0);
    assert_eq!(end_derby(&d, server()), Err(DerbyError::RaceNotFinished));
    start_derby(&mut d, server()).unwrap();
    for _ in 0..3 {
        for id in 0..4u8 {
            derby_server_update(&mut d, server(), DerbyAction::PassCheckpoint { checkpoint_id: id }, 0)
                .unwrap();
        }
        derby_server_update(&mut d, server(), DerbyAction::CompleteLap, 0).unwrap();
    }
    assert_eq!(end_derby(&d, server()), Err(DerbyError::RaceNotFinished));
    derby_server_update(&mut d, server(), DerbyAction::FinishRace, 0).unwrap();
    assert_eq!(d.status, DerbyStatus::Finished);
    assert_eq!(end_derby(&d, Key::new([5u8; 32])), Err(DerbyError::UnauthorizedServer));
    assert_eq!(end_derby(&d, server()), Ok(()));
}
