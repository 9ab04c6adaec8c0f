use recovery_room::{
    check_draw, consume_randomness, draw_value, initialize_protocol, participate, register_token, request_randomness,
    start_round, ConsumeRandomness, InitializeProtocol, Participate, Pubkey, RecoveryRoomError,
    RequestRandomness, RoundStarted, RoundStatus, StartRound, TokenEntry, VrfRequested,
};

fn key(n: u8) -> Pubkey {
    Pubkey::new_from_array([n; 32])
}

fn entry(n: u8) -> TokenEntry {
    TokenEntry {
        token_mint: key(n),
        ticker: format!("TK{}", n),
        loss_amount_usd: 100_00,
        holdings: 5,
    }
}

#[test]
fn round_with_two_entries_closes_only_after_its_end() {
    let mut setup = InitializeProtocol { protocol_state: None, authority: key(1), bump: 255 };
    assert_eq!(initialize_protocol(&mut setup, 3600, 80, 3), Ok(()));
    let mut opening = StartRound {
        protocol_state: setup.protocol_state.unwrap(),
        round_state: None,
        token_pool: None,
        previous_round: None,
        bump: 254,
    };
    assert_eq!(
        start_round(&mut opening, 0),
        Ok(RoundStarted { round_id: 1, start_time: 0, end_time: 3600 })
    );
    let mut pool = opening.token_pool.take().unwrap();
    assert_eq!(register_token(&mut pool, key(10), String::from("AAA"), String::from("red")), Ok(()));
    assert_eq!(register_token(&mut pool, key(11), String::from("BBB"), String::from("blue")), Ok(()));

    let mut submission = Participate {
        protocol_state: opening.protocol_state,
        round_state: opening.round_state.unwrap(),
        participation: None,
        token_pool_entries: pool,
        user: key(50),
        bump: 253,
    };
    assert!(submission.is_wf());
    assert!(participate(&mut submission, vec![entry(10), entry(11)], 10).is_ok());
    assert_eq!(submission.round_state.total_participants, 1);
    assert_eq!(submission.round_state.total_token_entries, 2);

    let mut closing = RequestRandomness {
        protocol_state: submission.protocol_state,
        round_state: submission.round_state,
    };
    assert_eq!(request_randomness(&mut closing, 10), Err(RecoveryRoomError::RoundNotEnded));
    assert_eq!(closing.round_state.status, RoundStatus::Active);
    assert_eq!(
        request_randomness(&mut closing, 3601),
        Ok(VrfRequested { round_id: 1, timestamp: 3601 })
    );
    assert_eq!(closing.round_state.status, RoundStatus::VrfRequested);
}

#[test]
fn rounds_follow_each_other() {
    let mut setup = InitializeProtocol { protocol_state: None, authority: key(1), bump: 255 };
    assert_eq!(initialize_protocol(&mut setup, 100, 50, 2), Ok(()));
    let mut protocol = setup.protocol_state.unwrap();
    let mut previous = None;
    let mut now = 1000;
    for round_number in 1..=3u64 {
        let mut opening = StartRound {
            protocol_state: protocol,
            round_state: None,
            token_pool: None,
            previous_round: previous,
            bump: 1,
        };
        assert_eq!(start_round(&mut opening, now).map(|e| e.round_id), Ok(round_number));
        let round = opening.round_state.unwrap();

        // A second round cannot be opened while this one is undecided.
        let mut too_early = StartRound {
            protocol_state: opening.protocol_state,
            round_state: None,
            token_pool: None,
            previous_round: Some(round),
            bump: 1,
        };
        assert_eq!(
            start_round(&mut too_early, now + 1),
            Err(RecoveryRoomError::PreviousRoundNotComplete)
        );

        let mut pool = opening.token_pool.take().unwrap();
        assert_eq!(pool.round_id, round_number);
        for n in 1..=3u8 {
            assert_eq!(register_token(&mut pool, key(n), format!("T{}", n), String::new()), Ok(()));
        }
        let mut round = round;
        for user in 0..4u8 {
            let mut submission = Participate {
                protocol_state: opening.protocol_state,
                round_state: round,
                participation: None,
                token_pool_entries: pool,
                user: key(100 + user),
                bump: 2,
            };
            assert!(participate(&mut submission, vec![entry(user % 3 + 1), entry(3)], now + 5).is_ok());
            assert!(submission.is_conserved());
            round = submission.round_state;
            pool = submission.token_pool_entries;
        }
        assert_eq!(round.total_participants, 4);
        assert_eq!(round.total_token_entries, 8);

        // Not decided before it is closed.
        let mut premature = ConsumeRandomness {
            protocol_state: opening.protocol_state,
            round_state: round,
            token_pool: pool,
        };
        assert_eq!(
            consume_randomness(&mut premature, [7u8; 32], Ok(key(3))),
            Err(RecoveryRoomError::InvalidRoundStatus)
        );

        let mut closing =
            RequestRandomness { protocol_state: premature.protocol_state, round_state: round };
        assert_eq!(request_randomness(&mut closing, now + 99), Err(RecoveryRoomError::RoundNotEnded));
        assert!(request_randomness(&mut closing, now + 100).is_ok());

        let mut deciding = ConsumeRandomness {
            protocol_state: closing.protocol_state,
            round_state: closing.round_state,
            token_pool: premature.token_pool,
        };
        assert_eq!(
            consume_randomness(&mut deciding, [0u8; 32], Ok(key(3))),
            Err(RecoveryRoomError::VrfNotResolved)
        );
        let delivered = [round_number as u8 * 60; 32];
        assert!(draw_value(&deciding, &delivered).is_ok());
        let drawn = Ok(key(round_number as u8));
        assert!(check_draw(&deciding.token_pool, &drawn));
        let event = consume_randomness(&mut deciding, delivered, drawn).unwrap();
        assert_eq!(event.winner_token, key(round_number as u8));
        assert_eq!(event.round_id, round_number);
        assert_eq!(deciding.round_state.winner_token, Some(event.winner_token));
        assert_eq!(deciding.round_state.status, RoundStatus::Complete);
        assert_eq!(deciding.protocol_state.total_rounds_completed, round_number);
        assert_eq!(deciding.protocol_state.current_round, round_number);
        assert!(deciding.token_pool.position(&event.winner_token).is_some());

        protocol = deciding.protocol_state;
        previous = Some(deciding.round_state);
        now += 500;
    }
}
