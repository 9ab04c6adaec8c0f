use recovery_room::{
    check_draw, consume_randomness, draw_value, pool_has_submissions, register_token,
    token_may_win, ConsumeRandomness, ProtocolState, Pubkey, RecoveryRoomError, RoundComplete,
    RoundState, RoundStatus, TokenPool, TokenPoolEntry,
};

fn key(n: u8) -> Pubkey {
    Pubkey::new_from_array([n; 32])
}

fn pool_of(counts: &[u32]) -> TokenPool {
    let mut pool = TokenPool::new(1);
    for (i, count) in counts.iter().enumerate() {
        pool.entries.push(TokenPoolEntry {
            token_mint: key(i as u8 + 1),
            ticker: format!("T{}", i),
            submission_count: *count,
            color: String::from("#ffffff"),
        });
    }
    pool
}

fn waiting(counts: &[u32]) -> ConsumeRandomness {
    let total: u32 = counts.iter().sum();
    ConsumeRandomness {
        protocol_state: ProtocolState {
            authority: key(200),
            round_duration: 3600,
            min_loss_percentage: 80,
            max_tokens_per_user: 3,
            current_round: 1,
            total_rounds_completed: 0,
            bump: 254,
        },
        round_state: RoundState {
            round_id: 1,
            start_time: 0,
            end_time: 3600,
            total_participants: total,
            total_token_entries: total,
            status: RoundStatus::VrfRequested,
            vrf_result: None,
            winner_token: None,
            bump: 7,
        },
        token_pool: pool_of(counts),
    }
}

/// The draw as the caller makes it, with square roots in floating point.
fn float_draw(pool: &TokenPool, vrf_value: u128) -> Result<Pubkey, RecoveryRoomError> {
    let mut total_weight: f64 = 0.0;
    let mut weights: Vec<(Pubkey, f64)> = Vec::new();
    for entry in &pool.entries {
        if entry.submission_count > 0 {
            let weight = (entry.submission_count as f64).sqrt();
            total_weight += weight;
            weights.push((entry.token_mint, weight));
        }
    }
    if !(total_weight > 0.0) {
        return Err(RecoveryRoomError::NoParticipants);
    }
    let normalized = (vrf_value as f64) / (u128::MAX as f64);
    let target = normalized * total_weight;
    let mut accumulated = 0.0;
    let mut last = weights[0].0;
    for (token, weight) in weights {
        accumulated += weight;
        if target <= accumulated {
            return Ok(token);
        }
        last = token;
    }
    Ok(last)
}

#[test]
fn pool_without_entered_tokens_has_no_submissions() {
    assert!(!pool_has_submissions(&pool_of(&[])));
    assert!(!pool_has_submissions(&pool_of(&[0, 0, 0])));
    assert!(pool_has_submissions(&pool_of(&[0, 0, 1])));
    assert!(pool_has_submissions(&pool_of(&[5])));
}

#[test]
fn only_an_entered_token_of_the_pool_may_win() {
    let pool = pool_of(&[0, 7, 0, 3]);
    assert!(!token_may_win(&pool, &key(1)));
    assert!(token_may_win(&pool, &key(2)));
    assert!(!token_may_win(&pool, &key(3)));
    assert!(token_may_win(&pool, &key(4)));
    assert!(!token_may_win(&pool, &key(5)));
    assert!(!token_may_win(&pool_of(&[]), &key(1)));
}

#[test]
fn winner_fits_the_pool_when_it_was_entered() {
    let pool = pool_of(&[4, 0, 1]);
    assert!(check_draw(&pool, &Ok(key(1))));
    assert!(check_draw(&pool, &Ok(key(3))));
    assert!(!check_draw(&pool, &Ok(key(2))));
    assert!(!check_draw(&pool, &Ok(key(9))));
}

#[test]
fn no_participants_fits_only_a_pool_without_submissions() {
    assert!(check_draw(&pool_of(&[0, 0]), &Err(RecoveryRoomError::NoParticipants)));
    assert!(check_draw(&pool_of(&[]), &Err(RecoveryRoomError::NoParticipants)));
    assert!(!check_draw(&pool_of(&[0, 2]), &Err(RecoveryRoomError::NoParticipants)));
    assert!(!check_draw(&pool_of(&[0, 0]), &Err(RecoveryRoomError::RoundEnded)));
    assert!(!check_draw(&pool_of(&[0, 0]), &Ok(key(1))));
}

#[test]
fn draw_at_half_falls_on_the_heavier_first_token() {
    // X weighs 2, Y weighs 1; half of 3 is 1.5, which lies in X's stretch [0, 2].
    let mut ctx = waiting(&[4, 1]);
    let mut vrf_result = [0u8; 32];
    vrf_result[15] = 0x80;
    let value = draw_value(&ctx, &vrf_result).unwrap();
    assert_eq!(value, 1u128 << 127);
    let drawn = float_draw(&ctx.token_pool, value);
    assert_eq!(drawn, Ok(key(1)));
    assert!(check_draw(&ctx.token_pool, &drawn));
    assert_eq!(
        consume_randomness(&mut ctx, vrf_result, drawn),
        Ok(RoundComplete { round_id: 1, winner_token: key(1), vrf_result })
    );
    assert_eq!(ctx.round_state.winner_token, Some(key(1)));
}

#[test]
fn floating_point_draws_fit_their_pools() {
    let pools: [&[u32]; 7] = [
        &[4, 1],
        &[2, 1],
        &[2, 3, 5, 7, 11],
        &[1, 1, 1],
        &[0, 6, 0, 0, 10, 1000, 3],
        &[4_000_000_000, 1, 2],
        &[17],
    ];
    let mut state: u64 = 0x853c_49e6_748f_ea9b;
    for counts in pools.iter() {
        let pool = pool_of(counts);
        for _ in 0..200 {
            state = state.wrapping_mul(6364136223846793005).wrapping_add(1442695040888963407);
            let high = state as u128;
            state = state.wrapping_mul(6364136223846793005).wrapping_add(1442695040888963407);
            let value = (high << 64) | state as u128;
            let drawn = float_draw(&pool, value);
            assert!(drawn.is_ok());
            assert!(check_draw(&pool, &drawn));
        }
        assert!(check_draw(&pool, &float_draw(&pool, 0)));
        assert!(check_draw(&pool, &float_draw(&pool, u128::MAX)));
    }
    let empty = pool_of(&[0, 0]);
    assert_eq!(float_draw(&empty, 5), Err(RecoveryRoomError::NoParticipants));
    assert!(check_draw(&empty, &float_draw(&empty, 5)));
}

#[test]
fn draw_near_a_boundary_is_decided_as_it_was_drawn() {
    // The target lies a rounding step below the first token's weight.
    let mut ctx = waiting(&[2, 1]);
    let value: u128 = 199332795505867800000000000000000000000;
    let mut vrf_result = [0xabu8; 32];
    vrf_result[..16].copy_from_slice(&value.to_le_bytes());
    assert_eq!(draw_value(&ctx, &vrf_result), Ok(value));
    let drawn = float_draw(&ctx.token_pool, value);
    assert_eq!(drawn, Ok(key(1)));
    assert_eq!(
        consume_randomness(&mut ctx, vrf_result, drawn).map(|event| event.winner_token),
        Ok(key(1))
    );
}

#[test]
fn check_works_on_a_pool_filled_by_registration() {
    let mut pool = TokenPool::new(9);
    assert_eq!(register_token(&mut pool, key(1), String::from("AAA"), String::from("red")), Ok(()));
    assert_eq!(register_token(&mut pool, key(2), String::from("BBB"), String::from("blue")), Ok(()));
    assert!(!pool_has_submissions(&pool));
    assert!(check_draw(&pool, &Err(RecoveryRoomError::NoParticipants)));
    pool.entries[1].submission_count = 2;
    assert!(check_draw(&pool, &Ok(key(2))));
    assert!(!check_draw(&pool, &Ok(key(1))));
}
