//! What a successful operation reports to the outside.
use vstd::prelude::*;

use crate::key::Pubkey;

verus! {

/// A round was opened.
#[derive(Clone, Copy, Debug, PartialEq, Eq, Structural)]
pub struct RoundStarted {
    pub round_id: u64,
    pub start_time: i64,
    pub end_time: i64,
}

/// A user entered tokens into a round.
#[derive(Clone, Copy, Debug, PartialEq, Eq)]
pub struct UserParticipated {
    pub round_id: u64,
    pub user: Pubkey,
    pub token_count: u8,
}

/// A round was closed and now waits for its random value.
#[derive(Clone, Copy, Debug, PartialEq, Eq, Structural)]
pub struct VrfRequested {
    pub round_id: u64,
    pub timestamp: i64,
}

/// A round got its winner.
#[derive(Clone, Copy, Debug, PartialEq, Eq)]
pub struct RoundComplete {
    pub round_id: u64,
    pub winner_token: Pubkey,
    pub vrf_result: [u8; 32],
}

} // verus!
