//! Round lifecycle of a periodic lottery.
//!
//! Participants enter tokens while a round is open; when the round has ended a
//! 32-byte random value picks one winning token. The draw weighs tokens by
//! square roots in floating point and is made by the caller; this library reads
//! the number to draw with from the random value, holds the draw's outcome
//! against the pool, and takes the round through its states.
pub mod accounts;
pub mod arith;
pub mod error;
pub mod events;
pub mod key;
pub mod laws;
pub mod lifecycle;
pub mod selection;
pub mod state;

pub use accounts::{
    ConsumeRandomness, InitializeProtocol, Participate, RequestRandomness, StartRound,
};
pub use error::RecoveryRoomError;
pub use events::{RoundComplete, RoundStarted, UserParticipated, VrfRequested};
pub use key::Pubkey;
pub use lifecycle::{
    awaits_randomness, consume_randomness, consume_randomness_refusal, draw_value, initialize_protocol, participate,
    participate_refusal, register_token, request_randomness, request_randomness_refusal,
    start_round, start_round_refusal,
};
pub use selection::{check_draw, pool_has_submissions, token_may_win};
pub use state::{
    Participation, ProtocolState, RoundState, RoundStatus, TokenEntry, TokenPool, TokenPoolEntry,
};
