//! The records that each operation works on, bundled.
use vstd::prelude::*;

use crate::key::Pubkey;
use crate::state::{total_submissions, Participation, ProtocolState, RoundState, TokenPool};

verus! {

/// What setting up the protocol works on.
#[derive(Clone, Debug, PartialEq, Eq)]
pub struct InitializeProtocol {
    /// The protocol's settings; `None` until the protocol is set up.
    pub protocol_state: Option<ProtocolState>,
    /// Who sets the protocol up.
    pub authority: Pubkey,
    pub bump: u8,
}

/// What opening a round works on.
#[derive(Clone, Debug, PartialEq, Eq)]
pub struct StartRound {
    pub protocol_state: ProtocolState,
    /// The place of the round to open; filled when the round is opened.
    pub round_state: Option<RoundState>,
    /// The place of the new round's pool; filled when the round is opened.
    pub token_pool: Option<TokenPool>,
    /// The round opened last, if there is one.
    pub previous_round: Option<RoundState>,
    pub bump: u8,
}

/// What a user's submission of entries works on.
#[derive(Clone, Debug, PartialEq, Eq)]
pub struct Participate {
    pub protocol_state: ProtocolState,
    pub round_state: RoundState,
    /// The place of this user's participation in this round; `None` until the
    /// user has participated.
    pub participation: Option<Participation>,
    /// The pool of the round.
    pub token_pool_entries: TokenPool,
    pub user: Pubkey,
    pub bump: u8,
}

/// What closing a round for its draw works on.
#[derive(Clone, Debug, PartialEq, Eq)]
pub struct RequestRandomness {
    pub protocol_state: ProtocolState,
    pub round_state: RoundState,
}

/// What deciding a round works on.
#[derive(Clone, Debug, PartialEq, Eq)]
pub struct ConsumeRandomness {
    pub protocol_state: ProtocolState,
    pub round_state: RoundState,
    /// The pool of the round.
    pub token_pool: TokenPool,
}

impl InitializeProtocol {
    /// The protocol's settings, if the protocol is set up. Reading changes nothing.
    pub fn read(&self) -> (settings: Option<ProtocolState>)
        ensures
            settings == self.protocol_state,
    {
        self.protocol_state
    }
}

impl Participate {
    /// The pool names no token twice, and it counts no more submissions than the
    /// round counts entries.
    pub open spec fn wf(&self) -> bool {
        &&& self.token_pool_entries.wf()
        &&& total_submissions(self.token_pool_entries.entries@)
            <= self.round_state.total_token_entries
    }

    /// Every entry that the round counts is counted for a token of the pool.
    pub open spec fn conserved(&self) -> bool {
        total_submissions(self.token_pool_entries.entries@) == self.round_state.total_token_entries
    }

    /// Whether the pool names no token twice and counts no more submissions than
    /// the round counts entries.
    pub fn is_wf(&self) -> (valid: bool)
        ensures
            valid == self.wf(),
    {
        self.token_pool_entries.has_distinct_tokens() && self.token_pool_entries.total_submissions()
            <= self.round_state.total_token_entries as u128
    }

    /// Whether every entry that the round counts is counted for a token of the pool.
    pub fn is_conserved(&self) -> (conserved: bool)
        ensures
            conserved == self.conserved(),
    {
        self.token_pool_entries.total_submissions() == self.round_state.total_token_entries as u128
    }
}

} // verus!
