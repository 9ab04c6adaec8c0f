//! The records of the lottery: the protocol's settings, a round, its pool of
//! tokens and the participations, with what must hold of them.
use vstd::prelude::*;

use crate::key::Pubkey;

verus! {

/// Settings that hold across rounds, and the round counters.
#[derive(Clone, Copy, Debug, PartialEq, Eq)]
pub struct ProtocolState {
    pub authority: Pubkey,
    /// Length of a round in seconds.
    pub round_duration: i64,
    /// Smallest loss, in percent, that makes a token eligible.
    pub min_loss_percentage: u8,
    /// Largest number of entries in one participation.
    pub max_tokens_per_user: u8,
    /// Id of the round opened last; 0 before the first round.
    pub current_round: u64,
    pub total_rounds_completed: u64,
    pub bump: u8,
}

/// Where a round stands: open for entries, waiting for its random value, or decided.
#[derive(Clone, Copy, Debug, PartialEq, Eq, Structural)]
pub enum RoundStatus {
    Active,
    VrfRequested,
    Complete,
}

/// One round of the lottery.
#[derive(Clone, Copy, Debug, PartialEq, Eq)]
pub struct RoundState {
    pub round_id: u64,
    pub start_time: i64,
    pub end_time: i64,
    pub total_participants: u32,
    pub total_token_entries: u32,
    pub status: RoundStatus,
    /// The random value of the draw, once the round is decided.
    pub vrf_result: Option<[u8; 32]>,
    /// The winning token, once the round is decided.
    pub winner_token: Option<Pubkey>,
    pub bump: u8,
}

/// What one user entered into one round.
#[derive(Clone, Debug, PartialEq, Eq)]
pub struct Participation {
    pub user: Pubkey,
    pub round_id: u64,
    pub tokens: Vec<TokenEntry>,
    pub timestamp: i64,
    pub bump: u8,
}

/// One token that a user enters, with what the user lost on it.
#[derive(Clone, Debug, PartialEq, Eq)]
pub struct TokenEntry {
    pub token_mint: Pubkey,
    pub ticker: String,
    /// Loss in cents.
    pub loss_amount_usd: u64,
    pub holdings: u64,
}

/// The tokens registered for a round, in the order of their registration.
#[derive(Clone, Debug, PartialEq, Eq)]
pub struct TokenPool {
    pub round_id: u64,
    pub entries: Vec<TokenPoolEntry>,
}

/// A registered token and the number of times it was entered.
#[derive(Clone, Debug, PartialEq, Eq)]
pub struct TokenPoolEntry {
    pub token_mint: Pubkey,
    pub ticker: String,
    pub submission_count: u32,
    pub color: String,
}

/// The sum of the submission counts of the first `n` entries.
pub open spec fn submissions_upto(entries: Seq<TokenPoolEntry>, n: int) -> nat
    decreases n,
{
    if n <= 0 {
        0
    } else {
        submissions_upto(entries, n - 1) + entries[n - 1].submission_count as nat
    }
}

/// The sum of all submission counts of a pool.
pub open spec fn total_submissions(entries: Seq<TokenPoolEntry>) -> nat {
    submissions_upto(entries, entries.len() as int)
}

/// No token is registered twice.
pub open spec fn distinct_tokens(entries: Seq<TokenPoolEntry>) -> bool {
    forall|i: int, j: int|
        0 <= i < j < entries.len() ==> (#[trigger] entries[i]).token_mint != (
        #[trigger] entries[j]).token_mint
}

/// Whether the token is registered in the pool.
pub open spec fn is_registered(entries: Seq<TokenPoolEntry>, token_mint: Pubkey) -> bool {
    exists|i: int| 0 <= i < entries.len() && (#[trigger] entries[i]).token_mint == token_mint
}

/// A prefix sum grows with the prefix, and each count is part of every sum that covers it.
pub proof fn lemma_submissions_upto_monotonic(entries: Seq<TokenPoolEntry>, m: int, n: int)
    requires
        0 <= m <= n,
    ensures
        submissions_upto(entries, m) <= submissions_upto(entries, n),
        m < n ==> submissions_upto(entries, m) + entries[m].submission_count <= submissions_upto(
            entries,
            n,
        ),
    decreases n - m,
{
    if m < n {
        lemma_submissions_upto_monotonic(entries, m + 1, n);
    }
}

/// Two pools that agree on the first `n` counts have the same prefix sum.
pub proof fn lemma_submissions_upto_same(a: Seq<TokenPoolEntry>, b: Seq<TokenPoolEntry>, n: int)
    requires
        forall|i: int| 0 <= i < n ==> a[i].submission_count == b[i].submission_count,
    ensures
        submissions_upto(a, n) == submissions_upto(b, n),
    decreases n,
{
    if n > 0 {
        lemma_submissions_upto_same(a, b, n - 1);
    }
}

/// Raising one count by one raises every prefix sum that covers it by one.
pub proof fn lemma_submissions_upto_after_increment(
    before: Seq<TokenPoolEntry>,
    after: Seq<TokenPoolEntry>,
    at: int,
    n: int,
)
    requires
        0 <= at < before.len(),
        0 <= n <= before.len(),
        after.len() == before.len(),
        after[at].submission_count == before[at].submission_count + 1,
        forall|i: int|
            0 <= i < before.len() && i != at ==> after[i].submission_count
                == before[i].submission_count,
    ensures
        submissions_upto(after, n) == submissions_upto(before, n) + if at < n {
            1nat
        } else {
            0nat
        },
    decreases n,
{
    if n > 0 {
        lemma_submissions_upto_after_increment(before, after, at, n - 1);
    }
}

impl ProtocolState {
    /// The settings are in their ranges: a positive round length, a percentage, and
    /// room for at least one entry per user.
    pub open spec fn wf(&self) -> bool {
        &&& self.round_duration > 0
        &&& self.min_loss_percentage <= 100
        &&& self.max_tokens_per_user >= 1
    }

    /// Whether the settings are in their ranges.
    pub fn is_wf(&self) -> (valid: bool)
        ensures
            valid == self.wf(),
    {
        self.round_duration > 0 && self.min_loss_percentage <= 100 && self.max_tokens_per_user >= 1
    }
}

impl RoundState {
    /// A round has its random value and its winner exactly when it is decided, and
    /// does not end before it starts.
    pub open spec fn wf(&self) -> bool {
        &&& self.start_time <= self.end_time
        &&& self.vrf_result is Some <==> self.status == RoundStatus::Complete
        &&& self.winner_token is Some <==> self.status == RoundStatus::Complete
    }
}

impl TokenPool {
    /// No token is registered twice.
    pub open spec fn wf(&self) -> bool {
        distinct_tokens(self.entries@)
    }

    /// An empty pool for the round `round_id`.
    pub fn new(round_id: u64) -> (pool: TokenPool)
        ensures
            pool.round_id == round_id,
            pool.entries@ == Seq::<TokenPoolEntry>::empty(),
            pool.wf(),
    {
        TokenPool { round_id, entries: Vec::new() }
    }

    /// The position of the token in the pool, if it is registered.
    pub fn position(&self, token_mint: &Pubkey) -> (found: Option<usize>)
        ensures
            match found {
                Some(i) => {
                    &&& i < self.entries@.len()
                    &&& self.entries@[i as int].token_mint == *token_mint
                    &&& forall|j: int| 0 <= j < i ==> self.entries@[j].token_mint != *token_mint
                },
                None => !is_registered(self.entries@, *token_mint),
            },
    {
        let mut i: usize = 0;
        while i < self.entries.len()
            invariant
                i <= self.entries@.len(),
                forall|j: int| 0 <= j < i ==> self.entries@[j].token_mint != *token_mint,
            decreases self.entries@.len() - i,
        {
            if self.entries[i].token_mint == *token_mint {
                return Some(i);
            }
            i = i + 1;
        }
        None
    }

    /// Whether no token is registered twice.
    pub fn has_distinct_tokens(&self) -> (distinct: bool)
        ensures
            distinct == self.wf(),
    {
        let n = self.entries.len();
        let mut j: usize = 0;
        while j < n
            invariant
                n == self.entries@.len(),
                j <= n,
                forall|a: int, b: int|
                    0 <= a < b < j ==> (#[trigger] self.entries@[a]).token_mint != (
                    #[trigger] self.entries@[b]).token_mint,
            decreases n - j,
        {
            let mut i: usize = 0;
            while i < j
                invariant
                    n == self.entries@.len(),
                    i <= j < n,
                    forall|a: int|
                        0 <= a < i ==> (#[trigger] self.entries@[a]).token_mint
                            != self.entries@[j as int].token_mint,
                decreases j - i,
            {
                if self.entries[i].token_mint == self.entries[j].token_mint {
                    return false;
                }
                i = i + 1;
            }
            j = j + 1;
        }
        true
    }

    /// The sum of all submission counts.
    pub fn total_submissions(&self) -> (total: u128)
        ensures
            total == total_submissions(self.entries@),
    {
        let n = self.entries.len();
        let mut total: u128 = 0;
        let mut i: usize = 0;
        while i < n
            invariant
                n == self.entries@.len(),
                i <= n,
                total == submissions_upto(self.entries@, i as int),
                total <= i * u32::MAX,
            decreases n - i,
        {
            total = total + self.entries[i].submission_count as u128;
            i = i + 1;
        }
        total
    }
}

} // verus!
