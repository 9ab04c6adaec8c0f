//! What can be said of a draw in whole numbers. The draw itself weighs tokens
//! by square roots in floating point and is made outside this library; here its
//! outcome is held against the pool it was made on.
use vstd::prelude::*;

use crate::error::RecoveryRoomError;
use crate::key::Pubkey;
use crate::state::{
    lemma_submissions_upto_monotonic, submissions_upto, total_submissions, TokenPool,
    TokenPoolEntry,
};

verus! {

/// Some token of the pool has been entered: the pool has weight to draw on.
pub open spec fn has_submissions(entries: Seq<TokenPoolEntry>) -> bool {
    exists|i: int| 0 <= i < entries.len() && (#[trigger] entries[i]).submission_count > 0
}

/// The token can win a draw on the pool: it is registered there and has been entered.
pub open spec fn may_win(entries: Seq<TokenPoolEntry>, token_mint: Pubkey) -> bool {
    exists|i: int|
        0 <= i < entries.len() && (#[trigger] entries[i]).token_mint == token_mint
            && entries[i].submission_count > 0
}

/// The outcome fits the pool: a winner is a token of the pool that has been
/// entered, and a draw without participants is one on a pool in which no token
/// has been entered.
pub open spec fn draw_fits_pool(
    entries: Seq<TokenPoolEntry>,
    drawn: Result<Pubkey, RecoveryRoomError>,
) -> bool {
    match drawn {
        Ok(winner) => may_win(entries, winner),
        Err(e) => e == RecoveryRoomError::NoParticipants && !has_submissions(entries),
    }
}

/// A pool has submissions exactly when its submission counts do not sum to zero.
pub proof fn lemma_has_submissions_iff_total_positive(entries: Seq<TokenPoolEntry>)
    ensures
        has_submissions(entries) <==> total_submissions(entries) > 0,
{
    if has_submissions(entries) {
        let i = choose|i: int|
            0 <= i < entries.len() && (#[trigger] entries[i]).submission_count > 0;
        lemma_submissions_upto_monotonic(entries, i, entries.len() as int);
    } else {
        lemma_no_submissions_upto(entries, entries.len() as int);
    }
}

/// Where no token has been entered, every prefix of the counts sums to zero.
proof fn lemma_no_submissions_upto(entries: Seq<TokenPoolEntry>, n: int)
    requires
        0 <= n <= entries.len(),
        !has_submissions(entries),
    ensures
        submissions_upto(entries, n) == 0,
    decreases n,
{
    if n > 0 {
        lemma_no_submissions_upto(entries, n - 1);
        assert(entries[n - 1].submission_count == 0);
    }
}

/// Whether some token of the pool has been entered.
pub fn pool_has_submissions(pool: &TokenPool) -> (found: bool)
    ensures
        found == has_submissions(pool.entries@),
{
    let mut i: usize = 0;
    while i < pool.entries.len()
        invariant
            i <= pool.entries@.len(),
            forall|j: int| 0 <= j < i ==> (#[trigger] pool.entries@[j]).submission_count == 0,
        decreases pool.entries@.len() - i,
    {
        if pool.entries[i].submission_count > 0 {
            return true;
        }
        i = i + 1;
    }
    false
}

/// Whether the token is registered in the pool and has been entered.
pub fn token_may_win(pool: &TokenPool, token_mint: &Pubkey) -> (found: bool)
    ensures
        found == may_win(pool.entries@, *token_mint),
{
    let mut i: usize = 0;
    while i < pool.entries.len()
        invariant
            i <= pool.entries@.len(),
            forall|j: int|
                0 <= j < i ==> !((#[trigger] pool.entries@[j]).token_mint == *token_mint
                    && pool.entries@[j].submission_count > 0),
        decreases pool.entries@.len() - i,
    {
        if pool.entries[i].token_mint == *token_mint && pool.entries[i].submission_count > 0 {
            return true;
        }
        i = i + 1;
    }
    false
}

/// Whether the outcome of a draw fits the pool that it was made on.
pub fn check_draw(pool: &TokenPool, drawn: &Result<Pubkey, RecoveryRoomError>) -> (fits: bool)
    ensures
        fits == draw_fits_pool(pool.entries@, *drawn),
{
    match drawn {
        Ok(winner) => token_may_win(pool, winner),
        Err(e) => {
            let none = !pool_has_submissions(pool);
            match e {
                RecoveryRoomError::NoParticipants => none,
                _ => false,
            }
        },
    }
}

} // verus!
