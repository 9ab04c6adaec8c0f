//! The operations that take a round through its life: opened, filled with
//! entries, closed for its draw, decided.
use vstd::prelude::*;

use crate::accounts::{
    ConsumeRandomness, InitializeProtocol, Participate, RequestRandomness, StartRound,
};
use crate::arith::{le_u128, u128_from_le_prefix};
use crate::error::RecoveryRoomError;
use crate::events::{RoundComplete, RoundStarted, UserParticipated, VrfRequested};
use crate::key::Pubkey;
use crate::state::{
    distinct_tokens, is_registered, lemma_submissions_upto_after_increment,
    lemma_submissions_upto_monotonic, total_submissions, Participation, ProtocolState, RoundState,
    RoundStatus, TokenEntry, TokenPool, TokenPoolEntry,
};

verus! {

// ---------------------------------------------------------------------------
// Setting up
// ---------------------------------------------------------------------------
/// Sets the protocol up with its settings and both round counters at zero.
/// A protocol that is set up already is left as it is.
pub fn initialize_protocol(
    ctx: &mut InitializeProtocol,
    round_duration: i64,
    min_loss_percentage: u8,
    max_tokens_per_user: u8,
) -> (outcome: Result<(), RecoveryRoomError>)
    requires
        old(ctx).protocol_state is None ==> round_duration > 0 && min_loss_percentage <= 100
            && max_tokens_per_user >= 1,
    ensures
        old(ctx).protocol_state is Some ==> outcome == Err::<(), RecoveryRoomError>(
            RecoveryRoomError::AlreadyInitialized,
        ) && *final(ctx) == *old(ctx),
        old(ctx).protocol_state is None ==> outcome is Ok && *final(ctx) == (InitializeProtocol {
            protocol_state: Some(
                ProtocolState {
                    authority: old(ctx).authority,
                    round_duration,
                    min_loss_percentage,
                    max_tokens_per_user,
                    current_round: 0,
                    total_rounds_completed: 0,
                    bump: old(ctx).bump,
                },
            ),
            ..*old(ctx)
        }),
        outcome is Ok ==> final(ctx).protocol_state->Some_0.wf(),
{
    if ctx.protocol_state.is_some() {
        return Err(RecoveryRoomError::AlreadyInitialized);
    }
    ctx.protocol_state = Some(
        ProtocolState {
            authority: ctx.authority,
            round_duration,
            min_loss_percentage,
            max_tokens_per_user,
            current_round: 0,
            total_rounds_completed: 0,
            bump: ctx.bump,
        },
    );
    Ok(())
}

// ---------------------------------------------------------------------------
// Opening a round
// ---------------------------------------------------------------------------
/// Whether a round may be opened: either none was opened yet, or the one opened
/// last is at hand and decided.
pub open spec fn may_start_round(protocol: ProtocolState, previous: Option<RoundState>) -> bool {
    protocol.current_round == 0 || (previous matches Some(round) && round.round_id
        == protocol.current_round && round.status == RoundStatus::Complete)
}

/// Why a round cannot be opened, if it cannot.
pub open spec fn start_round_error(
    protocol: ProtocolState,
    previous: Option<RoundState>,
) -> Option<RecoveryRoomError> {
    if may_start_round(protocol, previous) {
        None
    } else {
        Some(RecoveryRoomError::PreviousRoundNotComplete)
    }
}

/// The round that is opened at time `now`.
pub open spec fn opened_round(protocol: ProtocolState, now: i64, bump: u8) -> RoundState {
    RoundState {
        round_id: (protocol.current_round + 1) as u64,
        start_time: now,
        end_time: (now + protocol.round_duration) as i64,
        total_participants: 0,
        total_token_entries: 0,
        status: RoundStatus::Active,
        vrf_result: None,
        winner_token: None,
        bump,
    }
}

/// Why opening a round would be refused, if it would.
pub fn start_round_refusal(ctx: &StartRound) -> (refusal: Option<RecoveryRoomError>)
    ensures
        refusal == start_round_error(ctx.protocol_state, ctx.previous_round),
{
    let first = ctx.protocol_state.current_round == 0;
    let previous_complete = match &ctx.previous_round {
        Some(round) => round.round_id == ctx.protocol_state.current_round && round.status
            == RoundStatus::Complete,
        None => false,
    };
    if first || previous_complete {
        None
    } else {
        Some(RecoveryRoomError::PreviousRoundNotComplete)
    }
}

/// Opens the next round at time `now`, with an empty pool. The round gets the
/// next id, runs for the protocol's round length and starts without entries.
/// Nothing is opened while the round opened last is undecided. Where a round is
/// opened, the next id and the end time must be numbers that the machine holds.
pub fn start_round(ctx: &mut StartRound, now: i64) -> (outcome: Result<
    RoundStarted,
    RecoveryRoomError,
>)
    requires
        may_start_round(old(ctx).protocol_state, old(ctx).previous_round) ==> old(
            ctx,
        ).protocol_state.current_round < u64::MAX && i64::MIN <= now + old(
            ctx,
        ).protocol_state.round_duration <= i64::MAX,
    ensures
        outcome matches Err(e) ==> start_round_error(
            old(ctx).protocol_state,
            old(ctx).previous_round,
        ) == Some(e) && *final(ctx) == *old(ctx),
        outcome matches Ok(event) ==> {
            let round = opened_round(old(ctx).protocol_state, now, old(ctx).bump);
            &&& may_start_round(old(ctx).protocol_state, old(ctx).previous_round)
            &&& final(ctx).protocol_state == (ProtocolState {
                current_round: round.round_id,
                ..old(ctx).protocol_state
            })
            &&& final(ctx).round_state == Some(round)
            &&& final(ctx).token_pool matches Some(pool) && pool.round_id == round.round_id
                && pool.entries@ == Seq::<TokenPoolEntry>::empty()
            &&& final(ctx).previous_round == old(ctx).previous_round
            &&& final(ctx).bump == old(ctx).bump
            &&& old(ctx).protocol_state.wf() ==> round.wf()
            &&& event == (RoundStarted {
                round_id: round.round_id,
                start_time: round.start_time,
                end_time: round.end_time,
            })
        },
{
    match start_round_refusal(ctx) {
        Some(e) => {
            return Err(e);
        },
        None => {},
    }
    ctx.protocol_state.current_round = ctx.protocol_state.current_round + 1;
    let round = RoundState {
        round_id: ctx.protocol_state.current_round,
        start_time: now,
        end_time: now + ctx.protocol_state.round_duration,
        total_participants: 0,
        total_token_entries: 0,
        status: RoundStatus::Active,
        vrf_result: None,
        winner_token: None,
        bump: ctx.bump,
    };
    ctx.token_pool = Some(TokenPool::new(round.round_id));
    ctx.round_state = Some(round);
    Ok(
        RoundStarted {
            round_id: round.round_id,
            start_time: round.start_time,
            end_time: round.end_time,
        },
    )
}

// ---------------------------------------------------------------------------
// Registering tokens
// ---------------------------------------------------------------------------
/// Registers a token in a pool, with no submissions yet, behind the tokens
/// registered before. A token that is registered already is refused, and its
/// count stays.
pub fn register_token(
    pool: &mut TokenPool,
    token_mint: Pubkey,
    ticker: String,
    color: String,
) -> (outcome: Result<(), RecoveryRoomError>)
    ensures
        outcome is Ok <==> !is_registered(old(pool).entries@, token_mint),
        outcome matches Err(e) ==> e == RecoveryRoomError::DuplicateToken && *final(pool) == *old(
            pool,
        ),
        outcome is Ok ==> final(pool).round_id == old(pool).round_id && final(pool).entries@ == old(
            pool,
        ).entries@.push(TokenPoolEntry { token_mint, ticker, submission_count: 0, color }),
        outcome is Ok ==> total_submissions(final(pool).entries@) == total_submissions(
            old(pool).entries@,
        ),
        old(pool).wf() ==> final(pool).wf(),
{
    if pool.position(&token_mint).is_some() {
        return Err(RecoveryRoomError::DuplicateToken);
    }
    pool.entries.push(TokenPoolEntry { token_mint, ticker, submission_count: 0, color });
    proof {
        let before = old(pool).entries@;
        let after = pool.entries@;
        crate::state::lemma_submissions_upto_same(before, after, before.len() as int);
        assert forall|i: int, j: int| 0 <= i < j < after.len() && distinct_tokens(before) implies (
        #[trigger] after[i]).token_mint != (#[trigger] after[j]).token_mint by {
            if j < before.len() {
                assert(before[i].token_mint != before[j].token_mint);
            } else {
                assert(before[i].token_mint != token_mint);
            }
        }
    }
    Ok(())
}

// ---------------------------------------------------------------------------
// Submitting entries
// ---------------------------------------------------------------------------
/// How many of the first `n` submitted entries name the token.
pub open spec fn submissions_for(tokens: Seq<TokenEntry>, token_mint: Pubkey, n: int) -> nat
    decreases n,
{
    if n <= 0 {
        0
    } else {
        submissions_for(tokens, token_mint, n - 1) + if tokens[n - 1].token_mint == token_mint {
            1nat
        } else {
            0nat
        }
    }
}

/// How many of the first `n` submitted entries name a token of the pool.
pub open spec fn registered_upto(
    entries: Seq<TokenPoolEntry>,
    tokens: Seq<TokenEntry>,
    n: int,
) -> nat
    decreases n,
{
    if n <= 0 {
        0
    } else {
        registered_upto(entries, tokens, n - 1) + if is_registered(
            entries,
            tokens[n - 1].token_mint,
        ) {
            1nat
        } else {
            0nat
        }
    }
}

/// Every submitted entry names a token of the pool.
pub open spec fn all_registered(entries: Seq<TokenPoolEntry>, tokens: Seq<TokenEntry>) -> bool {
    forall|k: int| 0 <= k < tokens.len() ==> is_registered(entries, #[trigger] tokens[k].token_mint)
}

/// The pool `after` is the pool `before` with each token's count raised by the
/// number of the first `n` submitted entries that name the token.
pub open spec fn counts_raised(
    before: Seq<TokenPoolEntry>,
    after: Seq<TokenPoolEntry>,
    tokens: Seq<TokenEntry>,
    n: int,
) -> bool {
    &&& after.len() == before.len()
    &&& forall|i: int|
        0 <= i < before.len() ==> {
            &&& (#[trigger] after[i]).token_mint == before[i].token_mint
            &&& after[i].ticker == before[i].ticker
            &&& after[i].color == before[i].color
            &&& after[i].submission_count == before[i].submission_count + submissions_for(
                tokens,
                before[i].token_mint,
                n,
            )
        }
}

/// Why a submission of `count` entries at time `now` is refused, if it is.
pub open spec fn participate_error(ctx: Participate, count: nat, now: i64) -> Option<
    RecoveryRoomError,
> {
    if ctx.participation is Some {
        Some(RecoveryRoomError::AlreadyParticipated)
    } else if ctx.round_state.status != RoundStatus::Active {
        Some(RecoveryRoomError::RoundNotActive)
    } else if now >= ctx.round_state.end_time {
        Some(RecoveryRoomError::RoundEnded)
    } else if count == 0 || count > ctx.protocol_state.max_tokens_per_user {
        Some(RecoveryRoomError::InvalidTokenCount)
    } else {
        None
    }
}

/// The round after one more participation with `count` entries.
pub open spec fn round_after_participation(round: RoundState, count: nat) -> RoundState {
    RoundState {
        total_participants: (round.total_participants + 1) as u32,
        total_token_entries: (round.total_token_entries + count) as u32,
        ..round
    }
}

/// No more of the first `n` entries name a token of the pool than there are.
pub proof fn lemma_registered_upto_bound(
    entries: Seq<TokenPoolEntry>,
    tokens: Seq<TokenEntry>,
    n: int,
)
    requires
        0 <= n,
    ensures
        registered_upto(entries, tokens, n) <= n,
        (forall|k: int| 0 <= k < n ==> is_registered(entries, #[trigger] tokens[k].token_mint))
            ==> registered_upto(entries, tokens, n) == n,
    decreases n,
{
    if n > 0 {
        lemma_registered_upto_bound(entries, tokens, n - 1);
    }
}

/// Counts each submitted entry for its token in the pool. An entry whose token
/// is not in the pool is counted for no token.
pub fn record_submissions(pool: &mut TokenPool, tokens: &Vec<TokenEntry>)
    requires
        old(pool).wf(),
        total_submissions(old(pool).entries@) + tokens@.len() <= u32::MAX,
    ensures
        final(pool).round_id == old(pool).round_id,
        counts_raised(old(pool).entries@, final(pool).entries@, tokens@, tokens@.len() as int),
        total_submissions(final(pool).entries@) == total_submissions(old(pool).entries@)
            + registered_upto(old(pool).entries@, tokens@, tokens@.len() as int),
        final(pool).wf(),
{
    let ghost before = pool.entries@;
    let count = tokens.len();
    let mut k: usize = 0;
    while k < count
        invariant
            count == tokens@.len(),
            k <= count,
            pool.round_id == old(pool).round_id,
            before == old(pool).entries@,
            distinct_tokens(before),
            total_submissions(before) + count <= u32::MAX,
            counts_raised(before, pool.entries@, tokens@, k as int),
            total_submissions(pool.entries@) == total_submissions(before) + registered_upto(
                before,
                tokens@,
                k as int,
            ),
        decreases count - k,
    {
        let ghost current = pool.entries@;
        let token_mint = tokens[k].token_mint;
        proof {
            lemma_registered_upto_bound(before, tokens@, k as int);
            assert forall|i: int| 0 <= i < before.len() implies (#[trigger] current[i]).token_mint
                == before[i].token_mint by {}
        }
        match pool.position(&token_mint) {
            Some(at) => {
                proof {
                    lemma_submissions_upto_monotonic(current, at as int, current.len() as int);
                    assert(before[at as int].token_mint == token_mint);
                    assert(is_registered(before, token_mint));
                }
                pool.entries[at].submission_count += 1;
                proof {
                    let after = pool.entries@;
                    lemma_submissions_upto_after_increment(
                        current,
                        after,
                        at as int,
                        current.len() as int,
                    );
                    assert forall|i: int| 0 <= i < before.len() implies (#[trigger] after[i]).submission_count
                        == before[i].submission_count + submissions_for(
                        tokens@,
                        before[i].token_mint,
                        k as int + 1,
                    ) by {
                        assert(current[i].token_mint == before[i].token_mint);
                        if i != at {
                            assert(before[i].token_mint != before[at as int].token_mint);
                            assert(after[i] == current[i]);
                        }
                    }
                }
            },
            None => {
                proof {
                    if is_registered(before, token_mint) {
                        let i = choose|i: int|
                            0 <= i < before.len() && (#[trigger] before[i]).token_mint
                                == token_mint;
                        assert(current[i].token_mint == token_mint);
                        assert(false);
                    }
                    assert forall|i: int| 0 <= i < before.len() implies (#[trigger] current[i]).submission_count
                        == before[i].submission_count + submissions_for(
                        tokens@,
                        before[i].token_mint,
                        k as int + 1,
                    ) by {
                        assert(before[i].token_mint != token_mint);
                    }
                }
            },
        }
        k = k + 1;
    }
    proof {
        let after = pool.entries@;
        assert forall|i: int, j: int| 0 <= i < j < after.len() implies (#[trigger] after[i]).token_mint
            != (#[trigger] after[j]).token_mint by {
            assert(before[i].token_mint != before[j].token_mint);
        }
    }
}

/// Why a submission of `count` entries at time `now` would be refused, if it would.
pub fn participate_refusal(ctx: &Participate, count: usize, now: i64) -> (refusal: Option<
    RecoveryRoomError,
>)
    ensures
        refusal == participate_error(*ctx, count as nat, now),
{
    if ctx.participation.is_some() {
        Some(RecoveryRoomError::AlreadyParticipated)
    } else if ctx.round_state.status != RoundStatus::Active {
        Some(RecoveryRoomError::RoundNotActive)
    } else if now >= ctx.round_state.end_time {
        Some(RecoveryRoomError::RoundEnded)
    } else if count == 0 || count > ctx.protocol_state.max_tokens_per_user as usize {
        Some(RecoveryRoomError::InvalidTokenCount)
    } else {
        None
    }
}

/// Records a user's entries in the round at time `now`: the round counts one
/// more participant and the entries, each registered token counts the entries
/// that name it, and the user's participation is filed. The round must be
/// active and not yet over, the number of entries between one and the
/// protocol's limit, and the user without a participation in this round.
pub fn participate(
    ctx: &mut Participate,
    token_entries: Vec<TokenEntry>,
    now: i64,
) -> (outcome: Result<UserParticipated, RecoveryRoomError>)
    requires
        participate_error(*old(ctx), token_entries@.len(), now) is None ==> old(ctx).wf() && old(
            ctx,
        ).round_state.total_participants < u32::MAX && old(ctx).round_state.total_token_entries
            + token_entries@.len() <= u32::MAX,
    ensures
        outcome matches Err(e) ==> participate_error(*old(ctx), token_entries@.len(), now) == Some(
            e,
        ) && *final(ctx) == *old(ctx),
        outcome matches Ok(event) ==> {
            &&& participate_error(*old(ctx), token_entries@.len(), now) is None
            &&& final(ctx).protocol_state == old(ctx).protocol_state
            &&& final(ctx).user == old(ctx).user
            &&& final(ctx).bump == old(ctx).bump
            &&& final(ctx).round_state == round_after_participation(
                old(ctx).round_state,
                token_entries@.len(),
            )
            &&& final(ctx).participation == Some(
                Participation {
                    user: old(ctx).user,
                    round_id: old(ctx).round_state.round_id,
                    tokens: token_entries,
                    timestamp: now,
                    bump: old(ctx).bump,
                },
            )
            &&& final(ctx).token_pool_entries.round_id == old(ctx).token_pool_entries.round_id
            &&& counts_raised(
                old(ctx).token_pool_entries.entries@,
                final(ctx).token_pool_entries.entries@,
                token_entries@,
                token_entries@.len() as int,
            )
            &&& total_submissions(final(ctx).token_pool_entries.entries@) == total_submissions(
                old(ctx).token_pool_entries.entries@,
            ) + registered_upto(
                old(ctx).token_pool_entries.entries@,
                token_entries@,
                token_entries@.len() as int,
            )
            &&& event == (UserParticipated {
                round_id: old(ctx).round_state.round_id,
                user: old(ctx).user,
                token_count: token_entries@.len() as u8,
            })
        },
        old(ctx).wf() ==> final(ctx).wf(),
        old(ctx).round_state.wf() ==> final(ctx).round_state.wf(),
        outcome is Ok && old(ctx).conserved() && all_registered(
            old(ctx).token_pool_entries.entries@,
            token_entries@,
        ) ==> final(ctx).conserved(),
{
    let count = token_entries.len();
    match participate_refusal(ctx, count, now) {
        Some(e) => {
            return Err(e);
        },
        None => {},
    }
    proof {
        lemma_registered_upto_bound(
            ctx.token_pool_entries.entries@,
            token_entries@,
            count as int,
        );
    }
    ctx.round_state.total_participants = ctx.round_state.total_participants + 1;
    ctx.round_state.total_token_entries = ctx.round_state.total_token_entries + count as u32;
    record_submissions(&mut ctx.token_pool_entries, &token_entries);
    let event = UserParticipated {
        round_id: ctx.round_state.round_id,
        user: ctx.user,
        token_count: count as u8,
    };
    ctx.participation = Some(
        Participation {
            user: ctx.user,
            round_id: ctx.round_state.round_id,
            tokens: token_entries,
            timestamp: now,
            bump: ctx.bump,
        },
    );
    Ok(event)
}

// ---------------------------------------------------------------------------
// Closing a round for its draw
// ---------------------------------------------------------------------------
/// Why a round cannot be closed for its draw at time `now`, if it cannot.
pub open spec fn request_randomness_error(round: RoundState, now: i64) -> Option<
    RecoveryRoomError,
> {
    if now < round.end_time {
        Some(RecoveryRoomError::RoundNotEnded)
    } else if round.status != RoundStatus::Active {
        Some(RecoveryRoomError::InvalidRoundStatus)
    } else if round.total_token_entries == 0 {
        Some(RecoveryRoomError::NoParticipants)
    } else {
        None
    }
}

/// The round once it is closed for its draw.
pub open spec fn round_awaiting_randomness(round: RoundState) -> RoundState {
    RoundState { status: RoundStatus::VrfRequested, ..round }
}

/// Why closing the round for its draw at time `now` would be refused, if it would.
pub fn request_randomness_refusal(ctx: &RequestRandomness, now: i64) -> (refusal: Option<
    RecoveryRoomError,
>)
    ensures
        refusal == request_randomness_error(ctx.round_state, now),
{
    if now < ctx.round_state.end_time {
        Some(RecoveryRoomError::RoundNotEnded)
    } else if ctx.round_state.status != RoundStatus::Active {
        Some(RecoveryRoomError::InvalidRoundStatus)
    } else if ctx.round_state.total_token_entries == 0 {
        Some(RecoveryRoomError::NoParticipants)
    } else {
        None
    }
}

/// Closes a round for its draw at time `now`. The round must be over, still
/// active, and hold at least one entry. The event that comes back tells the
/// caller to ask the oracle for the round's random value.
pub fn request_randomness(ctx: &mut RequestRandomness, now: i64) -> (outcome: Result<
    VrfRequested,
    RecoveryRoomError,
>)
    ensures
        outcome matches Err(e) ==> request_randomness_error(old(ctx).round_state, now) == Some(e)
            && *final(ctx) == *old(ctx),
        outcome matches Ok(event) ==> {
            &&& request_randomness_error(old(ctx).round_state, now) is None
            &&& *final(ctx) == (RequestRandomness {
                round_state: round_awaiting_randomness(old(ctx).round_state),
                ..*old(ctx)
            })
            &&& event == (VrfRequested { round_id: old(ctx).round_state.round_id, timestamp: now })
        },
        old(ctx).round_state.wf() ==> final(ctx).round_state.wf(),
{
    match request_randomness_refusal(ctx, now) {
        Some(e) => {
            return Err(e);
        },
        None => {},
    }
    ctx.round_state.status = RoundStatus::VrfRequested;
    Ok(VrfRequested { round_id: ctx.round_state.round_id, timestamp: now })
}

// ---------------------------------------------------------------------------
// Deciding a round
// ---------------------------------------------------------------------------
/// The all-zero value, which stands for a draw that the oracle has not made yet.
pub open spec fn is_unresolved(vrf_result: [u8; 32]) -> bool {
    forall|i: int| 0 <= i < 32 ==> vrf_result@[i] == 0
}

/// The number that the draw works with: the first sixteen bytes of the random
/// value, lowest byte first.
pub open spec fn vrf_value(vrf_result: [u8; 32]) -> u128 {
    le_u128(vrf_result) as u128
}

/// Why a round cannot take a random value for its draw, if it cannot.
pub open spec fn draw_value_error(round: RoundState, vrf_result: [u8; 32]) -> Option<
    RecoveryRoomError,
> {
    if round.status != RoundStatus::VrfRequested {
        Some(RecoveryRoomError::InvalidRoundStatus)
    } else if is_unresolved(vrf_result) {
        Some(RecoveryRoomError::VrfNotResolved)
    } else {
        None
    }
}

/// Why a round cannot be decided with the random value and the outcome of the
/// draw made with it, if it cannot: for the round's status, then for the value,
/// then for what the draw itself refused.
pub open spec fn consume_randomness_error(
    round: RoundState,
    vrf_result: [u8; 32],
    drawn: Result<Pubkey, RecoveryRoomError>,
) -> Option<RecoveryRoomError> {
    match draw_value_error(round, vrf_result) {
        Some(e) => Some(e),
        None => match drawn {
            Ok(_) => None,
            Err(e) => Some(e),
        },
    }
}

/// The round once it is decided.
pub open spec fn decided_round(
    round: RoundState,
    vrf_result: [u8; 32],
    winner: Pubkey,
) -> RoundState {
    RoundState {
        status: RoundStatus::Complete,
        vrf_result: Some(vrf_result),
        winner_token: Some(winner),
        ..round
    }
}

/// What deciding a round leaves behind: the round decided and counted as
/// completed where it is decided, and everything as it was where it is refused.
pub open spec fn consume_randomness_step(
    ctx: ConsumeRandomness,
    vrf_result: [u8; 32],
    drawn: Result<Pubkey, RecoveryRoomError>,
) -> ConsumeRandomness {
    if consume_randomness_error(ctx.round_state, vrf_result, drawn) is None {
        ConsumeRandomness {
            protocol_state: ProtocolState {
                total_rounds_completed: (ctx.protocol_state.total_rounds_completed + 1) as u64,
                ..ctx.protocol_state
            },
            round_state: decided_round(ctx.round_state, vrf_result, drawn->Ok_0),
            token_pool: ctx.token_pool,
        }
    } else {
        ctx
    }
}

/// Whether the value is the all-zero value.
pub fn check_unresolved(vrf_result: &[u8; 32]) -> (unresolved: bool)
    ensures
        unresolved == is_unresolved(*vrf_result),
{
    let mut i: usize = 0;
    while i < 32
        invariant
            i <= 32,
            forall|j: int| 0 <= j < i ==> vrf_result@[j] == 0,
        decreases 32 - i,
    {
        if vrf_result[i] != 0 {
            return false;
        }
        i = i + 1;
    }
    true
}

/// Whether the round is waiting for its random value; a round in another state
/// is refused for its status.
pub fn awaits_randomness(ctx: &ConsumeRandomness) -> (outcome: Result<(), RecoveryRoomError>)
    ensures
        outcome is Ok <==> ctx.round_state.status == RoundStatus::VrfRequested,
        outcome matches Err(e) ==> e == RecoveryRoomError::InvalidRoundStatus,
{
    if ctx.round_state.status != RoundStatus::VrfRequested {
        Err(RecoveryRoomError::InvalidRoundStatus)
    } else {
        Ok(())
    }
}

/// The number to make the round's draw with, read from the random value that
/// the oracle delivered. The round must be waiting for its random value, and
/// the value must not be the all-zero value of a draw not yet made.
pub fn draw_value(ctx: &ConsumeRandomness, vrf_result: &[u8; 32]) -> (outcome: Result<
    u128,
    RecoveryRoomError,
>)
    ensures
        outcome matches Err(e) ==> draw_value_error(ctx.round_state, *vrf_result) == Some(e),
        outcome matches Ok(value) ==> draw_value_error(ctx.round_state, *vrf_result) is None
            && value == vrf_value(*vrf_result) && value == le_u128(*vrf_result),
{
    match awaits_randomness(ctx) {
        Err(e) => {
            return Err(e);
        },
        Ok(()) => {},
    }
    if check_unresolved(vrf_result) {
        return Err(RecoveryRoomError::VrfNotResolved);
    }
    Ok(u128_from_le_prefix(vrf_result))
}

/// Why deciding the round would be refused, if it would.
pub fn consume_randomness_refusal(
    ctx: &ConsumeRandomness,
    vrf_result: &[u8; 32],
    drawn: &Result<Pubkey, RecoveryRoomError>,
) -> (refusal: Option<RecoveryRoomError>)
    ensures
        refusal == consume_randomness_error(ctx.round_state, *vrf_result, *drawn),
{
    if ctx.round_state.status != RoundStatus::VrfRequested {
        return Some(RecoveryRoomError::InvalidRoundStatus);
    }
    if check_unresolved(vrf_result) {
        return Some(RecoveryRoomError::VrfNotResolved);
    }
    match drawn {
        Ok(_) => None,
        Err(e) => Some(*e),
    }
}

/// Decides a round with the random value that the oracle delivered and the
/// outcome of the draw made with it: stores the value and the winner and
/// counts the round as completed. The round must be waiting for its random
/// value, the value must not be the all-zero value of a draw not yet made, and
/// the draw must have named a winner; what the draw refused is refused here.
pub fn consume_randomness(
    ctx: &mut ConsumeRandomness,
    vrf_result: [u8; 32],
    drawn: Result<Pubkey, RecoveryRoomError>,
) -> (outcome: Result<RoundComplete, RecoveryRoomError>)
    requires
        consume_randomness_error(old(ctx).round_state, vrf_result, drawn) is None ==> old(
            ctx,
        ).protocol_state.total_rounds_completed < u64::MAX,
    ensures
        *final(ctx) == consume_randomness_step(*old(ctx), vrf_result, drawn),
        outcome matches Err(e) ==> consume_randomness_error(
            old(ctx).round_state,
            vrf_result,
            drawn,
        ) == Some(e) && *final(ctx) == *old(ctx),
        outcome matches Ok(event) ==> {
            &&& consume_randomness_error(old(ctx).round_state, vrf_result, drawn) is None
            &&& drawn == Ok::<Pubkey, RecoveryRoomError>(event.winner_token)
            &&& final(ctx).round_state == decided_round(
                old(ctx).round_state,
                vrf_result,
                event.winner_token,
            )
            &&& final(ctx).protocol_state.total_rounds_completed == old(
                ctx,
            ).protocol_state.total_rounds_completed + 1
            &&& event == (RoundComplete {
                round_id: old(ctx).round_state.round_id,
                winner_token: event.winner_token,
                vrf_result,
            })
        },
        old(ctx).round_state.wf() ==> final(ctx).round_state.wf(),
{
    match consume_randomness_refusal(ctx, &vrf_result, &drawn) {
        Some(e) => {
            return Err(e);
        },
        None => {},
    }
    let winner = match drawn {
        Ok(winner) => winner,
        Err(e) => {
            return Err(e);
        },
    };
    ctx.round_state.vrf_result = Some(vrf_result);
    ctx.round_state.winner_token = Some(winner);
    ctx.round_state.status = RoundStatus::Complete;
    ctx.protocol_state.total_rounds_completed = ctx.protocol_state.total_rounds_completed + 1;
    Ok(RoundComplete { round_id: ctx.round_state.round_id, winner_token: winner, vrf_result })
}

} // verus!
