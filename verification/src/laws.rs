//! What holds of the lottery as a whole, proved from the contracts of its operations.
use vstd::prelude::*;

use crate::accounts::{ConsumeRandomness, Participate};
use crate::arith::{le_u128, lemma_le_u128_bound, pow2_128};
use crate::error::RecoveryRoomError;
use crate::key::Pubkey;
use crate::lifecycle::{
    all_registered, consume_randomness_error, consume_randomness_step, decided_round,
    lemma_registered_upto_bound, opened_round, participate_error, registered_upto,
    request_randomness_error, round_after_participation, round_awaiting_randomness,
    start_round_error,
};
use crate::selection::{draw_fits_pool, lemma_has_submissions_iff_total_positive};
use crate::state::{
    total_submissions, ProtocolState, RoundState, RoundStatus, TokenEntry, TokenPoolEntry,
};

verus! {

/// The number that a draw is made with is at least zero and below 2^128: as a
/// fraction of 2^128 it is at least zero and less than one.
pub proof fn law_draw_value_is_a_fraction(vrf_result: [u8; 32])
    ensures
        0 <= le_u128(vrf_result) < pow2_128(),
{
    lemma_le_u128_bound(vrf_result);
}

/// A round that was closed for its draw, and whose entries are all counted for
/// tokens of its pool, has a token that was entered: a draw whose outcome fits
/// the pool names a winner.
pub proof fn law_closed_round_with_conserved_entries_has_a_winner(
    round: RoundState,
    entries: Seq<TokenPoolEntry>,
    now: i64,
    drawn: Result<Pubkey, RecoveryRoomError>,
)
    requires
        request_randomness_error(round, now) is None,
        total_submissions(entries) == round.total_token_entries,
        draw_fits_pool(entries, drawn),
    ensures
        drawn is Ok,
{
    lemma_has_submissions_iff_total_positive(entries);
}

/// Where every submitted entry names a registered token, a participation adds as
/// much to the pool's submission counts as to the round's entry count; so a
/// round whose counts agreed before still has them agree after.
pub proof fn law_entries_are_conserved(ctx: Participate, tokens: Seq<TokenEntry>, now: i64)
    requires
        participate_error(ctx, tokens.len(), now) is None,
        ctx.round_state.total_token_entries + tokens.len() <= u32::MAX,
        ctx.conserved(),
        all_registered(ctx.token_pool_entries.entries@, tokens),
    ensures
        total_submissions(ctx.token_pool_entries.entries@) + registered_upto(
            ctx.token_pool_entries.entries@,
            tokens,
            tokens.len() as int,
        ) == round_after_participation(ctx.round_state, tokens.len()).total_token_entries,
{
    lemma_registered_upto_bound(ctx.token_pool_entries.entries@, tokens, tokens.len() as int);
}

/// Whether or not the submitted entries name registered tokens, the pool never
/// counts more submissions than the round counts entries.
pub proof fn law_pool_counts_at_most_round_entries(ctx: Participate, tokens: Seq<TokenEntry>)
    requires
        ctx.wf(),
        ctx.round_state.total_token_entries + tokens.len() <= u32::MAX,
    ensures
        total_submissions(ctx.token_pool_entries.entries@) + registered_upto(
            ctx.token_pool_entries.entries@,
            tokens,
            tokens.len() as int,
        ) <= round_after_participation(ctx.round_state, tokens.len()).total_token_entries,
{
    lemma_registered_upto_bound(ctx.token_pool_entries.entries@, tokens, tokens.len() as int);
}

/// No operation lowers a round's counters: a participation raises the number of
/// participants by one and the number of entries by what was submitted, closing
/// or deciding the round leaves both as they are, and a refused operation
/// changes nothing. The two bounds say that the raised counters are numbers that
/// the machine holds.
pub proof fn law_counters_never_decrease(
    round: RoundState,
    count: nat,
    vrf_result: [u8; 32],
    winner: Pubkey,
)
    requires
        round.total_participants < u32::MAX,
        round.total_token_entries + count <= u32::MAX,
    ensures
        round_after_participation(round, count).total_participants == round.total_participants + 1,
        round_after_participation(round, count).total_token_entries == round.total_token_entries
            + count,
        round_awaiting_randomness(round).total_participants == round.total_participants,
        round_awaiting_randomness(round).total_token_entries == round.total_token_entries,
        decided_round(round, vrf_result, winner).total_participants == round.total_participants,
        decided_round(round, vrf_result, winner).total_token_entries == round.total_token_entries,
{
}

/// The round after a sequence of participations, each with its number of entries.
pub open spec fn round_after_participations(round: RoundState, counts: Seq<nat>) -> RoundState
    decreases counts.len(),
{
    if counts.len() == 0 {
        round
    } else {
        round_after_participation(
            round_after_participations(round, counts.drop_last()),
            counts.last(),
        )
    }
}

/// The sum of the numbers of entries of a sequence of participations.
pub open spec fn entries_submitted(counts: Seq<nat>) -> nat
    decreases counts.len(),
{
    if counts.len() == 0 {
        0
    } else {
        entries_submitted(counts.drop_last()) + counts.last()
    }
}

/// Over any sequence of participations a round's counters only grow: the round
/// counts one participant for each and the entries of all, and its status stays.
/// The two bounds say that the counters reached are numbers that the machine holds.
pub proof fn law_counters_grow_over_participations(round: RoundState, counts: Seq<nat>)
    requires
        round.total_participants + counts.len() <= u32::MAX,
        round.total_token_entries + entries_submitted(counts) <= u32::MAX,
    ensures
        round_after_participations(round, counts).total_participants == round.total_participants
            + counts.len(),
        round_after_participations(round, counts).total_token_entries
            == round.total_token_entries + entries_submitted(counts),
        round_after_participations(round, counts).status == round.status,
        round_after_participations(round, counts).winner_token == round.winner_token,
    decreases counts.len(),
{
    if counts.len() > 0 {
        law_counters_grow_over_participations(round, counts.drop_last());
    }
}

/// A round cannot be decided before it is closed for its draw: while it is
/// active, whatever the random value and whatever a draw named, deciding it is
/// refused for its status.
pub proof fn law_no_decision_before_request(
    round: RoundState,
    vrf_result: [u8; 32],
    drawn: Result<Pubkey, RecoveryRoomError>,
)
    requires
        round.status == RoundStatus::Active,
    ensures
        consume_randomness_error(round, vrf_result, drawn) == Some(
            RecoveryRoomError::InvalidRoundStatus,
        ),
{
}

/// A round just opened is active, so it cannot be decided before it is closed.
pub proof fn law_opened_round_is_active(protocol: ProtocolState, now: i64, bump: u8)
    ensures
        opened_round(protocol, now, bump).status == RoundStatus::Active,
        opened_round(protocol, now, bump).total_participants == 0,
        opened_round(protocol, now, bump).total_token_entries == 0,
        opened_round(protocol, now, bump).winner_token is None,
        opened_round(protocol, now, bump).vrf_result is None,
{
}

/// A round cannot be closed for its draw before its end time, in whatever state it is.
pub proof fn law_no_request_before_end(round: RoundState, now: i64)
    requires
        now < round.end_time,
    ensures
        request_randomness_error(round, now) == Some(RecoveryRoomError::RoundNotEnded),
{
}

/// While the round opened last is not decided, no round is opened: whatever the
/// time and the counters, opening one is refused.
pub proof fn law_no_round_beside_an_undecided_one(protocol: ProtocolState, previous: RoundState)
    requires
        protocol.current_round >= 1,
        previous.round_id == protocol.current_round,
        previous.status != RoundStatus::Complete,
    ensures
        start_round_error(protocol, Some(previous)) == Some(
            RecoveryRoomError::PreviousRoundNotComplete,
        ),
{
}

/// The state after a sequence of deliveries to one round, each a random value
/// with the outcome of the draw made with it, taken one after the other.
pub open spec fn after_deliveries(
    ctx: ConsumeRandomness,
    deliveries: Seq<([u8; 32], Result<Pubkey, RecoveryRoomError>)>,
) -> ConsumeRandomness
    decreases deliveries.len(),
{
    if deliveries.len() == 0 {
        ctx
    } else {
        consume_randomness_step(
            after_deliveries(ctx, deliveries.drop_last()),
            deliveries.last().0,
            deliveries.last().1,
        )
    }
}

/// How many deliveries of the sequence decide the round.
pub open spec fn accepted_deliveries(
    ctx: ConsumeRandomness,
    deliveries: Seq<([u8; 32], Result<Pubkey, RecoveryRoomError>)>,
) -> nat
    decreases deliveries.len(),
{
    if deliveries.len() == 0 {
        0
    } else {
        accepted_deliveries(ctx, deliveries.drop_last()) + if consume_randomness_error(
            after_deliveries(ctx, deliveries.drop_last()).round_state,
            deliveries.last().0,
            deliveries.last().1,
        ) is None {
            1nat
        } else {
            0nat
        }
    }
}

/// A round is decided at most once. Of any sequence of deliveries to a round, at
/// most one decides it; the count of completed rounds rises by one if one did
/// and stays if none did; and after the one that did, the round is complete and
/// keeps the random value and the winner of that delivery, whatever comes later.
pub proof fn law_decided_at_most_once(
    ctx: ConsumeRandomness,
    deliveries: Seq<([u8; 32], Result<Pubkey, RecoveryRoomError>)>,
)
    requires
        ctx.protocol_state.total_rounds_completed < u64::MAX,
    ensures
        accepted_deliveries(ctx, deliveries) <= 1,
        after_deliveries(ctx, deliveries).protocol_state.total_rounds_completed
            == ctx.protocol_state.total_rounds_completed + accepted_deliveries(ctx, deliveries),
        accepted_deliveries(ctx, deliveries) == 0 ==> after_deliveries(ctx, deliveries) == ctx,
        accepted_deliveries(ctx, deliveries) == 1 ==> {
            &&& after_deliveries(ctx, deliveries).round_state.status == RoundStatus::Complete
            &&& exists|k: int|
                0 <= k < deliveries.len() && (#[trigger] deliveries[k]).1 is Ok && after_deliveries(
                    ctx,
                    deliveries,
                ).round_state == decided_round(
                    ctx.round_state,
                    deliveries[k].0,
                    deliveries[k].1->Ok_0,
                )
        },
    decreases deliveries.len(),
{
    if deliveries.len() > 0 {
        let earlier = deliveries.drop_last();
        law_decided_at_most_once(ctx, earlier);
        if accepted_deliveries(ctx, earlier) == 1 {
            let k = choose|k: int|
                0 <= k < earlier.len() && (#[trigger] earlier[k]).1 is Ok && after_deliveries(
                    ctx,
                    earlier,
                ).round_state == decided_round(ctx.round_state, earlier[k].0, earlier[k].1->Ok_0);
            assert(deliveries[k] == earlier[k]);
        } else if accepted_deliveries(ctx, deliveries) == 1 {
            let k = deliveries.len() - 1;
            assert(deliveries[k] == deliveries.last());
        }
    }
}

/// A round is closed for its draw at most once: after it was closed, closing it
/// again is refused, before its end time for the time and from then on for its
/// status. So the oracle is asked once for each round.
pub proof fn law_closed_at_most_once(round: RoundState, first: i64, second: i64)
    requires
        request_randomness_error(round, first) is None,
    ensures
        request_randomness_error(round_awaiting_randomness(round), second) is Some,
        second >= round.end_time ==> request_randomness_error(
            round_awaiting_randomness(round),
            second,
        ) == Some(RecoveryRoomError::InvalidRoundStatus),
{
}

/// The place of a status in the order of a round's life.
pub open spec fn status_rank(status: RoundStatus) -> int {
    match status {
        RoundStatus::Active => 0,
        RoundStatus::VrfRequested => 1,
        RoundStatus::Complete => 2,
    }
}

/// A round only moves forward, one step at a time: a participation leaves its
/// status, closing takes an active round to waiting, and deciding takes a waiting
/// round to complete. No operation that succeeds does anything else to the status.
pub proof fn law_status_moves_one_step_forward(
    participation: Participate,
    round: RoundState,
    count: nat,
    now: i64,
    vrf_result: [u8; 32],
    drawn: Result<Pubkey, RecoveryRoomError>,
)
    requires
        participation.round_state == round,
    ensures
        status_rank(round_after_participation(round, count).status) == status_rank(round.status),
        request_randomness_error(round, now) is None ==> status_rank(round.status) == 0
            && status_rank(round_awaiting_randomness(round).status) == 1,
        consume_randomness_error(round, vrf_result, drawn) is None ==> status_rank(round.status)
            == 1 && status_rank(decided_round(round, vrf_result, drawn->Ok_0).status) == 2,
        participate_error(participation, count, now) is None ==> status_rank(round.status) == 0,
{
}

/// A winner, once set, stays: every operation on a decided round is refused, and
/// a refused operation changes nothing.
pub proof fn law_winner_is_final(
    round: RoundState,
    participation: Participate,
    count: nat,
    now: i64,
    vrf_result: [u8; 32],
    drawn: Result<Pubkey, RecoveryRoomError>,
)
    requires
        round.status == RoundStatus::Complete,
        participation.round_state == round,
    ensures
        participate_error(participation, count, now) is Some,
        request_randomness_error(round, now) is Some,
        consume_randomness_error(round, vrf_result, drawn) == Some(
            RecoveryRoomError::InvalidRoundStatus,
        ),
{
}

} // verus!
