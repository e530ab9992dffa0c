//! What holds of the round lifecycle across operations, stated over the
//! operations' own error and effect functions.

use vstd::prelude::*;
use crate::engine::{
    available_pool, claim_share, claim_winnings_effect, claim_winnings_error, close_round_effect,
    close_round_error, place_bet_effect, place_bet_error,
};
use crate::errors::ErrorCode;
use crate::fees::{fee_cut, payout_share, winner_pool};
use crate::state::{
    ClaimWinnings, Clock, CloseRound, GlobalState, PlaceBet, Pubkey, RoundState, UserBet,
    MAX_FEE_BPS,
};

verus! {

/// A round's totals and its escrow balance: what wagers of different users
/// share.
pub struct Escrow {
    pub round_state: RoundState,
    pub round_lamports: u64,
}

/// One user's request to wager, with the user's own record and balance and
/// the time at which it arrives.
pub struct BetRequest {
    pub clock: Clock,
    pub user: Pubkey,
    pub user_bet: UserBet,
    pub user_lamports: u64,
    pub side: u8,
    pub amount: u64,
}

/// The records that `place_bet` sees when `request` meets `escrow`.
pub open spec fn bet_context(global_state: GlobalState, escrow: Escrow, request: BetRequest) -> PlaceBet {
    PlaceBet {
        global_state,
        round_state: escrow.round_state,
        round_lamports: escrow.round_lamports,
        user_bet: request.user_bet,
        user: request.user,
        user_lamports: request.user_lamports,
    }
}

/// Whether `place_bet` accepts `request` on `escrow`.
pub open spec fn accepts(global_state: GlobalState, escrow: Escrow, request: BetRequest) -> bool {
    place_bet_error(
        bet_context(global_state, escrow, request),
        request.clock,
        request.side,
        request.amount,
    ) is None
}

/// The round and its escrow after `request`: credited where the wager is
/// accepted, untouched where it is rejected.
pub open spec fn after_bet(global_state: GlobalState, escrow: Escrow, request: BetRequest) -> Escrow {
    if accepts(global_state, escrow, request) {
        let done = place_bet_effect(
            bet_context(global_state, escrow, request),
            request.side,
            request.amount,
        );
        Escrow { round_state: done.round_state, round_lamports: done.round_lamports }
    } else {
        escrow
    }
}

/// The round and its escrow after a sequence of requests, in order.
pub open spec fn after_bets(global_state: GlobalState, escrow: Escrow, requests: Seq<BetRequest>) -> Escrow
    decreases requests.len(),
{
    if requests.len() == 0 {
        escrow
    } else {
        after_bet(
            global_state,
            after_bets(global_state, escrow, requests.drop_last()),
            requests.last(),
        )
    }
}

/// The sum of the amounts of the requests that were accepted.
pub open spec fn accepted_total(global_state: GlobalState, escrow: Escrow, requests: Seq<BetRequest>) -> int
    decreases requests.len(),
{
    if requests.len() == 0 {
        0
    } else {
        let before = after_bets(global_state, escrow, requests.drop_last());
        accepted_total(global_state, escrow, requests.drop_last()) + if accepts(
            global_state,
            before,
            requests.last(),
        ) {
            requests.last().amount as int
        } else {
            0
        }
    }
}

/// Over any sequence of wagers on a round, the two totals together grow by
/// exactly the sum of the accepted amounts, and so does the escrow balance:
/// no credit is lost or made twice. An escrow that covered the totals before
/// covers them after, and nothing in the round moves backward.
pub proof fn lemma_bets_credited_exactly(
    global_state: GlobalState,
    escrow: Escrow,
    requests: Seq<BetRequest>,
)
    ensures
        after_bets(global_state, escrow, requests).round_state.total_pot()
            == escrow.round_state.total_pot() + accepted_total(global_state, escrow, requests),
        after_bets(global_state, escrow, requests).round_lamports == escrow.round_lamports
            + accepted_total(global_state, escrow, requests),
        accepted_total(global_state, escrow, requests) >= 0,
        escrow.round_lamports >= escrow.round_state.total_pot() ==> after_bets(
            global_state,
            escrow,
            requests,
        ).round_lamports >= after_bets(global_state, escrow, requests).round_state.total_pot(),
        after_bets(global_state, escrow, requests).round_state.follows(escrow.round_state),
    decreases requests.len(),
{
    if requests.len() > 0 {
        lemma_bets_credited_exactly(global_state, escrow, requests.drop_last());
    }
}

/// A user has at most one wager per round: once a wager is placed, every
/// further wager on the same record is rejected, whatever its side and
/// amount, and with `AlreadyBet` wherever the side is valid, the amount
/// reaches the minimum and the round is still open.
pub proof fn lemma_one_bet_per_user(
    ctx: PlaceBet,
    clock: Clock,
    side: u8,
    amount: u64,
    later: Clock,
    other_side: u8,
    other_amount: u64,
)
    requires
        ctx.global_state.wf(),
        place_bet_error(ctx, clock, side, amount) is None,
    ensures
        place_bet_error(place_bet_effect(ctx, side, amount), later, other_side, other_amount)
            is Some,
        other_side <= 1 && other_amount >= ctx.global_state.min_bet && later.unix_timestamp
            < ctx.round_state.ends_at ==> place_bet_error(
            place_bet_effect(ctx, side, amount),
            later,
            other_side,
            other_amount,
        ) == Some(ErrorCode::AlreadyBet),
{
}

/// A round cannot be settled before its deadline.
pub proof fn lemma_no_settlement_before_deadline(ctx: CloseRound, clock: Clock)
    requires
        clock.unix_timestamp < ctx.round_state.ends_at,
    ensures
        close_round_error(ctx, clock) is Some,
{
}

/// A round in which nothing was wagered cannot be settled.
pub proof fn lemma_no_settlement_without_bets(ctx: CloseRound, clock: Clock)
    requires
        ctx.round_state.total_pot() == 0,
    ensures
        close_round_error(ctx, clock) is Some,
{
}

/// With capped fee rates the two cuts together never exceed the pot.
pub proof fn lemma_cuts_within_pot(total_pot: int, rake_bps: int, jackpot_bps: int)
    requires
        0 <= total_pot,
        0 <= rake_bps,
        0 <= jackpot_bps,
        rake_bps + jackpot_bps <= MAX_FEE_BPS,
    ensures
        0 <= fee_cut(total_pot, rake_bps),
        0 <= fee_cut(total_pot, jackpot_bps),
        fee_cut(total_pot, rake_bps) + fee_cut(total_pot, jackpot_bps) <= total_pot,
        0 <= winner_pool(total_pot, rake_bps, jackpot_bps) <= total_pot,
{
    assert(0 <= total_pot * rake_bps && 0 <= total_pot * jackpot_bps && total_pot * rake_bps
        + total_pot * jackpot_bps <= total_pot * 1000) by (nonlinear_arith)
        requires
            0 <= total_pot,
            0 <= rake_bps,
            0 <= jackpot_bps,
            rake_bps + jackpot_bps <= 1000,
    ;
}

/// The authority settles an expired round with a pot exactly once: the
/// settlement succeeds where the escrow covers the pot and the amounts fit,
/// and every later settlement of that round is rejected, with
/// `AlreadySettled` wherever the authority asks after the deadline.
pub proof fn lemma_settlement_exactly_once(
    ctx: CloseRound,
    clock: Clock,
    winning_side: u8,
    later: Clock,
)
    requires
        ctx.global_state.wf(),
        ctx.authority == ctx.global_state.authority,
        clock.unix_timestamp >= ctx.round_state.ends_at,
        !ctx.round_state.settled,
        ctx.round_state.total_pot() > 0,
        ctx.round_state.total_pot() * MAX_FEE_BPS <= u64::MAX,
        ctx.round_lamports >= ctx.round_state.total_pot(),
        ctx.round_lamports + ctx.treasury_lamports <= u64::MAX,
    ensures
        close_round_error(ctx, clock) is None,
        close_round_error(close_round_effect(ctx, winning_side), later) is Some,
        later.unix_timestamp >= ctx.round_state.ends_at ==> close_round_error(
            close_round_effect(ctx, winning_side),
            later,
        ) == Some(ErrorCode::AlreadySettled),
        close_round_effect(ctx, winning_side).round_lamports >= winner_pool(
            ctx.round_state.total_pot(),
            ctx.global_state.rake_bps as int,
            ctx.global_state.jackpot_bps as int,
        ),
{
    let pot = ctx.round_state.total_pot();
    let rake = ctx.global_state.rake_bps as int;
    let jackpot = ctx.global_state.jackpot_bps as int;
    lemma_cuts_within_pot(pot, rake, jackpot);
    assert(pot * rake <= pot * 1000 && pot * jackpot <= pot * 1000) by (nonlinear_arith)
        requires
            0 <= pot,
            0 <= rake <= 1000,
            0 <= jackpot <= 1000,
    ;
}

/// A settled round cannot be settled again, whatever else holds.
pub proof fn lemma_settled_is_final(ctx: CloseRound, clock: Clock)
    requires
        ctx.round_state.settled,
    ensures
        close_round_error(ctx, clock) is Some,
{
}

/// A wager is paid at most once: after a successful claim every further
/// claim on that wager is rejected with `AlreadyClaimed`, and a claimed wager
/// is never paid, whatever the round's state.
pub proof fn lemma_claim_at_most_once(ctx: ClaimWinnings, other: ClaimWinnings)
    requires
        claim_winnings_error(ctx) is None,
        other.user_bet.claimed,
    ensures
        claim_winnings_error(claim_winnings_effect(ctx)) == Some(ErrorCode::AlreadyClaimed),
        claim_winnings_error(other) is Some,
{
}

/// A wager that is part of the winning total is never paid more than the
/// pool, and two such wagers together are not either: rounding down leaves
/// dust in the escrow and never overdraws it.
pub proof fn lemma_shares_within_pool(first: int, second: int, pool: int, winning_total: int)
    requires
        0 <= first,
        0 <= second,
        first + second <= winning_total,
        0 < winning_total,
        0 <= pool,
    ensures
        0 <= payout_share(first, pool, winning_total) <= pool,
        0 <= payout_share(second, pool, winning_total) <= pool,
        payout_share(first, pool, winning_total) + payout_share(second, pool, winning_total)
            <= pool,
{
    let a = first * pool;
    let b = second * pool;
    assert(0 <= a && 0 <= b && a + b <= winning_total * pool) by (nonlinear_arith)
        requires
            a == first * pool,
            b == second * pool,
            0 <= first,
            0 <= second,
            first + second <= winning_total,
            0 <= pool,
    ;
    assert(0 <= a / winning_total && 0 <= b / winning_total && a / winning_total + b
        / winning_total <= pool) by (nonlinear_arith)
        requires
            0 <= a,
            0 <= b,
            a + b <= winning_total * pool,
            0 < winning_total,
    ;
}

/// A claim on a wager that is part of the winning total never asks for more
/// than the escrow holds: it is not rejected for want of funds.
pub proof fn lemma_claim_within_escrow(ctx: ClaimWinnings)
    requires
        ctx.user_bet.amount <= ctx.round_state.winning_total(),
        ctx.round_state.winning_total() > 0,
        available_pool(ctx) >= 0,
    ensures
        claim_share(ctx) <= available_pool(ctx) <= ctx.round_lamports,
        claim_winnings_error(ctx) != Some(ErrorCode::InsufficientFunds),
{
    lemma_shares_within_pool(
        ctx.user_bet.amount as int,
        0,
        available_pool(ctx),
        ctx.round_state.winning_total(),
    );
}

/// A wager on the losing side is never paid, whatever the round's state.
pub proof fn lemma_loser_never_claims(ctx: ClaimWinnings)
    requires
        ctx.user_bet.side != ctx.round_state.winning_side,
    ensures
        claim_winnings_error(ctx) is Some,
{
}

/// Nothing moves backward: each operation's effect leaves a round's
/// identity and deadline alone, never shrinks a total, keeps a settled round
/// settled with its totals and outcome, and keeps a wager and its claimed
/// flag.
pub proof fn lemma_effects_never_regress(
    bet: PlaceBet,
    clock: Clock,
    side: u8,
    amount: u64,
    close: CloseRound,
    winning_side: u8,
    claim: ClaimWinnings,
)
    ensures
        place_bet_error(bet, clock, side, amount) is None ==> {
            &&& place_bet_effect(bet, side, amount).round_state.follows(bet.round_state)
            &&& place_bet_effect(bet, side, amount).user_bet.follows(bet.user_bet)
            &&& place_bet_effect(bet, side, amount).global_state == bet.global_state
        },
        close_round_error(close, clock) is None ==> {
            &&& close_round_effect(close, winning_side).round_state.follows(close.round_state)
            &&& close_round_effect(close, winning_side).round_state.settled
            &&& close_round_effect(close, winning_side).global_state == close.global_state
        },
        claim_winnings_error(claim) is None ==> {
            &&& claim_winnings_effect(claim).round_state == claim.round_state
            &&& claim_winnings_effect(claim).user_bet.follows(claim.user_bet)
            &&& claim_winnings_effect(claim).user_bet.claimed
            &&& claim_winnings_effect(claim).global_state == claim.global_state
        },
{
}

/// Moving forward composes: what follows a state that follows another also
/// follows the first, for rounds and for wagers.
pub proof fn lemma_follows_composes(
    first: RoundState,
    second: RoundState,
    third: RoundState,
    bet_first: UserBet,
    bet_second: UserBet,
    bet_third: UserBet,
)
    requires
        second.follows(first),
        third.follows(second),
        bet_second.follows(bet_first),
        bet_third.follows(bet_second),
    ensures
        third.follows(first),
        bet_third.follows(bet_first),
{
}

} // verus!
