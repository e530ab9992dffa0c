//! The round lifecycle: configuration, opening a round, wagering, settlement
//! and claims. Each operation either takes effect as a whole or is rejected
//! and leaves every record and balance as it was.

use vstd::prelude::*;
use crate::errors::ErrorCode;
use crate::fees::{cut_of, fee_cut, least, payout_share, pool_of, share_of, total_of, winner_pool};
use crate::outcome::{derive_outcome, outcome_of};
use crate::state::{
    ClaimWinnings, Clock, CloseRound, GlobalState, Initialize, InitializeJackpot, PlaceBet,
    RoundState, StartRound, UserBet, DEFAULT_MIN_BET, MAX_FEE_BPS, MAX_ROUND_SECONDS, SIDE_HEADS,
    SIDE_TAILS, SIDE_UNSET,
};

verus! {

/// What an operation returns when `error` is the first reason to reject it.
pub open spec fn verdict(error: Option<ErrorCode>) -> Result<(), ErrorCode> {
    match error {
        Some(e) => Err(e),
        None => Ok(()),
    }
}

/// Why `initialize` rejects a pair of fee rates, if it does.
pub open spec fn initialize_error(rake_bps: u16, jackpot_bps: u16) -> Option<ErrorCode> {
    if rake_bps > MAX_FEE_BPS {
        Some(ErrorCode::InvalidRakeBps)
    } else if jackpot_bps > MAX_FEE_BPS {
        Some(ErrorCode::InvalidJackpotBps)
    } else if rake_bps + jackpot_bps > MAX_FEE_BPS {
        Some(ErrorCode::InvalidTotalBps)
    } else {
        None
    }
}

/// The records after `initialize` has taken effect.
pub open spec fn initialize_effect(ctx: Initialize, rake_bps: u16, jackpot_bps: u16) -> Initialize {
    Initialize {
        global_state: GlobalState {
            authority: ctx.authority,
            current_round: 0,
            rake_bps,
            jackpot_bps,
            treasury_bump: ctx.treasury_bump,
            jackpot_bump: ctx.jackpot_bump,
            min_bet: DEFAULT_MIN_BET,
        },
        ..ctx
    }
}

/// Sets up the configuration with the given fee rates, the caller as
/// authority, the round counter at zero and the default minimum wager.
/// Succeeds exactly when the two rates together stay within the cap.
pub fn initialize(ctx: &mut Initialize, rake_bps: u16, jackpot_bps: u16) -> (res: Result<
    (),
    ErrorCode,
>)
    ensures
        res == verdict(initialize_error(rake_bps, jackpot_bps)),
        res is Ok <==> rake_bps + jackpot_bps <= MAX_FEE_BPS,
        res is Err ==> *final(ctx) == *old(ctx),
        res is Ok ==> *final(ctx) == initialize_effect(*old(ctx), rake_bps, jackpot_bps),
        res is Ok ==> final(ctx).global_state.wf(),
{
    if rake_bps > MAX_FEE_BPS {
        return Err(ErrorCode::InvalidRakeBps);
    }
    if jackpot_bps > MAX_FEE_BPS {
        return Err(ErrorCode::InvalidJackpotBps);
    }
    if rake_bps + jackpot_bps > MAX_FEE_BPS {
        return Err(ErrorCode::InvalidTotalBps);
    }
    ctx.global_state.authority = ctx.authority;
    ctx.global_state.current_round = 0;
    ctx.global_state.rake_bps = rake_bps;
    ctx.global_state.jackpot_bps = jackpot_bps;
    ctx.global_state.treasury_bump = ctx.treasury_bump;
    ctx.global_state.jackpot_bump = ctx.jackpot_bump;
    ctx.global_state.min_bet = DEFAULT_MIN_BET;
    Ok(())
}

/// Why `initialize_jackpot` rejects its records, if it does.
pub open spec fn initialize_jackpot_error(ctx: InitializeJackpot) -> Option<ErrorCode> {
    if ctx.authority != ctx.global_state.authority {
        Some(ErrorCode::Unauthorized)
    } else if ctx.jackpot_bump != ctx.global_state.jackpot_bump {
        Some(ErrorCode::InvalidBump)
    } else {
        None
    }
}

/// Admits the re-creation of a missing jackpot account: the caller must be
/// the authority and the bump must be the recorded one. Changes nothing.
pub fn initialize_jackpot(ctx: &InitializeJackpot) -> (res: Result<(), ErrorCode>)
    ensures
        res == verdict(initialize_jackpot_error(*ctx)),
{
    if !ctx.authority.same(&ctx.global_state.authority) {
        return Err(ErrorCode::Unauthorized);
    }
    if ctx.jackpot_bump != ctx.global_state.jackpot_bump {
        return Err(ErrorCode::InvalidBump);
    }
    Ok(())
}

/// Why `start_round` rejects a request, if it does.
pub open spec fn start_round_error(ctx: StartRound, clock: Clock, duration_seconds: i64) -> Option<
    ErrorCode,
> {
    if ctx.authority != ctx.global_state.authority {
        Some(ErrorCode::Unauthorized)
    } else if duration_seconds <= 0 || duration_seconds > MAX_ROUND_SECONDS {
        Some(ErrorCode::InvalidDuration)
    } else if ctx.global_state.current_round == u64::MAX {
        Some(ErrorCode::RoundOverflow)
    } else if clock.unix_timestamp + duration_seconds > i64::MAX {
        Some(ErrorCode::TimestampOverflow)
    } else {
        None
    }
}

/// The records after `start_round` has taken effect: the counter is one
/// higher, and the new round carries that number, empty totals, its deadline
/// and no outcome.
pub open spec fn start_round_effect(ctx: StartRound, clock: Clock, duration_seconds: i64) -> StartRound {
    StartRound {
        global_state: GlobalState {
            current_round: (ctx.global_state.current_round + 1) as u64,
            ..ctx.global_state
        },
        round_state: RoundState {
            round_id: (ctx.global_state.current_round + 1) as u64,
            heads_total: 0,
            tails_total: 0,
            ends_at: (clock.unix_timestamp + duration_seconds) as i64,
            settled: false,
            winning_side: SIDE_UNSET,
            bump: ctx.round_bump,
        },
        ..ctx
    }
}

/// Opens the next round for `duration_seconds` from now.
pub fn start_round(ctx: &mut StartRound, clock: Clock, duration_seconds: i64) -> (res: Result<
    (),
    ErrorCode,
>)
    ensures
        res == verdict(start_round_error(*old(ctx), clock, duration_seconds)),
        res is Err ==> *final(ctx) == *old(ctx),
        res is Ok ==> *final(ctx) == start_round_effect(*old(ctx), clock, duration_seconds),
        res is Ok ==> final(ctx).round_state.wf(),
        old(ctx).global_state.wf() ==> final(ctx).global_state.wf(),
        final(ctx).global_state.current_round >= old(ctx).global_state.current_round,
{
    if !ctx.authority.same(&ctx.global_state.authority) {
        return Err(ErrorCode::Unauthorized);
    }
    if duration_seconds <= 0 || duration_seconds > MAX_ROUND_SECONDS {
        return Err(ErrorCode::InvalidDuration);
    }
    let round_id = match ctx.global_state.current_round.checked_add(1) {
        Some(next) => next,
        None => { return Err(ErrorCode::RoundOverflow); },
    };
    let ends_at = match clock.unix_timestamp.checked_add(duration_seconds) {
        Some(deadline) => deadline,
        None => { return Err(ErrorCode::TimestampOverflow); },
    };
    ctx.global_state.current_round = round_id;
    ctx.round_state.round_id = round_id;
    ctx.round_state.heads_total = 0;
    ctx.round_state.tails_total = 0;
    ctx.round_state.ends_at = ends_at;
    ctx.round_state.settled = false;
    ctx.round_state.winning_side = SIDE_UNSET;
    ctx.round_state.bump = ctx.round_bump;
    Ok(())
}

/// Why `place_bet` rejects a wager, if it does.
pub open spec fn place_bet_error(ctx: PlaceBet, clock: Clock, side: u8, amount: u64) -> Option<
    ErrorCode,
> {
    let side_total = if side == SIDE_HEADS {
        ctx.round_state.heads_total
    } else {
        ctx.round_state.tails_total
    };
    if side > SIDE_TAILS {
        Some(ErrorCode::InvalidSide)
    } else if amount < ctx.global_state.min_bet {
        Some(ErrorCode::BetTooSmall)
    } else if clock.unix_timestamp >= ctx.round_state.ends_at {
        Some(ErrorCode::RoundExpired)
    } else if ctx.round_state.settled {
        Some(ErrorCode::RoundSettled)
    } else if ctx.user_bet.amount != 0 {
        Some(ErrorCode::AlreadyBet)
    } else if ctx.user_lamports < amount {
        Some(ErrorCode::InsufficientFunds)
    } else if ctx.round_lamports + amount > u64::MAX || side_total + amount > u64::MAX {
        Some(ErrorCode::AmountOverflow)
    } else {
        None
    }
}

/// A round with `amount` added to the total of `side`; tails stands for any
/// side but heads.
pub open spec fn round_credited(round: RoundState, side: u8, amount: u64) -> RoundState {
    if side == SIDE_HEADS {
        RoundState { heads_total: (round.heads_total + amount) as u64, ..round }
    } else {
        RoundState { tails_total: (round.tails_total + amount) as u64, ..round }
    }
}

/// The records and balances after `place_bet` has taken effect: the amount
/// has moved from the user to the round's escrow, the wager is recorded and
/// the side's total has grown by the amount.
pub open spec fn place_bet_effect(ctx: PlaceBet, side: u8, amount: u64) -> PlaceBet {
    PlaceBet {
        round_state: round_credited(ctx.round_state, side, amount),
        round_lamports: (ctx.round_lamports + amount) as u64,
        user_bet: UserBet {
            user: ctx.user,
            round_id: ctx.round_state.round_id,
            side,
            amount,
            claimed: false,
            bump: ctx.user_bet.bump,
        },
        user_lamports: (ctx.user_lamports - amount) as u64,
        ..ctx
    }
}

/// Places the user's one wager in an open round.
pub fn place_bet(ctx: &mut PlaceBet, clock: Clock, side: u8, amount: u64) -> (res: Result<
    (),
    ErrorCode,
>)
    ensures
        res == verdict(place_bet_error(*old(ctx), clock, side, amount)),
        res is Err ==> *final(ctx) == *old(ctx),
        res is Ok ==> *final(ctx) == place_bet_effect(*old(ctx), side, amount),
        res is Ok ==> final(ctx).round_state.total_pot() == old(ctx).round_state.total_pot()
            + amount,
        res is Ok ==> final(ctx).round_lamports == old(ctx).round_lamports + amount,
        final(ctx).round_state.follows(old(ctx).round_state),
        final(ctx).user_bet.follows(old(ctx).user_bet),
        old(ctx).round_state.wf() ==> final(ctx).round_state.wf(),
{
    if side > SIDE_TAILS {
        return Err(ErrorCode::InvalidSide);
    }
    if amount < ctx.global_state.min_bet {
        return Err(ErrorCode::BetTooSmall);
    }
    if clock.unix_timestamp >= ctx.round_state.ends_at {
        return Err(ErrorCode::RoundExpired);
    }
    if ctx.round_state.settled {
        return Err(ErrorCode::RoundSettled);
    }
    if ctx.user_bet.amount != 0 {
        return Err(ErrorCode::AlreadyBet);
    }
    if ctx.user_lamports < amount {
        return Err(ErrorCode::InsufficientFunds);
    }
    let escrow = match ctx.round_lamports.checked_add(amount) {
        Some(sum) => sum,
        None => { return Err(ErrorCode::AmountOverflow); },
    };
    let side_total = if side == SIDE_HEADS {
        ctx.round_state.heads_total
    } else {
        ctx.round_state.tails_total
    };
    let credited = match side_total.checked_add(amount) {
        Some(sum) => sum,
        None => { return Err(ErrorCode::AmountOverflow); },
    };
    ctx.user_lamports = ctx.user_lamports - amount;
    ctx.round_lamports = escrow;
    ctx.user_bet.user = ctx.user;
    ctx.user_bet.round_id = ctx.round_state.round_id;
    ctx.user_bet.side = side;
    ctx.user_bet.amount = amount;
    ctx.user_bet.claimed = false;
    if side == SIDE_HEADS {
        ctx.round_state.heads_total = credited;
    } else {
        ctx.round_state.tails_total = credited;
    }
    Ok(())
}

/// The two fee cuts of a round's pot together.
pub open spec fn total_cut(ctx: CloseRound) -> int {
    fee_cut(ctx.round_state.total_pot(), ctx.global_state.jackpot_bps as int) + fee_cut(
        ctx.round_state.total_pot(),
        ctx.global_state.rake_bps as int,
    )
}

/// Why `close_round` rejects a settlement, if it does.
pub open spec fn close_round_error(ctx: CloseRound, clock: Clock) -> Option<ErrorCode> {
    let pot = ctx.round_state.total_pot();
    if ctx.authority != ctx.global_state.authority {
        Some(ErrorCode::Unauthorized)
    } else if clock.unix_timestamp < ctx.round_state.ends_at {
        Some(ErrorCode::RoundNotExpired)
    } else if ctx.round_state.settled {
        Some(ErrorCode::AlreadySettled)
    } else if pot > u64::MAX {
        Some(ErrorCode::AmountOverflow)
    } else if pot == 0 {
        Some(ErrorCode::NoBets)
    } else if pot * ctx.global_state.jackpot_bps > u64::MAX || pot * ctx.global_state.rake_bps
        > u64::MAX || total_cut(ctx) > u64::MAX {
        Some(ErrorCode::AmountOverflow)
    } else if ctx.round_lamports < total_cut(ctx) {
        Some(ErrorCode::InsufficientFunds)
    } else if ctx.treasury_lamports + total_cut(ctx) > u64::MAX {
        Some(ErrorCode::AmountOverflow)
    } else {
        None
    }
}

/// The records and balances after a settlement with `winning_side` has taken
/// effect: both cuts have moved from the escrow to the treasury, and the
/// round is settled with its outcome.
pub open spec fn close_round_effect(ctx: CloseRound, winning_side: u8) -> CloseRound {
    CloseRound {
        round_state: RoundState { settled: true, winning_side, ..ctx.round_state },
        round_lamports: (ctx.round_lamports - total_cut(ctx)) as u64,
        treasury_lamports: (ctx.treasury_lamports + total_cut(ctx)) as u64,
        ..ctx
    }
}

/// Settles an expired round with a given winning side, heads or tails:
/// checks the round, takes the fee cuts and fixes the outcome.
pub fn settle_round(ctx: &mut CloseRound, clock: Clock, winning_side: u8) -> (res: Result<
    (),
    ErrorCode,
>)
    requires
        winning_side == SIDE_HEADS || winning_side == SIDE_TAILS,
    ensures
        res == verdict(close_round_error(*old(ctx), clock)),
        res is Err ==> *final(ctx) == *old(ctx),
        res is Ok ==> *final(ctx) == close_round_effect(*old(ctx), winning_side),
        res is Ok ==> final(ctx).round_state.wf(),
        res is Ok ==> final(ctx).round_lamports + final(ctx).treasury_lamports == old(
            ctx,
        ).round_lamports + old(ctx).treasury_lamports,
        final(ctx).round_state.follows(old(ctx).round_state),
{
    if !ctx.authority.same(&ctx.global_state.authority) {
        return Err(ErrorCode::Unauthorized);
    }
    if clock.unix_timestamp < ctx.round_state.ends_at {
        return Err(ErrorCode::RoundNotExpired);
    }
    if ctx.round_state.settled {
        return Err(ErrorCode::AlreadySettled);
    }
    let total_pot = match total_of(ctx.round_state.heads_total, ctx.round_state.tails_total) {
        Ok(total) => total,
        Err(e) => { return Err(e); },
    };
    if total_pot == 0 {
        return Err(ErrorCode::NoBets);
    }
    let jackpot_cut = match cut_of(total_pot, ctx.global_state.jackpot_bps) {
        Ok(cut) => cut,
        Err(e) => { return Err(e); },
    };
    let rake_cut = match cut_of(total_pot, ctx.global_state.rake_bps) {
        Ok(cut) => cut,
        Err(e) => { return Err(e); },
    };
    let cuts = match total_of(jackpot_cut, rake_cut) {
        Ok(total) => total,
        Err(e) => { return Err(e); },
    };
    if ctx.round_lamports < cuts {
        return Err(ErrorCode::InsufficientFunds);
    }
    let treasury = match ctx.treasury_lamports.checked_add(cuts) {
        Some(sum) => sum,
        None => { return Err(ErrorCode::AmountOverflow); },
    };
    ctx.round_lamports = ctx.round_lamports - cuts;
    ctx.treasury_lamports = treasury;
    ctx.round_state.winning_side = winning_side;
    ctx.round_state.settled = true;
    Ok(())
}

/// Settles an expired round: derives the outcome from the round's id, the
/// slot and the escrow balance, takes the fee cuts and fixes the outcome.
pub fn close_round(ctx: &mut CloseRound, clock: Clock) -> (res: Result<(), ErrorCode>)
    ensures
        res == verdict(close_round_error(*old(ctx), clock)),
        res is Err ==> *final(ctx) == *old(ctx),
        res is Ok ==> *final(ctx) == close_round_effect(
            *old(ctx),
            outcome_of(old(ctx).round_state.round_id, clock.slot, old(ctx).round_lamports),
        ),
        res is Ok ==> final(ctx).round_state.wf(),
        res is Ok ==> final(ctx).round_lamports + final(ctx).treasury_lamports == old(
            ctx,
        ).round_lamports + old(ctx).treasury_lamports,
        final(ctx).round_state.follows(old(ctx).round_state),
{
    let winning_side = derive_outcome(ctx.round_state.round_id, clock.slot, ctx.round_lamports);
    settle_round(ctx, clock, winning_side)
}

/// The pool that a claim draws on: the winners' pool of the round, or the
/// escrow balance where that is less.
pub open spec fn available_pool(ctx: ClaimWinnings) -> int {
    least(
        ctx.round_lamports as int,
        winner_pool(
            ctx.round_state.total_pot(),
            ctx.global_state.rake_bps as int,
            ctx.global_state.jackpot_bps as int,
        ),
    )
}

/// What a claim pays: the wager's share of the available pool by its weight
/// among the winning wagers.
pub open spec fn claim_share(ctx: ClaimWinnings) -> int {
    payout_share(
        ctx.user_bet.amount as int,
        available_pool(ctx),
        ctx.round_state.winning_total(),
    )
}

/// Why `claim_winnings` rejects a claim, if it does.
pub open spec fn claim_winnings_error(ctx: ClaimWinnings) -> Option<ErrorCode> {
    let pot = ctx.round_state.total_pot();
    if !ctx.round_state.settled {
        Some(ErrorCode::RoundNotSettled)
    } else if ctx.user_bet.claimed {
        Some(ErrorCode::AlreadyClaimed)
    } else if ctx.user_bet.side != ctx.round_state.winning_side {
        Some(ErrorCode::NotWinner)
    } else if ctx.user_bet.user != ctx.user {
        Some(ErrorCode::InvalidUser)
    } else if ctx.user_bet.round_id != ctx.round_state.round_id {
        Some(ErrorCode::InvalidRound)
    } else if pot > u64::MAX {
        Some(ErrorCode::AmountOverflow)
    } else if ctx.round_state.winning_total() == 0 {
        Some(ErrorCode::NoWinners)
    } else if ctx.user_bet.amount == 0 {
        Some(ErrorCode::InvalidBet)
    } else if pot * ctx.global_state.jackpot_bps > u64::MAX || pot * ctx.global_state.rake_bps
        > u64::MAX || winner_pool(
        pot,
        ctx.global_state.rake_bps as int,
        ctx.global_state.jackpot_bps as int,
    ) < 0 || ctx.user_bet.amount * available_pool(ctx) > u64::MAX {
        Some(ErrorCode::AmountOverflow)
    } else if claim_share(ctx) == 0 {
        Some(ErrorCode::InvalidPayout)
    } else if ctx.round_lamports < claim_share(ctx) {
        Some(ErrorCode::InsufficientFunds)
    } else if ctx.user_lamports + claim_share(ctx) > u64::MAX {
        Some(ErrorCode::AmountOverflow)
    } else {
        None
    }
}

/// The records and balances after a claim has taken effect: the share has
/// moved from the escrow to the user, and the wager is claimed.
pub open spec fn claim_winnings_effect(ctx: ClaimWinnings) -> ClaimWinnings {
    ClaimWinnings {
        round_lamports: (ctx.round_lamports - claim_share(ctx)) as u64,
        user_bet: UserBet { claimed: true, ..ctx.user_bet },
        user_lamports: (ctx.user_lamports + claim_share(ctx)) as u64,
        ..ctx
    }
}

/// Pays a winning wager its share of the settled round's pool, once.
pub fn claim_winnings(ctx: &mut ClaimWinnings) -> (res: Result<(), ErrorCode>)
    ensures
        res == verdict(claim_winnings_error(*old(ctx))),
        res is Err ==> *final(ctx) == *old(ctx),
        res is Ok ==> *final(ctx) == claim_winnings_effect(*old(ctx)),
        res is Ok ==> final(ctx).round_lamports + final(ctx).user_lamports == old(
            ctx,
        ).round_lamports + old(ctx).user_lamports,
        res is Ok ==> old(ctx).user_bet.side == old(ctx).round_state.winning_side,
        final(ctx).user_bet.follows(old(ctx).user_bet),
        final(ctx).round_state == old(ctx).round_state,
        final(ctx).round_lamports <= old(ctx).round_lamports,
{
    if !ctx.round_state.settled {
        return Err(ErrorCode::RoundNotSettled);
    }
    if ctx.user_bet.claimed {
        return Err(ErrorCode::AlreadyClaimed);
    }
    if ctx.user_bet.side != ctx.round_state.winning_side {
        return Err(ErrorCode::NotWinner);
    }
    if !ctx.user_bet.user.same(&ctx.user) {
        return Err(ErrorCode::InvalidUser);
    }
    if ctx.user_bet.round_id != ctx.round_state.round_id {
        return Err(ErrorCode::InvalidRound);
    }
    let total_pot = match total_of(ctx.round_state.heads_total, ctx.round_state.tails_total) {
        Ok(total) => total,
        Err(e) => { return Err(e); },
    };
    let winning_total = if ctx.round_state.winning_side == SIDE_HEADS {
        ctx.round_state.heads_total
    } else {
        ctx.round_state.tails_total
    };
    if winning_total == 0 {
        return Err(ErrorCode::NoWinners);
    }
    if ctx.user_bet.amount == 0 {
        return Err(ErrorCode::InvalidBet);
    }
    let pool = match pool_of(total_pot, ctx.global_state.rake_bps, ctx.global_state.jackpot_bps) {
        Ok(pool) => pool,
        Err(e) => { return Err(e); },
    };
    let available = if ctx.round_lamports < pool {
        ctx.round_lamports
    } else {
        pool
    };
    let share = match share_of(ctx.user_bet.amount, available, winning_total) {
        Ok(share) => share,
        Err(e) => { return Err(e); },
    };
    if share == 0 {
        return Err(ErrorCode::InvalidPayout);
    }
    if ctx.round_lamports < share {
        return Err(ErrorCode::InsufficientFunds);
    }
    let paid = match ctx.user_lamports.checked_add(share) {
        Some(sum) => sum,
        None => { return Err(ErrorCode::AmountOverflow); },
    };
    ctx.round_lamports = ctx.round_lamports - share;
    ctx.user_lamports = paid;
    ctx.user_bet.claimed = true;
    Ok(())
}

} // verus!
