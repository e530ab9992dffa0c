//! Fee and payout arithmetic: multiply first, then divide, in 64 bits, and
//! fail rather than wrap.

use vstd::prelude::*;
use crate::errors::ErrorCode;
use crate::state::BPS_DENOMINATOR;

verus! {

/// The cut that a rate in basis points takes from a pot, rounded down.
pub open spec fn fee_cut(total_pot: int, bps: int) -> int {
    total_pot * bps / 10_000
}

/// What is left of a pot for the winners once both cuts are taken.
pub open spec fn winner_pool(total_pot: int, rake_bps: int, jackpot_bps: int) -> int {
    total_pot - fee_cut(total_pot, jackpot_bps) - fee_cut(total_pot, rake_bps)
}

/// A wager's share of a pool by its weight among the winners, rounded down.
pub open spec fn payout_share(amount: int, pool: int, winning_total: int) -> int
    recommends
        winning_total > 0,
{
    amount * pool / winning_total
}

/// The smaller of two amounts.
pub open spec fn least(a: int, b: int) -> int {
    if a <= b {
        a
    } else {
        b
    }
}

/// The sum of two amounts, `AmountOverflow` where it does not fit.
pub fn total_of(heads_total: u64, tails_total: u64) -> (res: Result<u64, ErrorCode>)
    ensures
        heads_total + tails_total <= u64::MAX ==> res == Ok::<u64, ErrorCode>(
            (heads_total + tails_total) as u64,
        ),
        heads_total + tails_total > u64::MAX ==> res == Err::<u64, ErrorCode>(
            ErrorCode::AmountOverflow,
        ),
{
    match heads_total.checked_add(tails_total) {
        Some(total) => Ok(total),
        None => Err(ErrorCode::AmountOverflow),
    }
}

/// The cut of `total_pot` at `bps` basis points, `AmountOverflow` where the
/// product does not fit.
pub fn cut_of(total_pot: u64, bps: u16) -> (res: Result<u64, ErrorCode>)
    ensures
        total_pot * bps <= u64::MAX ==> res == Ok::<u64, ErrorCode>(
            fee_cut(total_pot as int, bps as int) as u64,
        ),
        total_pot * bps > u64::MAX ==> res == Err::<u64, ErrorCode>(ErrorCode::AmountOverflow),
        res is Ok ==> res->Ok_0 == fee_cut(total_pot as int, bps as int),
{
    let rate: u64 = bps.into();
    match total_pot.checked_mul(rate) {
        Some(product) => Ok(product / BPS_DENOMINATOR),
        None => Err(ErrorCode::AmountOverflow),
    }
}

/// The winners' pool of `total_pot`, `AmountOverflow` where a product does
/// not fit or the cuts exceed the pot.
pub fn pool_of(total_pot: u64, rake_bps: u16, jackpot_bps: u16) -> (res: Result<u64, ErrorCode>)
    ensures
        pool_fits(total_pot as int, rake_bps as int, jackpot_bps as int) ==> res == Ok::<
            u64,
            ErrorCode,
        >(winner_pool(total_pot as int, rake_bps as int, jackpot_bps as int) as u64),
        !pool_fits(total_pot as int, rake_bps as int, jackpot_bps as int) ==> res == Err::<
            u64,
            ErrorCode,
        >(ErrorCode::AmountOverflow),
        res is Ok ==> res->Ok_0 == winner_pool(
            total_pot as int,
            rake_bps as int,
            jackpot_bps as int,
        ),
{
    let jackpot_cut = match cut_of(total_pot, jackpot_bps) {
        Ok(cut) => cut,
        Err(e) => { return Err(e); },
    };
    let rake_cut = match cut_of(total_pot, rake_bps) {
        Ok(cut) => cut,
        Err(e) => { return Err(e); },
    };
    match total_pot.checked_sub(jackpot_cut) {
        Some(rest) => match rest.checked_sub(rake_cut) {
            Some(pool) => Ok(pool),
            None => Err(ErrorCode::AmountOverflow),
        },
        None => Err(ErrorCode::AmountOverflow),
    }
}

/// Both products fit in 64 bits and the cuts do not exceed the pot.
pub open spec fn pool_fits(total_pot: int, rake_bps: int, jackpot_bps: int) -> bool {
    &&& total_pot * jackpot_bps <= u64::MAX
    &&& total_pot * rake_bps <= u64::MAX
    &&& winner_pool(total_pot, rake_bps, jackpot_bps) >= 0
}

/// The share of a wager of `amount` in `pool` among winners who wagered
/// `winning_total`: `AmountOverflow` where the product does not fit, else
/// `DivisionByZero` where nobody wagered on the winning side.
pub fn share_of(amount: u64, pool: u64, winning_total: u64) -> (res: Result<u64, ErrorCode>)
    ensures
        amount * pool > u64::MAX ==> res == Err::<u64, ErrorCode>(ErrorCode::AmountOverflow),
        amount * pool <= u64::MAX && winning_total == 0 ==> res == Err::<u64, ErrorCode>(
            ErrorCode::DivisionByZero,
        ),
        amount * pool <= u64::MAX && winning_total > 0 ==> res == Ok::<u64, ErrorCode>(
            payout_share(amount as int, pool as int, winning_total as int) as u64,
        ),
        res is Ok ==> res->Ok_0 == payout_share(amount as int, pool as int, winning_total as int),
{
    match amount.checked_mul(pool) {
        Some(product) => {
            if winning_total == 0 {
                Err(ErrorCode::DivisionByZero)
            } else {
                Ok(product / winning_total)
            }
        },
        None => Err(ErrorCode::AmountOverflow),
    }
}

} // verus!
