//! The error taxonomy of the wagering ledger.

use vstd::prelude::*;

verus! {

/// Every way an operation can be rejected. A rejected operation leaves all
/// records and balances as they were.
#[derive(Clone, Copy, Debug, PartialEq, Eq, Structural)]
pub enum ErrorCode {
    /// The side is neither heads nor tails.
    InvalidSide,
    /// The round's deadline has passed.
    RoundExpired,
    /// The round is settled and takes no more wagers.
    RoundSettled,
    /// The user already holds a wager in this round.
    AlreadyBet,
    /// The round's deadline has not passed yet.
    RoundNotExpired,
    /// The round was settled before.
    AlreadySettled,
    /// Nothing was wagered in the round.
    NoBets,
    /// The round is not settled yet.
    RoundNotSettled,
    /// The wager was paid out before.
    AlreadyClaimed,
    /// The wager is on the losing side.
    NotWinner,
    /// Nothing was wagered on the winning side.
    NoWinners,
    /// The caller is not the authority.
    Unauthorized,
    /// The duration is not within one day.
    InvalidDuration,
    /// The rake rate is above the cap.
    InvalidRakeBps,
    /// The jackpot rate is above the cap.
    InvalidJackpotBps,
    /// The two rates together are above the cap.
    InvalidTotalBps,
    /// The wager is below the minimum.
    BetTooSmall,
    /// An amount does not fit in 64 bits.
    AmountOverflow,
    /// The round counter is exhausted.
    RoundOverflow,
    /// The deadline does not fit in a timestamp.
    TimestampOverflow,
    /// A denominator is zero.
    DivisionByZero,
    /// An escrow balance cannot cover a transfer.
    InsufficientFunds,
    /// The wager belongs to another user.
    InvalidUser,
    /// The wager belongs to another round.
    InvalidRound,
    /// The wager holds no amount.
    InvalidBet,
    /// The computed payout is zero.
    InvalidPayout,
    /// A bump seed differs from the recorded one.
    InvalidBump,
}

} // verus!
