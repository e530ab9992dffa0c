//! Round-based two-outcome wagering ledger with escrowed pots, verified
//! settlement arithmetic and a hash-derived outcome.
//!
//! The operations work on plain records and balances that the caller reads
//! from the host ledger and stores back; the host's clock comes in as a
//! value. An operation that is rejected changes nothing.

pub mod engine;
pub mod errors;
pub mod fees;
pub mod laws;
pub mod outcome;
pub mod state;

pub use engine::{
    claim_winnings, close_round, initialize, initialize_jackpot, place_bet, settle_round,
    start_round,
};
pub use errors::ErrorCode;
pub use state::{
    ClaimWinnings, Clock, CloseRound, GlobalState, Initialize, InitializeJackpot, Jackpot,
    PlaceBet, Pubkey, RoundState, StartRound, Treasury, UserBet,
};
