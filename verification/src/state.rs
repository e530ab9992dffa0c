//! The persistent records of the ledger and the bundles of records that each
//! operation works on.

use vstd::prelude::*;

verus! {

/// Highest fee rate, alone or combined, in basis points.
pub const MAX_FEE_BPS: u16 = 1000;

/// One whole in basis points.
pub const BPS_DENOMINATOR: u64 = 10_000;

/// Smallest wager that a freshly initialised configuration accepts.
pub const DEFAULT_MIN_BET: u64 = 10_000_000;

/// Longest round, in seconds.
pub const MAX_ROUND_SECONDS: i64 = 86_400;

/// The heads side.
pub const SIDE_HEADS: u8 = 0;

/// The tails side.
pub const SIDE_TAILS: u8 = 1;

/// The value of `winning_side` before settlement.
pub const SIDE_UNSET: u8 = 2;

/// An identity on the host ledger, by its 32 bytes.
#[derive(Clone, Copy, Debug, PartialEq, Eq)]
pub struct Pubkey {
    pub bytes: [u8; 32],
}

impl Pubkey {
    /// Whether two identities are the same.
    pub fn same(&self, other: &Pubkey) -> (r: bool)
        ensures
            r == (*self == *other),
    {
        let mut i: usize = 0;
        while i < 32
            invariant
                0 <= i <= 32,
                forall|j: int| 0 <= j < i ==> self.bytes[j] == other.bytes[j],
            decreases 32 - i,
        {
            if self.bytes[i] != other.bytes[i] {
                return false;
            }
            i += 1;
        }
        proof {
            assert(self.bytes =~= other.bytes);
        }
        true
    }
}

/// The host's clock as an operation sees it.
#[derive(Clone, Copy, Debug, PartialEq, Eq, Structural)]
pub struct Clock {
    pub unix_timestamp: i64,
    pub slot: u64,
}

/// The singleton configuration: who may run rounds, the round counter and
/// the fee rates.
#[derive(Clone, Copy, Debug, PartialEq, Eq)]
pub struct GlobalState {
    pub authority: Pubkey,
    pub current_round: u64,
    pub rake_bps: u16,
    pub jackpot_bps: u16,
    pub treasury_bump: u8,
    pub jackpot_bump: u8,
    pub min_bet: u64,
}

impl GlobalState {
    /// Bytes that the record occupies on the host.
    pub const LEN: usize = 32 + 8 + 2 + 2 + 1 + 1 + 8;

    /// The fee rates are capped, alone and together, and the minimum wager is
    /// positive.
    pub open spec fn wf(&self) -> bool {
        &&& self.rake_bps <= MAX_FEE_BPS
        &&& self.jackpot_bps <= MAX_FEE_BPS
        &&& self.rake_bps + self.jackpot_bps <= MAX_FEE_BPS
        &&& self.min_bet > 0
    }
}

/// One round: its pot per side, its deadline and its outcome.
#[derive(Clone, Copy, Debug, PartialEq, Eq, Structural)]
pub struct RoundState {
    pub round_id: u64,
    pub heads_total: u64,
    pub tails_total: u64,
    pub ends_at: i64,
    pub settled: bool,
    pub winning_side: u8,
    pub bump: u8,
}

impl RoundState {
    /// Bytes that the record occupies on the host.
    pub const LEN: usize = 8 + 8 + 8 + 8 + 1 + 1 + 1;

    /// Everything wagered in the round, both sides together.
    pub open spec fn total_pot(&self) -> int {
        self.heads_total + self.tails_total
    }

    /// What was wagered on the winning side; tails stands for any side but
    /// heads.
    pub open spec fn winning_total(&self) -> int {
        if self.winning_side == SIDE_HEADS {
            self.heads_total as int
        } else {
            self.tails_total as int
        }
    }

    /// An unsettled round has no outcome, a settled one has heads or tails.
    pub open spec fn wf(&self) -> bool {
        if self.settled {
            self.winning_side == SIDE_HEADS || self.winning_side == SIDE_TAILS
        } else {
            self.winning_side == SIDE_UNSET
        }
    }

    /// Nothing in `self` has moved backward from `before`: the identity and
    /// the deadline stay, the totals do not shrink, a settled round stays
    /// settled with its totals and outcome.
    pub open spec fn follows(&self, before: RoundState) -> bool {
        &&& self.round_id == before.round_id
        &&& self.ends_at == before.ends_at
        &&& self.heads_total >= before.heads_total
        &&& self.tails_total >= before.tails_total
        &&& before.settled ==> {
            &&& self.settled
            &&& self.winning_side == before.winning_side
            &&& self.heads_total == before.heads_total
            &&& self.tails_total == before.tails_total
        }
    }
}

/// One user's wager in one round. A record with a zero amount is a fresh
/// one that holds no wager yet.
#[derive(Clone, Copy, Debug, PartialEq, Eq)]
pub struct UserBet {
    pub user: Pubkey,
    pub round_id: u64,
    pub side: u8,
    pub amount: u64,
    pub claimed: bool,
    pub bump: u8,
}

impl UserBet {
    /// Bytes that the record occupies on the host.
    pub const LEN: usize = 32 + 8 + 1 + 8 + 1 + 1;

    /// Nothing in `self` has moved backward from `before`: a wager that was
    /// made stays as it is, and once claimed it stays claimed.
    pub open spec fn follows(&self, before: UserBet) -> bool {
        before.amount > 0 ==> {
            &&& self.user == before.user
            &&& self.round_id == before.round_id
            &&& self.side == before.side
            &&& self.amount == before.amount
            &&& before.claimed ==> self.claimed
        }
    }
}

/// The account that takes the fee cuts. It holds nothing but its balance.
#[derive(Clone, Copy, Debug, PartialEq, Eq, Structural)]
pub struct Treasury {
}

impl Treasury {
    /// Bytes that the record occupies on the host.
    pub const LEN: usize = 8;
}

/// The reserved jackpot account. Nothing is ever credited to it.
#[derive(Clone, Copy, Debug, PartialEq, Eq, Structural)]
pub struct Jackpot {
}

impl Jackpot {
    /// Bytes that the record occupies on the host.
    pub const LEN: usize = 8;
}

/// The records that `initialize` creates, and who pays for them.
#[derive(Clone, Copy, Debug, PartialEq, Eq)]
pub struct Initialize {
    pub global_state: GlobalState,
    pub treasury: Treasury,
    pub jackpot: Jackpot,
    pub authority: Pubkey,
    pub treasury_bump: u8,
    pub jackpot_bump: u8,
}

/// The records that `initialize_jackpot` works on.
#[derive(Clone, Copy, Debug, PartialEq, Eq)]
pub struct InitializeJackpot {
    pub global_state: GlobalState,
    pub jackpot: Jackpot,
    pub authority: Pubkey,
    pub jackpot_bump: u8,
}

/// The records that `start_round` works on; `round_state` is the new round's
/// record.
#[derive(Clone, Copy, Debug, PartialEq, Eq)]
pub struct StartRound {
    pub global_state: GlobalState,
    pub round_state: RoundState,
    pub authority: Pubkey,
    pub round_bump: u8,
}

/// The records and balances that `place_bet` works on; `user_bet` is the
/// record of this user in this round.
#[derive(Clone, Copy, Debug, PartialEq, Eq)]
pub struct PlaceBet {
    pub global_state: GlobalState,
    pub round_state: RoundState,
    pub round_lamports: u64,
    pub user_bet: UserBet,
    pub user: Pubkey,
    pub user_lamports: u64,
}

/// The records and balances that `close_round` works on.
#[derive(Clone, Copy, Debug, PartialEq, Eq)]
pub struct CloseRound {
    pub global_state: GlobalState,
    pub round_state: RoundState,
    pub round_lamports: u64,
    pub treasury: Treasury,
    pub treasury_lamports: u64,
    pub authority: Pubkey,
}

/// The records and balances that `claim_winnings` works on.
#[derive(Clone, Copy, Debug, PartialEq, Eq)]
pub struct ClaimWinnings {
    pub global_state: GlobalState,
    pub round_state: RoundState,
    pub round_lamports: u64,
    pub user_bet: UserBet,
    pub user: Pubkey,
    pub user_lamports: u64,
}

} // verus!
