//! The two kinds of record: the pool and the escrow of one participant.

use vstd::prelude::*;
use crate::identity::Identity;

verus! {

/// The shared fund and its administrative parameters. There is one pool; it
/// is created once and never destroyed.
#[derive(Clone, Copy, Debug, PartialEq, Eq)]
pub struct Pool {
    /// The identity that may refill the pool and change the allocation size.
    pub admin: Identity,
    /// The kind of token that the pool hands out.
    pub airdrop_token_mint: Identity,
    /// The token account that holds the pooled funds.
    pub pool_token_account: Identity,
    /// Tokens available for new allocations.
    pub total_tokens: u64,
    /// The allocation that each new participant receives.
    pub airdrop_amount: u64,
    /// How many participants have been created so far.
    pub total_users: u64,
    /// The bump of the pool's derived address.
    pub bump: u8,
}

impl Pool {
    /// The size of a stored pool record in bytes.
    pub const LEN: usize = 32 + 32 + 32 + 8 + 8 + 8 + 1;
}

/// The escrow of one participant: the allocation and the two flags that guard
/// its release. It is created once per participant and stays on record after
/// it has been paid out.
#[derive(Clone, Copy, Debug, PartialEq, Eq)]
pub struct UserAccount {
    /// The participant who owns the escrow.
    pub user: Identity,
    /// The address of the pool that granted it.
    pub pool: Identity,
    /// What is left to withdraw: the allocation until it is paid out, then 0.
    pub airdrop_amount: u64,
    /// Set once a bet has been recorded; never reset.
    pub has_bet: bool,
    /// Set together with `has_bet`, cleared when the allocation is paid out.
    pub can_withdraw: bool,
    /// The bump of the escrow's derived address.
    pub bump: u8,
}

impl UserAccount {
    /// The size of a stored escrow record in bytes.
    pub const LEN: usize = 32 + 32 + 8 + 1 + 1 + 1;

    /// Eligibility implies a recorded bet. Every escrow that the operations
    /// of this library create or change satisfies this.
    pub open spec fn well_formed(&self) -> bool {
        self.can_withdraw ==> self.has_bet
    }

    /// Created, no bet recorded yet.
    pub open spec fn is_active(&self) -> bool {
        !self.has_bet && !self.can_withdraw
    }

    /// A bet is on record and the allocation may be withdrawn.
    pub open spec fn is_qualified(&self) -> bool {
        self.has_bet && self.can_withdraw
    }

    /// The allocation has been paid out.
    pub open spec fn is_settled(&self) -> bool {
        self.has_bet && !self.can_withdraw && self.airdrop_amount == 0
    }
}

} // verus!
