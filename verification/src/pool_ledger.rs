//! The pool: set up once, refilled and re-tuned by its admin.
//!
//! The operations that move tokens follow the same two-part protocol as
//! those of the escrows: `transfer_request` names the transfer, the operation
//! takes the host's answer and commits all or nothing.

use vstd::prelude::*;
use crate::errors::AicatAirdropError;
use crate::identity::Identity;
use crate::state::Pool;
use crate::transfer::{Transfer, TransferOutcome};

verus! {

/// The accounts of [`initialize_pool`].
#[derive(Clone, Copy, Debug, PartialEq, Eq)]
pub struct InitializePool {
    /// The slot of the pool record: `None` as long as no pool exists.
    pub pool: Option<Pool>,
    /// The caller, who becomes the admin of the pool.
    pub admin: Identity,
    /// The kind of token that the pool hands out.
    pub airdrop_token_mint: Identity,
    /// The token account that will hold the pooled funds.
    pub pool_token_account: Identity,
    /// The admin's token account, which funds the pool.
    pub admin_token_account: Identity,
    /// The bump of the pool's derived address.
    pub bump: u8,
}

impl InitializePool {
    /// The guard that turns the operation away before any transfer is asked
    /// for, if one does: a pool exists already.
    pub open spec fn rejection(&self) -> Option<AicatAirdropError> {
        if self.pool is Some {
            Some(AicatAirdropError::DuplicatePool)
        } else {
            None
        }
    }

    /// The transfer that the operation asks for: the initial funds, out of
    /// the admin's token account into the pool's, signed for by the admin.
    pub open spec fn requested_transfer(&self, initial_amount: u64) -> Transfer {
        Transfer {
            from: self.admin_token_account,
            to: self.pool_token_account,
            authority: self.admin,
            amount: initial_amount,
        }
    }

    /// How the operation ends, given the host's answer to the transfer.
    pub open spec fn verdict(&self, outcome: TransferOutcome) -> Result<(), AicatAirdropError> {
        match self.rejection() {
            Some(e) => Err(e),
            None => if outcome is Failed {
                Err(AicatAirdropError::TransferFailed)
            } else {
                Ok(())
            },
        }
    }

    /// The accounts after the operation has gone through: the pool exists,
    /// holds the initial funds and has no participants yet.
    pub open spec fn applied(&self, initial_amount: u64, airdrop_amount: u64) -> InitializePool {
        InitializePool {
            pool: Some(
                Pool {
                    admin: self.admin,
                    airdrop_token_mint: self.airdrop_token_mint,
                    pool_token_account: self.pool_token_account,
                    total_tokens: initial_amount,
                    airdrop_amount,
                    total_users: 0,
                    bump: self.bump,
                },
            ),
            ..*self
        }
    }

    /// Runs the guard and names the transfer to carry out. Changes nothing.
    pub fn transfer_request(&self, initial_amount: u64) -> (r: Result<
        Transfer,
        AicatAirdropError,
    >)
        ensures
            r == (match self.rejection() {
                Some(e) => Err::<Transfer, AicatAirdropError>(e),
                None => Ok(self.requested_transfer(initial_amount)),
            }),
    {
        if self.pool.is_some() {
            return Err(AicatAirdropError::DuplicatePool);
        }
        Ok(
            Transfer {
                from: self.admin_token_account,
                to: self.pool_token_account,
                authority: self.admin,
                amount: initial_amount,
            },
        )
    }
}

/// Creates the pool, funded with `initial_amount` tokens out of the caller's
/// token account, and hands `airdrop_amount` to each participant to come.
///
/// Fails with `DuplicatePool` if a pool exists already and with
/// `TransferFailed` if the host did not move the tokens. On failure nothing
/// changes.
pub fn initialize_pool(
    ctx: &mut InitializePool,
    initial_amount: u64,
    airdrop_amount: u64,
    outcome: TransferOutcome,
) -> (r: Result<(), AicatAirdropError>)
    ensures
        r == old(ctx).verdict(outcome),
        r is Ok ==> *final(ctx) == old(ctx).applied(initial_amount, airdrop_amount),
        r is Err ==> *final(ctx) == *old(ctx),
{
    if ctx.pool.is_some() {
        return Err(AicatAirdropError::DuplicatePool);
    }
    match outcome {
        TransferOutcome::Failed => {
            return Err(AicatAirdropError::TransferFailed);
        },
        TransferOutcome::Completed => {},
    }
    ctx.pool = Some(
        Pool {
            admin: ctx.admin,
            airdrop_token_mint: ctx.airdrop_token_mint,
            pool_token_account: ctx.pool_token_account,
            total_tokens: initial_amount,
            airdrop_amount,
            total_users: 0,
            bump: ctx.bump,
        },
    );
    Ok(())
}

/// The accounts of [`refill_pool`].
#[derive(Clone, Copy, Debug, PartialEq, Eq)]
pub struct RefillPool {
    /// The pool that is refilled.
    pub pool: Pool,
    /// The caller.
    pub admin: Identity,
    /// The caller's token account, which funds the refill.
    pub admin_token_account: Identity,
    /// The token account that holds the pooled funds.
    pub pool_token_account: Identity,
}

impl RefillPool {
    /// The guard that turns the operation away before any transfer is asked
    /// for, if one does: the caller is not the admin of the pool.
    pub open spec fn rejection(&self) -> Option<AicatAirdropError> {
        if self.pool.admin != self.admin {
            Some(AicatAirdropError::UnauthorizedAdmin)
        } else {
            None
        }
    }

    /// The transfer that the operation asks for: `amount` tokens, out of the
    /// admin's token account into the pool's, signed for by the admin.
    pub open spec fn requested_transfer(&self, amount: u64) -> Transfer {
        Transfer {
            from: self.admin_token_account,
            to: self.pool_token_account,
            authority: self.admin,
            amount,
        }
    }

    /// How the operation ends, given the host's answer to the transfer.
    pub open spec fn verdict(&self, amount: u64, outcome: TransferOutcome) -> Result<
        (),
        AicatAirdropError,
    > {
        match self.rejection() {
            Some(e) => Err(e),
            None => if outcome is Failed {
                Err(AicatAirdropError::TransferFailed)
            } else if self.pool.total_tokens + amount > u64::MAX {
                Err(AicatAirdropError::ArithmeticOverflow)
            } else {
                Ok(())
            },
        }
    }

    /// The accounts after the operation has gone through: the pool holds
    /// `amount` tokens more.
    pub open spec fn applied(&self, amount: u64) -> RefillPool {
        RefillPool {
            pool: Pool { total_tokens: (self.pool.total_tokens + amount) as u64, ..self.pool },
            ..*self
        }
    }

    /// Runs the guard and names the transfer to carry out. Changes nothing.
    pub fn transfer_request(&self, amount: u64) -> (r: Result<Transfer, AicatAirdropError>)
        ensures
            r == (match self.rejection() {
                Some(e) => Err::<Transfer, AicatAirdropError>(e),
                None => Ok(self.requested_transfer(amount)),
            }),
    {
        if self.pool.admin != self.admin {
            return Err(AicatAirdropError::UnauthorizedAdmin);
        }
        Ok(
            Transfer {
                from: self.admin_token_account,
                to: self.pool_token_account,
                authority: self.admin,
                amount,
            },
        )
    }
}

/// Adds `amount` tokens out of the admin's token account to the pool.
///
/// Fails with `UnauthorizedAdmin` if the caller is not the admin of the pool,
/// with `TransferFailed` if the host did not move the tokens, and with
/// `ArithmeticOverflow` if the balance of the pool would leave the range of
/// `u64`. On failure nothing changes.
pub fn refill_pool(ctx: &mut RefillPool, amount: u64, outcome: TransferOutcome) -> (r: Result<
    (),
    AicatAirdropError,
>)
    ensures
        r == old(ctx).verdict(amount, outcome),
        r is Ok ==> *final(ctx) == old(ctx).applied(amount),
        r is Err ==> *final(ctx) == *old(ctx),
{
    if ctx.pool.admin != ctx.admin {
        return Err(AicatAirdropError::UnauthorizedAdmin);
    }
    match outcome {
        TransferOutcome::Failed => {
            return Err(AicatAirdropError::TransferFailed);
        },
        TransferOutcome::Completed => {},
    }
    let total_tokens = match ctx.pool.total_tokens.checked_add(amount) {
        Some(sum) => sum,
        None => {
            return Err(AicatAirdropError::ArithmeticOverflow);
        },
    };
    ctx.pool.total_tokens = total_tokens;
    Ok(())
}

/// The accounts of [`update_airdrop_amount`].
#[derive(Clone, Copy, Debug, PartialEq, Eq)]
pub struct UpdateAirdropAmount {
    /// The pool whose allocation size is changed.
    pub pool: Pool,
    /// The caller.
    pub admin: Identity,
}

impl UpdateAirdropAmount {
    /// How the operation ends: only the admin of the pool may change the
    /// allocation size.
    pub open spec fn verdict(&self) -> Result<(), AicatAirdropError> {
        if self.pool.admin != self.admin {
            Err(AicatAirdropError::UnauthorizedAdmin)
        } else {
            Ok(())
        }
    }

    /// The accounts after the operation has gone through.
    pub open spec fn applied(&self, new_amount: u64) -> UpdateAirdropAmount {
        UpdateAirdropAmount { pool: Pool { airdrop_amount: new_amount, ..self.pool }, ..*self }
    }
}

/// Sets the allocation of participants to come to `new_amount`. Any value is
/// taken, 0 included; escrows that exist keep what they hold.
///
/// Fails with `UnauthorizedAdmin`, and changes nothing, if the caller is not
/// the admin of the pool.
pub fn update_airdrop_amount(ctx: &mut UpdateAirdropAmount, new_amount: u64) -> (r: Result<
    (),
    AicatAirdropError,
>)
    ensures
        r == old(ctx).verdict(),
        r is Ok ==> *final(ctx) == old(ctx).applied(new_amount),
        r is Err ==> *final(ctx) == *old(ctx),
{
    if ctx.pool.admin != ctx.admin {
        return Err(AicatAirdropError::UnauthorizedAdmin);
    }
    ctx.pool.airdrop_amount = new_amount;
    Ok(())
}

/// Authorization of the admin is absolute: a caller who is not the admin of
/// the pool can neither refill it nor change the allocation size, whatever
/// the state of the pool and whatever the host answers.
pub proof fn lemma_admin_only(
    refill: RefillPool,
    amount: u64,
    outcome: TransferOutcome,
    update: UpdateAirdropAmount,
)
    ensures
        refill.admin != refill.pool.admin ==> refill.verdict(amount, outcome) == Err::<
            (),
            AicatAirdropError,
        >(AicatAirdropError::UnauthorizedAdmin) && refill.rejection() == Some(
            AicatAirdropError::UnauthorizedAdmin,
        ),
        update.admin != update.pool.admin ==> update.verdict() == Err::<(), AicatAirdropError>(
            AicatAirdropError::UnauthorizedAdmin,
        ),
{
}

} // verus!
