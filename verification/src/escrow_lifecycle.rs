//! The life of an escrow: created with an allocation from the pool, qualified
//! by a recorded bet, settled by one withdrawal.
//!
//! An operation that moves tokens comes in two parts. The method
//! `transfer_request` of its accounts runs the guards and names the one
//! transfer that the host has to carry out. The operation itself takes the
//! host's answer and either commits every record change or none. A caller on
//! a host that has already moved the tokens when the operation fails must
//! undo the transfer.

use vstd::prelude::*;
use crate::errors::AicatAirdropError;
use crate::identity::Identity;
use crate::state::{Pool, UserAccount};
use crate::transfer::{Transfer, TransferOutcome};

verus! {

/// The accounts of [`create_user`].
#[derive(Clone, Copy, Debug, PartialEq, Eq)]
pub struct CreateUser {
    /// The address of the pool record.
    pub pool_key: Identity,
    /// The pool that grants the allocation.
    pub pool: Pool,
    /// The slot of the participant's escrow: `None` as long as the
    /// participant has none.
    pub user_account: Option<UserAccount>,
    /// The participant.
    pub user: Identity,
    /// The token account that holds the participant's allocation.
    pub user_token_account: Identity,
    /// The token account that holds the pooled funds.
    pub pool_token_account: Identity,
    /// The bump of the escrow's derived address.
    pub bump: u8,
}

impl CreateUser {
    /// The guard that turns the operation away before any transfer is asked
    /// for, if one does: the participant has an escrow already, or the pool
    /// holds less than one allocation.
    pub open spec fn rejection(&self) -> Option<AicatAirdropError> {
        if self.user_account is Some {
            Some(AicatAirdropError::DuplicateUser)
        } else if self.pool.total_tokens < self.pool.airdrop_amount {
            Some(AicatAirdropError::InsufficientPoolFunds)
        } else {
            None
        }
    }

    /// The transfer that the operation asks for: one allocation, out of the
    /// pool's token account into the participant's, signed for by the pool.
    pub open spec fn requested_transfer(&self) -> Transfer {
        Transfer {
            from: self.pool_token_account,
            to: self.user_token_account,
            authority: self.pool_key,
            amount: self.pool.airdrop_amount,
        }
    }

    /// How the operation ends, given the host's answer to the transfer.
    pub open spec fn verdict(&self, outcome: TransferOutcome) -> Result<(), AicatAirdropError> {
        match self.rejection() {
            Some(e) => Err(e),
            None => if outcome is Failed {
                Err(AicatAirdropError::TransferFailed)
            } else if self.pool.total_users + 1 > u64::MAX {
                Err(AicatAirdropError::ArithmeticOverflow)
            } else {
                Ok(())
            },
        }
    }

    /// The accounts after the operation has gone through: a fresh escrow
    /// with one allocation and both flags down, the pool one allocation
    /// poorer and one participant richer.
    pub open spec fn applied(&self) -> CreateUser {
        CreateUser {
            pool: Pool {
                total_tokens: (self.pool.total_tokens - self.pool.airdrop_amount) as u64,
                total_users: (self.pool.total_users + 1) as u64,
                ..self.pool
            },
            user_account: Some(
                UserAccount {
                    user: self.user,
                    pool: self.pool_key,
                    airdrop_amount: self.pool.airdrop_amount,
                    has_bet: false,
                    can_withdraw: false,
                    bump: self.bump,
                },
            ),
            ..*self
        }
    }

    /// Runs the guards and names the transfer to carry out. Changes nothing.
    pub fn transfer_request(&self) -> (r: Result<Transfer, AicatAirdropError>)
        ensures
            r == (match self.rejection() {
                Some(e) => Err::<Transfer, AicatAirdropError>(e),
                None => Ok(self.requested_transfer()),
            }),
    {
        if self.user_account.is_some() {
            return Err(AicatAirdropError::DuplicateUser);
        }
        if self.pool.total_tokens < self.pool.airdrop_amount {
            return Err(AicatAirdropError::InsufficientPoolFunds);
        }
        Ok(
            Transfer {
                from: self.pool_token_account,
                to: self.user_token_account,
                authority: self.pool_key,
                amount: self.pool.airdrop_amount,
            },
        )
    }
}

/// Creates the participant's escrow and allocates it one airdrop from the
/// pool.
///
/// Fails with `DuplicateUser` if the participant has an escrow already, with
/// `InsufficientPoolFunds` if the pool holds less than one allocation, with
/// `TransferFailed` if the host did not move the tokens, and with
/// `ArithmeticOverflow` if the participant count cannot grow. On failure
/// nothing changes.
pub fn create_user(ctx: &mut CreateUser, outcome: TransferOutcome) -> (r: Result<
    (),
    AicatAirdropError,
>)
    ensures
        r == old(ctx).verdict(outcome),
        r is Ok ==> *final(ctx) == old(ctx).applied(),
        r is Err ==> *final(ctx) == *old(ctx),
{
    if ctx.user_account.is_some() {
        return Err(AicatAirdropError::DuplicateUser);
    }
    if ctx.pool.total_tokens < ctx.pool.airdrop_amount {
        return Err(AicatAirdropError::InsufficientPoolFunds);
    }
    match outcome {
        TransferOutcome::Failed => {
            return Err(AicatAirdropError::TransferFailed);
        },
        TransferOutcome::Completed => {},
    }
    let total_tokens = match ctx.pool.total_tokens.checked_sub(ctx.pool.airdrop_amount) {
        Some(left) => left,
        None => {
            return Err(AicatAirdropError::ArithmeticOverflow);
        },
    };
    let total_users = match ctx.pool.total_users.checked_add(1) {
        Some(count) => count,
        None => {
            return Err(AicatAirdropError::ArithmeticOverflow);
        },
    };
    ctx.user_account = Some(
        UserAccount {
            user: ctx.user,
            pool: ctx.pool_key,
            airdrop_amount: ctx.pool.airdrop_amount,
            has_bet: false,
            can_withdraw: false,
            bump: ctx.bump,
        },
    );
    ctx.pool.total_tokens = total_tokens;
    ctx.pool.total_users = total_users;
    Ok(())
}

/// The accounts of [`mark_user_bet`].
#[derive(Clone, Copy, Debug, PartialEq, Eq)]
pub struct MarkUserBet {
    /// The escrow for which the bet is recorded.
    pub user_account: UserAccount,
    /// The caller.
    pub user: Identity,
}

impl MarkUserBet {
    /// How the operation ends: only the owner of the escrow may record a bet.
    pub open spec fn verdict(&self) -> Result<(), AicatAirdropError> {
        if self.user_account.user != self.user {
            Err(AicatAirdropError::UnauthorizedUser)
        } else {
            Ok(())
        }
    }

    /// The accounts after the operation has gone through: both flags are up,
    /// whatever they were before.
    pub open spec fn applied(&self) -> MarkUserBet {
        MarkUserBet {
            user_account: UserAccount { has_bet: true, can_withdraw: true, ..self.user_account },
            ..*self
        }
    }
}

/// Records that the owner of the escrow has placed a bet, which makes the
/// escrow eligible for withdrawal.
///
/// Fails with `UnauthorizedUser`, and changes nothing, if the caller is not
/// the owner. The state of the escrow is not looked at: on an escrow that has
/// been paid out the flags go up again, over a balance of 0.
pub fn mark_user_bet(ctx: &mut MarkUserBet) -> (r: Result<(), AicatAirdropError>)
    ensures
        r == old(ctx).verdict(),
        r is Ok ==> *final(ctx) == old(ctx).applied(),
        r is Err ==> *final(ctx) == *old(ctx),
{
    if ctx.user_account.user != ctx.user {
        return Err(AicatAirdropError::UnauthorizedUser);
    }
    ctx.user_account.has_bet = true;
    ctx.user_account.can_withdraw = true;
    Ok(())
}

/// The accounts of [`withdraw_airdrop`].
#[derive(Clone, Copy, Debug, PartialEq, Eq)]
pub struct WithdrawAirdrop {
    /// The escrow that is paid out.
    pub user_account: UserAccount,
    /// The caller.
    pub user: Identity,
    /// The token account that holds the participant's allocation.
    pub user_token_account: Identity,
    /// The token account that receives the allocation.
    pub user_wallet: Identity,
}

impl WithdrawAirdrop {
    /// The guard that turns the operation away before any transfer is asked
    /// for, if one does. The caller is checked first, whatever the state of
    /// the escrow, then eligibility, then the bet. On a well-formed escrow
    /// eligibility implies the bet, so the last guard is a second line of
    /// defence.
    pub open spec fn rejection(&self) -> Option<AicatAirdropError> {
        if self.user_account.user != self.user {
            Some(AicatAirdropError::UnauthorizedUser)
        } else if !self.user_account.can_withdraw {
            Some(AicatAirdropError::WithdrawalNotAllowed)
        } else if !self.user_account.has_bet {
            Some(AicatAirdropError::BettingRequired)
        } else {
            None
        }
    }

    /// The transfer that the operation asks for: all that the escrow holds,
    /// out of the participant's holding account into the wallet, signed for
    /// by the participant.
    pub open spec fn requested_transfer(&self) -> Transfer {
        Transfer {
            from: self.user_token_account,
            to: self.user_wallet,
            authority: self.user,
            amount: self.user_account.airdrop_amount,
        }
    }

    /// How the operation ends, given the host's answer to the transfer.
    pub open spec fn verdict(&self, outcome: TransferOutcome) -> Result<(), AicatAirdropError> {
        match self.rejection() {
            Some(e) => Err(e),
            None => if outcome is Failed {
                Err(AicatAirdropError::TransferFailed)
            } else {
                Ok(())
            },
        }
    }

    /// The accounts after the operation has gone through: the escrow is
    /// empty and no longer eligible; the bet stays on record.
    pub open spec fn applied(&self) -> WithdrawAirdrop {
        WithdrawAirdrop {
            user_account: UserAccount {
                airdrop_amount: 0,
                can_withdraw: false,
                ..self.user_account
            },
            ..*self
        }
    }

    /// Runs the guards and names the transfer to carry out. Changes nothing.
    pub fn transfer_request(&self) -> (r: Result<Transfer, AicatAirdropError>)
        ensures
            r == (match self.rejection() {
                Some(e) => Err::<Transfer, AicatAirdropError>(e),
                None => Ok(self.requested_transfer()),
            }),
    {
        if self.user_account.user != self.user {
            return Err(AicatAirdropError::UnauthorizedUser);
        }
        if !self.user_account.can_withdraw {
            return Err(AicatAirdropError::WithdrawalNotAllowed);
        }
        if !self.user_account.has_bet {
            return Err(AicatAirdropError::BettingRequired);
        }
        Ok(
            Transfer {
                from: self.user_token_account,
                to: self.user_wallet,
                authority: self.user,
                amount: self.user_account.airdrop_amount,
            },
        )
    }
}

/// Pays the escrow out to its owner.
///
/// Fails with `UnauthorizedUser` if the caller is not the owner, with
/// `WithdrawalNotAllowed` if the escrow is not eligible, as before the first
/// bet and after a withdrawal, with `BettingRequired` if it is eligible
/// without a bet on record, and with `TransferFailed` if the host did not
/// move the tokens. On failure nothing changes.
pub fn withdraw_airdrop(ctx: &mut WithdrawAirdrop, outcome: TransferOutcome) -> (r: Result<
    (),
    AicatAirdropError,
>)
    ensures
        r == old(ctx).verdict(outcome),
        r is Ok ==> *final(ctx) == old(ctx).applied(),
        r is Err ==> *final(ctx) == *old(ctx),
{
    if ctx.user_account.user != ctx.user {
        return Err(AicatAirdropError::UnauthorizedUser);
    }
    if !ctx.user_account.can_withdraw {
        return Err(AicatAirdropError::WithdrawalNotAllowed);
    }
    if !ctx.user_account.has_bet {
        return Err(AicatAirdropError::BettingRequired);
    }
    match outcome {
        TransferOutcome::Failed => {
            return Err(AicatAirdropError::TransferFailed);
        },
        TransferOutcome::Completed => {},
    }
    ctx.user_account.airdrop_amount = 0;
    ctx.user_account.can_withdraw = false;
    Ok(())
}

/// The path of an escrow: it is created active; a bet that its owner records
/// makes it qualified, whatever it was before; and a withdrawal goes through
/// on a qualified escrow only, and leaves it settled.
pub proof fn lemma_escrow_lifecycle(
    create: CreateUser,
    mark: MarkUserBet,
    withdraw: WithdrawAirdrop,
    outcome: TransferOutcome,
)
    ensures
        create.applied().user_account is Some,
        create.applied().user_account->0.is_active(),
        create.applied().user_account->0.well_formed(),
        mark.applied().user_account.is_qualified(),
        mark.applied().user_account.well_formed(),
        withdraw.verdict(outcome) is Ok ==> withdraw.user_account.is_qualified()
            && withdraw.applied().user_account.is_settled()
            && withdraw.applied().user_account.well_formed(),
{
}

/// Withdrawal gating: a withdrawal goes through if and only if the escrow
/// has a bet on record and is eligible immediately before the call, the
/// caller being its owner and the host having moved the tokens.
pub proof fn lemma_withdrawal_gating(ctx: WithdrawAirdrop, outcome: TransferOutcome)
    ensures
        ctx.verdict(outcome) is Ok <==> ctx.user_account.user == ctx.user
            && ctx.user_account.has_bet && ctx.user_account.can_withdraw && outcome is Completed,
        ctx.rejection() is None <==> ctx.user_account.user == ctx.user && ctx.user_account.has_bet
            && ctx.user_account.can_withdraw,
{
}

/// Single withdrawal: on the escrow that a withdrawal has left behind, the
/// next withdrawal fails, whoever calls and whatever the host answers; for
/// the owner it fails with `WithdrawalNotAllowed`.
pub proof fn lemma_single_withdrawal(
    first: WithdrawAirdrop,
    first_outcome: TransferOutcome,
    second: WithdrawAirdrop,
    second_outcome: TransferOutcome,
)
    requires
        first.verdict(first_outcome) is Ok,
        second.user_account == first.applied().user_account,
    ensures
        second.verdict(second_outcome) is Err,
        second.user == first.user ==> second.verdict(second_outcome) == Err::<
            (),
            AicatAirdropError,
        >(AicatAirdropError::WithdrawalNotAllowed),
        second.user != first.user ==> second.verdict(second_outcome) == Err::<
            (),
            AicatAirdropError,
        >(AicatAirdropError::UnauthorizedUser),
{
}

/// Authorization of participants is absolute: a caller who is not the owner
/// of the escrow can neither record a bet nor withdraw, whatever the state of
/// the escrow and whatever the host answers.
pub proof fn lemma_owner_only(mark: MarkUserBet, withdraw: WithdrawAirdrop, outcome: TransferOutcome)
    ensures
        mark.user != mark.user_account.user ==> mark.verdict() == Err::<(), AicatAirdropError>(
            AicatAirdropError::UnauthorizedUser,
        ),
        withdraw.user != withdraw.user_account.user ==> withdraw.verdict(outcome) == Err::<
            (),
            AicatAirdropError,
        >(AicatAirdropError::UnauthorizedUser) && withdraw.rejection() == Some(
            AicatAirdropError::UnauthorizedUser,
        ),
{
}

/// Underfunded pool: for a participant without an escrow, creation fails
/// with `InsufficientPoolFunds` whenever the pool holds less than one
/// allocation, before any transfer is asked for and whatever the host would
/// answer.
pub proof fn lemma_underfunded_pool(ctx: CreateUser, outcome: TransferOutcome)
    requires
        ctx.user_account is None,
        ctx.pool.total_tokens < ctx.pool.airdrop_amount,
    ensures
        ctx.rejection() == Some(AicatAirdropError::InsufficientPoolFunds),
        ctx.verdict(outcome) == Err::<(), AicatAirdropError>(
            AicatAirdropError::InsufficientPoolFunds,
        ),
{
}

} // verus!
