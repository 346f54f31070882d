//! The reasons for which an operation is turned away.

use vstd::prelude::*;

verus! {

/// Why an operation failed. Every failure aborts the whole operation: no
/// record is changed, nothing is retried, and the error goes to the caller as
/// it is.
#[derive(Clone, Copy, Debug, PartialEq, Eq, Structural, Hash)]
pub enum AicatAirdropError {
    /// The pool holds less than one allocation.
    InsufficientPoolFunds,
    /// The caller is not the owner of the escrow.
    UnauthorizedUser,
    /// The caller is not the admin of the pool.
    UnauthorizedAdmin,
    /// The escrow is not, or no longer, eligible for withdrawal.
    WithdrawalNotAllowed,
    /// No bet has been recorded for the escrow yet.
    BettingRequired,
    /// A balance or a counter would leave the range of `u64`.
    ArithmeticOverflow,
    /// A pool already exists.
    DuplicatePool,
    /// The participant already has an escrow.
    DuplicateUser,
    /// The host could not carry out the transfer that the operation asked for.
    TransferFailed,
}

/// The families into which the errors fall.
#[derive(Clone, Copy, Debug, PartialEq, Eq, Structural, Hash)]
pub enum ErrorKind {
    /// The caller is not the identity that the record names.
    Authorization,
    /// The record is in a state that does not permit the operation.
    State,
    /// A checked addition or subtraction left the range of `u64`.
    Arithmetic,
    /// The record to be created exists already.
    Duplicate,
    /// The host refused the transfer.
    Transfer,
}

impl AicatAirdropError {
    /// The family of this error.
    pub open spec fn kind_of(self) -> ErrorKind {
        match self {
            AicatAirdropError::UnauthorizedUser | AicatAirdropError::UnauthorizedAdmin => {
                ErrorKind::Authorization
            },
            AicatAirdropError::InsufficientPoolFunds
            | AicatAirdropError::WithdrawalNotAllowed
            | AicatAirdropError::BettingRequired => ErrorKind::State,
            AicatAirdropError::ArithmeticOverflow => ErrorKind::Arithmetic,
            AicatAirdropError::DuplicatePool | AicatAirdropError::DuplicateUser => {
                ErrorKind::Duplicate
            },
            AicatAirdropError::TransferFailed => ErrorKind::Transfer,
        }
    }

    /// The text shown for this error.
    pub open spec fn message_of(self) -> Seq<char> {
        match self {
            AicatAirdropError::InsufficientPoolFunds => "Insufficient funds in pool"@,
            AicatAirdropError::UnauthorizedUser => "Unauthorized user"@,
            AicatAirdropError::UnauthorizedAdmin => "Unauthorized admin"@,
            AicatAirdropError::WithdrawalNotAllowed => "Withdrawal not allowed"@,
            AicatAirdropError::BettingRequired => "Betting required before withdrawal"@,
            AicatAirdropError::ArithmeticOverflow => "Arithmetic overflow"@,
            AicatAirdropError::DuplicatePool => "Pool already exists"@,
            AicatAirdropError::DuplicateUser => "User already exists"@,
            AicatAirdropError::TransferFailed => "Token transfer failed"@,
        }
    }

    /// The family of this error.
    pub fn kind(&self) -> (kind: ErrorKind)
        ensures
            kind == self.kind_of(),
    {
        match self {
            AicatAirdropError::UnauthorizedUser => ErrorKind::Authorization,
            AicatAirdropError::UnauthorizedAdmin => ErrorKind::Authorization,
            AicatAirdropError::InsufficientPoolFunds => ErrorKind::State,
            AicatAirdropError::WithdrawalNotAllowed => ErrorKind::State,
            AicatAirdropError::BettingRequired => ErrorKind::State,
            AicatAirdropError::ArithmeticOverflow => ErrorKind::Arithmetic,
            AicatAirdropError::DuplicatePool => ErrorKind::Duplicate,
            AicatAirdropError::DuplicateUser => ErrorKind::Duplicate,
            AicatAirdropError::TransferFailed => ErrorKind::Transfer,
        }
    }

    /// The text shown for this error.
    pub fn message(&self) -> (text: &'static str)
        ensures
            text@ == self.message_of(),
    {
        match self {
            AicatAirdropError::InsufficientPoolFunds => "Insufficient funds in pool",
            AicatAirdropError::UnauthorizedUser => "Unauthorized user",
            AicatAirdropError::UnauthorizedAdmin => "Unauthorized admin",
            AicatAirdropError::WithdrawalNotAllowed => "Withdrawal not allowed",
            AicatAirdropError::BettingRequired => "Betting required before withdrawal",
            AicatAirdropError::ArithmeticOverflow => "Arithmetic overflow",
            AicatAirdropError::DuplicatePool => "Pool already exists",
            AicatAirdropError::DuplicateUser => "User already exists",
            AicatAirdropError::TransferFailed => "Token transfer failed",
        }
    }
}

} // verus!
