//! Pool and escrow accounting for a custodial token airdrop.
//!
//! A shared pool grants every registered participant a fixed allocation, held
//! in an escrow record, and releases it once a bet has been recorded for the
//! participant. The value transfers themselves are carried out by the host;
//! this library decides who may do what, which transfer an operation asks
//! for, and how the records change once the host has answered.

pub mod accounting;
pub mod errors;
pub mod escrow_lifecycle;
pub mod identity;
pub mod pool_ledger;
pub mod state;
pub mod transfer;

pub use errors::{AicatAirdropError, ErrorKind};
pub use escrow_lifecycle::{
    create_user, mark_user_bet, withdraw_airdrop, CreateUser, MarkUserBet, WithdrawAirdrop,
};
pub use identity::Identity;
pub use pool_ledger::{
    initialize_pool, refill_pool, update_airdrop_amount, InitializePool, RefillPool,
    UpdateAirdropAmount,
};
pub use state::{Pool, UserAccount};
pub use transfer::{Transfer, TransferOutcome};
