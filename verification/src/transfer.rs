//! What the library asks of the host's transfer facility, and what it hears back.

use vstd::prelude::*;
use crate::identity::Identity;

verus! {

/// A request to move `amount` tokens from one token account to another, on
/// the word of `authority`. The host carries it out in one piece with the
/// record changes of the operation that asked for it, or not at all.
#[derive(Clone, Copy, Debug, PartialEq, Eq)]
pub struct Transfer {
    /// The token account that is debited.
    pub from: Identity,
    /// The token account that is credited.
    pub to: Identity,
    /// The identity that signs for the debit.
    pub authority: Identity,
    /// How many tokens move.
    pub amount: u64,
}

/// The host's answer to a [`Transfer`].
#[derive(Clone, Copy, Debug, PartialEq, Eq, Structural, Hash)]
pub enum TransferOutcome {
    /// The tokens have moved.
    Completed,
    /// Nothing has moved.
    Failed,
}

} // verus!
