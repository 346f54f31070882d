//! The books of a whole deployment, as a model: the pool, every escrow, and
//! the running totals of the tokens that the host has moved. The operations
//! of this library act on them one at a time, and the laws below hold after
//! any number of them.

use vstd::prelude::*;
use crate::escrow_lifecycle::{CreateUser, MarkUserBet, WithdrawAirdrop};
use crate::identity::Identity;
use crate::pool_ledger::{InitializePool, RefillPool, UpdateAirdropAmount};
use crate::state::{Pool, UserAccount};
use crate::transfer::TransferOutcome;

verus! {

/// All records of a deployment, and what has flowed in and out so far.
pub struct Books {
    /// The pool, once it has been created.
    pub pool: Option<Pool>,
    /// The escrows, in the order of their creation.
    pub escrows: Seq<UserAccount>,
    /// Tokens moved into the pool: the initial funds and every refill.
    pub funded: nat,
    /// Tokens moved out of the pool into escrows.
    pub allocated: nat,
    /// Tokens moved out of escrows into wallets.
    pub withdrawn: nat,
}

/// One call of an operation, as the host receives it. The accounts are those
/// that the caller presents; the records among them are taken from the books,
/// whatever the caller has put in their place.
#[allow(inconsistent_fields)]
pub enum Operation {
    /// A call of `initialize_pool`.
    InitializePool {
        accounts: InitializePool,
        initial_amount: u64,
        airdrop_amount: u64,
        outcome: TransferOutcome,
    },
    /// A call of `create_user`. The slot of the escrow is empty unless the
    /// participant has one on the books.
    CreateUser { accounts: CreateUser, outcome: TransferOutcome },
    /// A call of `mark_user_bet` on the escrow at position `slot` of the books.
    MarkUserBet { slot: int, accounts: MarkUserBet },
    /// A call of `withdraw_airdrop` on the escrow at position `slot` of the
    /// books.
    WithdrawAirdrop { slot: int, accounts: WithdrawAirdrop, outcome: TransferOutcome },
    /// A call of `refill_pool`.
    RefillPool { accounts: RefillPool, amount: u64, outcome: TransferOutcome },
    /// A call of `update_airdrop_amount`.
    UpdateAirdropAmount { accounts: UpdateAirdropAmount, new_amount: u64 },
}

/// The tokens that the escrows hold together.
pub open spec fn escrowed(escrows: Seq<UserAccount>) -> nat
    decreases escrows.len(),
{
    if escrows.len() == 0 {
        0
    } else {
        escrowed(escrows.drop_last()) + escrows.last().airdrop_amount as nat
    }
}

impl Books {
    /// The books of a deployment on which nothing has happened yet.
    pub open spec fn empty() -> Books {
        Books { pool: None, escrows: Seq::empty(), funded: 0, allocated: 0, withdrawn: 0 }
    }

    /// The pool's balance, 0 as long as there is no pool.
    pub open spec fn pool_balance(self) -> nat {
        match self.pool {
            Some(pool) => pool.total_tokens as nat,
            None => 0,
        }
    }

    /// Whether `user` has an escrow.
    pub open spec fn has_escrow(self, user: Identity) -> bool {
        exists|i: int| 0 <= i < self.escrows.len() && (#[trigger] self.escrows[i]).user == user
    }

    /// The slot that the store presents for the escrow of `user`: the escrow,
    /// if the participant has one.
    pub open spec fn escrow_slot(self, user: Identity) -> Option<UserAccount> {
        if self.has_escrow(user) {
            Some(
                self.escrows[choose|i: int|
                    0 <= i < self.escrows.len() && (#[trigger] self.escrows[i]).user == user],
            )
        } else {
            None
        }
    }

    /// The books after one call. A call that fails, or that names a record
    /// which does not exist, leaves them as they are.
    pub open spec fn step(self, op: Operation) -> Books {
        match op {
            Operation::InitializePool { accounts, initial_amount, airdrop_amount, outcome } => {
                let ctx = InitializePool { pool: self.pool, ..accounts };
                if ctx.verdict(outcome) is Ok {
                    Books {
                        pool: ctx.applied(initial_amount, airdrop_amount).pool,
                        funded: self.funded + ctx.requested_transfer(initial_amount).amount as nat,
                        ..self
                    }
                } else {
                    self
                }
            },
            Operation::CreateUser { accounts, outcome } => {
                if self.pool is Some {
                    let ctx = CreateUser {
                        pool: self.pool->0,
                        user_account: self.escrow_slot(accounts.user),
                        ..accounts
                    };
                    if ctx.verdict(outcome) is Ok {
                        Books {
                            pool: Some(ctx.applied().pool),
                            escrows: self.escrows.push(ctx.applied().user_account->0),
                            allocated: self.allocated + ctx.requested_transfer().amount as nat,
                            ..self
                        }
                    } else {
                        self
                    }
                } else {
                    self
                }
            },
            Operation::MarkUserBet { slot, accounts } => {
                if 0 <= slot < self.escrows.len() {
                    let ctx = MarkUserBet { user_account: self.escrows[slot], ..accounts };
                    if ctx.verdict() is Ok {
                        Books {
                            escrows: self.escrows.update(slot, ctx.applied().user_account),
                            ..self
                        }
                    } else {
                        self
                    }
                } else {
                    self
                }
            },
            Operation::WithdrawAirdrop { slot, accounts, outcome } => {
                if 0 <= slot < self.escrows.len() {
                    let ctx = WithdrawAirdrop { user_account: self.escrows[slot], ..accounts };
                    if ctx.verdict(outcome) is Ok {
                        Books {
                            escrows: self.escrows.update(slot, ctx.applied().user_account),
                            withdrawn: self.withdrawn + ctx.requested_transfer().amount as nat,
                            ..self
                        }
                    } else {
                        self
                    }
                } else {
                    self
                }
            },
            Operation::RefillPool { accounts, amount, outcome } => {
                if self.pool is Some {
                    let ctx = RefillPool { pool: self.pool->0, ..accounts };
                    if ctx.verdict(amount, outcome) is Ok {
                        Books {
                            pool: Some(ctx.applied(amount).pool),
                            funded: self.funded + ctx.requested_transfer(amount).amount as nat,
                            ..self
                        }
                    } else {
                        self
                    }
                } else {
                    self
                }
            },
            Operation::UpdateAirdropAmount { accounts, new_amount } => {
                if self.pool is Some {
                    let ctx = UpdateAirdropAmount { pool: self.pool->0, ..accounts };
                    if ctx.verdict() is Ok {
                        Books { pool: Some(ctx.applied(new_amount).pool), ..self }
                    } else {
                        self
                    }
                } else {
                    self
                }
            },
        }
    }

    /// The books after a sequence of calls on a fresh deployment.
    pub open spec fn run(ops: Seq<Operation>) -> Books
        decreases ops.len(),
    {
        if ops.len() == 0 {
            Books::empty()
        } else {
            Books::run(ops.drop_last()).step(ops.last())
        }
    }

    /// What holds of the books at all times.
    ///
    /// Without a pool nothing is on record. With a pool, its balance is what
    /// came in less what went to escrows, the escrows hold what they were
    /// given less what was paid out, and the participant count is the number
    /// of escrows: none of the three has ever wrapped around. Every escrow is
    /// well formed, and no participant has two.
    pub open spec fn consistent(self) -> bool {
        &&& match self.pool {
            None => {
                &&& self.escrows.len() == 0
                &&& self.funded == 0
                &&& self.allocated == 0
                &&& self.withdrawn == 0
            },
            Some(pool) => {
                &&& pool.total_tokens + self.allocated == self.funded
                &&& escrowed(self.escrows) + self.withdrawn == self.allocated
                &&& pool.total_users == self.escrows.len()
            },
        }
        &&& forall|i: int| 0 <= i < self.escrows.len() ==> (#[trigger] self.escrows[i]).well_formed()
        &&& forall|i: int, j: int|
            0 <= i < j < self.escrows.len() ==> (#[trigger] self.escrows[i]).user != (
            #[trigger] self.escrows[j]).user
    }
}

/// A new escrow adds what it holds to the total.
proof fn lemma_escrowed_push(escrows: Seq<UserAccount>, escrow: UserAccount)
    ensures
        escrowed(escrows.push(escrow)) == escrowed(escrows) + escrow.airdrop_amount,
{
    assert(escrows.push(escrow).drop_last() =~= escrows);
}

/// Replacing one escrow changes the total by the difference of the two.
proof fn lemma_escrowed_update(escrows: Seq<UserAccount>, slot: int, escrow: UserAccount)
    requires
        0 <= slot < escrows.len(),
    ensures
        escrowed(escrows.update(slot, escrow)) + escrows[slot].airdrop_amount == escrowed(escrows)
            + escrow.airdrop_amount,
    decreases escrows.len(),
{
    let updated = escrows.update(slot, escrow);
    if slot == escrows.len() - 1 {
        assert(updated.drop_last() =~= escrows.drop_last());
    } else {
        lemma_escrowed_update(escrows.drop_last(), slot, escrow);
        assert(updated.drop_last() =~= escrows.drop_last().update(slot, escrow));
    }
}

impl Books {
    /// No call breaks the consistency of the books.
    pub proof fn lemma_step_consistent(self, op: Operation)
        requires
            self.consistent(),
        ensures
            self.step(op).consistent(),
    {
        match op {
            Operation::CreateUser { accounts, outcome } => {
                if self.pool is Some {
                    let ctx = CreateUser {
                        pool: self.pool->0,
                        user_account: self.escrow_slot(accounts.user),
                        ..accounts
                    };
                    lemma_escrowed_push(self.escrows, ctx.applied().user_account->0);
                }
            },
            Operation::MarkUserBet { slot, accounts } => {
                if 0 <= slot < self.escrows.len() {
                    let ctx = MarkUserBet { user_account: self.escrows[slot], ..accounts };
                    lemma_escrowed_update(self.escrows, slot, ctx.applied().user_account);
                }
            },
            Operation::WithdrawAirdrop { slot, accounts, outcome } => {
                if 0 <= slot < self.escrows.len() {
                    let ctx = WithdrawAirdrop { user_account: self.escrows[slot], ..accounts };
                    lemma_escrowed_update(self.escrows, slot, ctx.applied().user_account);
                }
            },
            _ => {},
        }
    }

    /// The books are consistent after any sequence of calls on a fresh
    /// deployment: the balance of the pool, the participant count and what
    /// the escrows hold are at all times the exact sums and differences of
    /// what has happened, none of them having left the range of `u64`.
    pub proof fn lemma_run_consistent(ops: Seq<Operation>)
        ensures
            Books::run(ops).consistent(),
        decreases ops.len(),
    {
        if ops.len() > 0 {
            Books::lemma_run_consistent(ops.drop_last());
            Books::run(ops.drop_last()).lemma_step_consistent(ops.last());
        }
    }

    /// Conservation: at all times the tokens in the pool, in the escrows and
    /// in the wallets they were paid out to add up to the tokens that were
    /// put in, by the initial funding and by the refills.
    pub proof fn lemma_conservation(ops: Seq<Operation>)
        ensures
            Books::run(ops).pool_balance() + escrowed(Books::run(ops).escrows) + Books::run(
                ops,
            ).withdrawn == Books::run(ops).funded,
    {
        Books::lemma_run_consistent(ops);
    }

    /// Nothing on record is ever lost: a call neither destroys the pool nor
    /// an escrow, changes neither the admin of the pool nor the owner of an
    /// escrow, never takes a recorded bet back, and the participant count
    /// and the running totals only grow.
    pub proof fn lemma_step_keeps_records(self, op: Operation)
        ensures
            self.pool is Some ==> self.step(op).pool is Some,
            self.pool is Some ==> self.step(op).pool->0.admin == self.pool->0.admin,
            self.pool is Some ==> self.step(op).pool->0.total_users >= self.pool->0.total_users,
            self.step(op).escrows.len() >= self.escrows.len(),
            forall|i: int|
                0 <= i < self.escrows.len() ==> (#[trigger] self.step(op).escrows[i]).user
                    == self.escrows[i].user,
            forall|i: int|
                0 <= i < self.escrows.len() && self.escrows[i].has_bet ==> (
                #[trigger] self.step(op).escrows[i]).has_bet,
            self.step(op).funded >= self.funded,
            self.step(op).allocated >= self.allocated,
            self.step(op).withdrawn >= self.withdrawn,
    {
    }

    /// An escrow changes in two ways only: a bet that its owner records makes
    /// it qualified and leaves its balance alone, and a withdrawal takes it
    /// from qualified to settled. Nothing takes it back to active.
    pub proof fn lemma_step_moves_escrows_forward(self, op: Operation, slot: int)
        requires
            0 <= slot < self.escrows.len(),
        ensures
            self.step(op).escrows[slot] != self.escrows[slot] ==> ({
                ||| {
                    &&& op matches Operation::MarkUserBet { slot: marked, accounts }
                    &&& marked == slot
                    &&& accounts.user == self.escrows[slot].user
                    &&& self.step(op).escrows[slot].is_qualified()
                    &&& self.step(op).escrows[slot].airdrop_amount
                        == self.escrows[slot].airdrop_amount
                }
                ||| {
                    &&& op matches Operation::WithdrawAirdrop { slot: paid, accounts, outcome }
                    &&& paid == slot
                    &&& accounts.user == self.escrows[slot].user
                    &&& outcome is Completed
                    &&& self.escrows[slot].is_qualified()
                    &&& self.step(op).escrows[slot].is_settled()
                }
            }),
            !self.escrows[slot].is_active() ==> !self.step(op).escrows[slot].is_active(),
    {
    }

    /// On an underfunded pool the creation of an escrow changes nothing: no
    /// escrow appears and neither the balance nor the participant count is
    /// touched.
    pub proof fn lemma_underfunded_changes_nothing(
        self,
        accounts: CreateUser,
        outcome: TransferOutcome,
    )
        requires
            self.pool is Some,
            self.pool->0.total_tokens < self.pool->0.airdrop_amount,
        ensures
            self.step((Operation::CreateUser { accounts, outcome })) == self,
    {
    }
}

} // verus!
