use aicat_airdrop::{
    create_user, initialize_pool, mark_user_bet, refill_pool, update_airdrop_amount,
    withdraw_airdrop, AicatAirdropError, CreateUser, Identity, InitializePool, MarkUserBet, Pool,
    RefillPool, Transfer, TransferOutcome, UpdateAirdropAmount, UserAccount, WithdrawAirdrop,
};

fn id(tag: u8) -> Identity {
    Identity::new([tag; 32])
}

const ADMIN: u8 = 1;
const MINT: u8 = 2;
const POOL_KEY: u8 = 3;
const POOL_TOKENS: u8 = 4;
const ADMIN_TOKENS: u8 = 5;
const USER_A: u8 = 10;
const USER_A_TOKENS: u8 = 11;
const USER_A_WALLET: u8 = 12;
const USER_B: u8 = 20;
const USER_B_TOKENS: u8 = 21;

fn fresh_pool(initial_amount: u64, airdrop_amount: u64) -> Pool {
    let mut ctx = InitializePool {
        pool: None,
        admin: id(ADMIN),
        airdrop_token_mint: id(MINT),
        pool_token_account: id(POOL_TOKENS),
        admin_token_account: id(ADMIN_TOKENS),
        bump: 254,
    };
    initialize_pool(&mut ctx, initial_amount, airdrop_amount, TransferOutcome::Completed).unwrap();
    ctx.pool.unwrap()
}

fn user_a_accounts(pool: Pool, user_account: Option<UserAccount>) -> CreateUser {
    CreateUser {
        pool_key: id(POOL_KEY),
        pool,
        user_account,
        user: id(USER_A),
        user_token_account: id(USER_A_TOKENS),
        pool_token_account: id(POOL_TOKENS),
        bump: 253,
    }
}

fn escrow_of_user_a(pool: Pool) -> (Pool, UserAccount) {
    let mut ctx = user_a_accounts(pool, None);
    create_user(&mut ctx, TransferOutcome::Completed).unwrap();
    (ctx.pool, ctx.user_account.unwrap())
}

fn withdrawal_by(caller: u8, user_account: UserAccount) -> WithdrawAirdrop {
    WithdrawAirdrop {
        user_account,
        user: id(caller),
        user_token_account: id(USER_A_TOKENS),
        user_wallet: id(USER_A_WALLET),
    }
}

fn holdings(pool: &Pool, escrows: &Vec<UserAccount>, withdrawn: u128) -> u128 {
    let mut escrowed: u128 = 0;
    for escrow in escrows {
        escrowed += escrow.airdrop_amount as u128;
    }
    pool.total_tokens as u128 + escrowed + withdrawn
}

#[test]
fn initialize_sets_balance_and_no_users() {
    let mut ctx = InitializePool {
        pool: None,
        admin: id(ADMIN),
        airdrop_token_mint: id(MINT),
        pool_token_account: id(POOL_TOKENS),
        admin_token_account: id(ADMIN_TOKENS),
        bump: 254,
    };
    let request = ctx.transfer_request(1000);
    assert_eq!(
        request,
        Ok(Transfer {
            from: id(ADMIN_TOKENS),
            to: id(POOL_TOKENS),
            authority: id(ADMIN),
            amount: 1000,
        })
    );
    assert_eq!(initialize_pool(&mut ctx, 1000, 100, TransferOutcome::Completed), Ok(()));
    let pool = ctx.pool.unwrap();
    assert_eq!(pool.total_tokens, 1000);
    assert_eq!(pool.total_users, 0);
    assert_eq!(pool.airdrop_amount, 100);
    assert_eq!(pool.admin, id(ADMIN));
    assert_eq!(pool.airdrop_token_mint, id(MINT));
    assert_eq!(pool.pool_token_account, id(POOL_TOKENS));
    assert_eq!(pool.bump, 254);
}

#[test]
fn create_user_allocates_one_airdrop() {
    let pool = fresh_pool(1000, 100);
    let mut ctx = user_a_accounts(pool, None);
    assert_eq!(
        ctx.transfer_request(),
        Ok(Transfer {
            from: id(POOL_TOKENS),
            to: id(USER_A_TOKENS),
            authority: id(POOL_KEY),
            amount: 100,
        })
    );
    assert_eq!(create_user(&mut ctx, TransferOutcome::Completed), Ok(()));
    let escrow = ctx.user_account.unwrap();
    assert_eq!(escrow.airdrop_amount, 100);
    assert!(!escrow.has_bet);
    assert!(!escrow.can_withdraw);
    assert_eq!(escrow.user, id(USER_A));
    assert_eq!(escrow.pool, id(POOL_KEY));
    assert_eq!(escrow.bump, 253);
    assert_eq!(ctx.pool.total_tokens, 900);
    assert_eq!(ctx.pool.total_users, 1);
    assert_eq!(ctx.pool.airdrop_amount, 100);
}

#[test]
fn withdraw_before_any_bet_fails_and_changes_nothing() {
    let (_, escrow) = escrow_of_user_a(fresh_pool(1000, 100));
    let mut ctx = withdrawal_by(USER_A, escrow);
    let before = ctx;
    assert_eq!(ctx.transfer_request(), Err(AicatAirdropError::WithdrawalNotAllowed));
    assert_eq!(
        withdraw_airdrop(&mut ctx, TransferOutcome::Completed),
        Err(AicatAirdropError::WithdrawalNotAllowed)
    );
    assert_eq!(ctx, before);
    assert_eq!(ctx.user_account.airdrop_amount, 100);
}

#[test]
fn bet_then_withdraw_pays_out_once() {
    let (_, escrow) = escrow_of_user_a(fresh_pool(1000, 100));

    let mut mark = MarkUserBet { user_account: escrow, user: id(USER_A) };
    assert_eq!(mark_user_bet(&mut mark), Ok(()));
    assert!(mark.user_account.has_bet);
    assert!(mark.user_account.can_withdraw);
    assert_eq!(mark.user_account.airdrop_amount, 100);

    let mut ctx = withdrawal_by(USER_A, mark.user_account);
    assert_eq!(
        ctx.transfer_request(),
        Ok(Transfer {
            from: id(USER_A_TOKENS),
            to: id(USER_A_WALLET),
            authority: id(USER_A),
            amount: 100,
        })
    );
    assert_eq!(withdraw_airdrop(&mut ctx, TransferOutcome::Completed), Ok(()));
    assert_eq!(ctx.user_account.airdrop_amount, 0);
    assert!(!ctx.user_account.can_withdraw);
    assert!(ctx.user_account.has_bet);
    assert_eq!(ctx.user_account.user, id(USER_A));
}

#[test]
fn second_withdraw_is_not_allowed() {
    let (_, escrow) = escrow_of_user_a(fresh_pool(1000, 100));
    let mut mark = MarkUserBet { user_account: escrow, user: id(USER_A) };
    mark_user_bet(&mut mark).unwrap();
    let mut ctx = withdrawal_by(USER_A, mark.user_account);
    withdraw_airdrop(&mut ctx, TransferOutcome::Completed).unwrap();

    let settled = ctx;
    assert_eq!(ctx.transfer_request(), Err(AicatAirdropError::WithdrawalNotAllowed));
    assert_eq!(
        withdraw_airdrop(&mut ctx, TransferOutcome::Completed),
        Err(AicatAirdropError::WithdrawalNotAllowed)
    );
    assert_eq!(
        withdraw_airdrop(&mut ctx, TransferOutcome::Failed),
        Err(AicatAirdropError::WithdrawalNotAllowed)
    );
    assert_eq!(ctx, settled);
}

#[test]
fn underfunded_pool_rejects_new_user() {
    let mut pool = fresh_pool(1000, 100);
    pool.total_tokens = 50;
    let mut ctx = CreateUser {
        pool_key: id(POOL_KEY),
        pool,
        user_account: None,
        user: id(USER_B),
        user_token_account: id(USER_B_TOKENS),
        pool_token_account: id(POOL_TOKENS),
        bump: 250,
    };
    let before = ctx;
    assert_eq!(ctx.transfer_request(), Err(AicatAirdropError::InsufficientPoolFunds));
    assert_eq!(
        create_user(&mut ctx, TransferOutcome::Completed),
        Err(AicatAirdropError::InsufficientPoolFunds)
    );
    assert_eq!(ctx, before);
    assert_eq!(ctx.pool.total_tokens, 50);
    assert_eq!(ctx.pool.total_users, 0);
    assert_eq!(ctx.user_account, None);
}

#[test]
fn whole_run_conserves_tokens() {
    // What came in, what is in the pool, in the escrows and in the wallets.
    let mut funded: u128 = 0;
    let mut withdrawn: u128 = 0;
    let mut escrows: Vec<UserAccount> = Vec::new();

    let mut pool = fresh_pool(1000, 100);
    funded += 1000;
    assert_eq!(holdings(&pool, &escrows, withdrawn), funded);

    // Two participants join.
    for user in [USER_A, USER_B] {
        let mut ctx = CreateUser {
            pool_key: id(POOL_KEY),
            pool,
            user_account: None,
            user: id(user),
            user_token_account: id(user + 1),
            pool_token_account: id(POOL_TOKENS),
            bump: 200,
        };
        create_user(&mut ctx, TransferOutcome::Completed).unwrap();
        pool = ctx.pool;
        escrows.push(ctx.user_account.unwrap());
        assert_eq!(holdings(&pool, &escrows, withdrawn), funded);
    }
    assert_eq!(pool.total_tokens, 800);
    assert_eq!(pool.total_users, 2);

    // The allocation changes, then the pool is refilled.
    let mut update = UpdateAirdropAmount { pool, admin: id(ADMIN) };
    update_airdrop_amount(&mut update, 250).unwrap();
    pool = update.pool;
    assert_eq!(holdings(&pool, &escrows, withdrawn), funded);

    let mut refill = RefillPool {
        pool,
        admin: id(ADMIN),
        admin_token_account: id(ADMIN_TOKENS),
        pool_token_account: id(POOL_TOKENS),
    };
    refill_pool(&mut refill, 500, TransferOutcome::Completed).unwrap();
    pool = refill.pool;
    funded += 500;
    assert_eq!(pool.total_tokens, 1300);
    assert_eq!(holdings(&pool, &escrows, withdrawn), funded);

    // A failed refill and a failed creation change nothing.
    let mut refill = RefillPool {
        pool,
        admin: id(ADMIN),
        admin_token_account: id(ADMIN_TOKENS),
        pool_token_account: id(POOL_TOKENS),
    };
    assert_eq!(
        refill_pool(&mut refill, 9, TransferOutcome::Failed),
        Err(AicatAirdropError::TransferFailed)
    );
    assert_eq!(refill.pool, pool);
    assert_eq!(holdings(&pool, &escrows, withdrawn), funded);

    // The first participant bets and withdraws.
    let mut mark = MarkUserBet { user_account: escrows[0], user: id(USER_A) };
    mark_user_bet(&mut mark).unwrap();
    escrows[0] = mark.user_account;
    assert_eq!(holdings(&pool, &escrows, withdrawn), funded);

    let mut ctx = withdrawal_by(USER_A, escrows[0]);
    let request = ctx.transfer_request().unwrap();
    withdraw_airdrop(&mut ctx, TransferOutcome::Completed).unwrap();
    withdrawn += request.amount as u128;
    escrows[0] = ctx.user_account;
    assert_eq!(withdrawn, 100);
    assert_eq!(holdings(&pool, &escrows, withdrawn), funded);

    // A third participant joins at the new allocation.
    let mut ctx = CreateUser {
        pool_key: id(POOL_KEY),
        pool,
        user_account: None,
        user: id(30),
        user_token_account: id(31),
        pool_token_account: id(POOL_TOKENS),
        bump: 199,
    };
    create_user(&mut ctx, TransferOutcome::Completed).unwrap();
    pool = ctx.pool;
    escrows.push(ctx.user_account.unwrap());
    assert_eq!(escrows[2].airdrop_amount, 250);
    assert_eq!(pool.total_tokens, 1050);
    assert_eq!(pool.total_users, 3);
    assert_eq!(pool.total_users as usize, escrows.len());
    assert_eq!(holdings(&pool, &escrows, withdrawn), funded);
    assert_eq!(funded, 1500);
}
