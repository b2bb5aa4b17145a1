use curve_pool::errors::CustomError;
use curve_pool::instructions::create_short_pool;
use curve_pool::short_pool::{ShortPool, UserBorrow};
use curve_pool::transfer::PoolTransfer;

const CREATOR: [u8; 32] = [4u8; 32];
const MINT: [u8; 32] = [5u8; 32];
const USER: [u8; 32] = [6u8; 32];

fn funded_short_pool() -> ShortPool {
    let (pool, _) = create_short_pool(CREATOR, MINT, 201, 99);
    pool
}

#[test]
fn short_pool_constants() {
    assert_eq!(ShortPool::ACCOUNT_SIZE, 105);
    assert_eq!(ShortPool::POOL_SEED_PREFIX, "shorting_pool");
    assert_eq!(ShortPool::SOL_VAULT_PREFIX, "shorting_pool_sol_vault");
}

#[test]
fn new_short_pool_is_empty() {
    let pool = ShortPool::new(CREATOR, MINT, 3, 4);
    assert_eq!(pool.creator, CREATOR);
    assert_eq!(pool.token, MINT);
    assert_eq!(pool.total_supply, 0);
    assert_eq!(pool.reserve_token, 0);
    assert_eq!(pool.reserve_sol, 0);
    assert_eq!(pool.bump, 3);
    assert_eq!(pool.created_at, 4);
}

#[test]
fn short_pool_add_and_update() {
    let mut pool = ShortPool::new(CREATOR, MINT, 3, 4);
    let transfers = pool.add_liquidity(10);
    assert_eq!(transfers, vec![PoolTransfer::TokenToPool { amount: 10 }]);
    assert_eq!(pool.total_supply, 800_000_000_000_000_000);
    assert_eq!(pool.reserve_token, 10);
    assert_eq!(pool.reserve_sol, 60_000_000_000);
    pool.update_reserves(1, 2);
    assert_eq!(pool.reserve_token, 1);
    assert_eq!(pool.reserve_sol, 2);
}

#[test]
fn short_pool_remove_liquidity() {
    let pool = funded_short_pool();
    assert_eq!(
        pool.remove_liquidity(5, 6, 7),
        vec![
            PoolTransfer::TokenFromPool { amount: 5 },
            PoolTransfer::SolFromPool { amount: 6, bump: 7 },
        ]
    );
}

#[test]
fn borrow_lends_tokens_against_collateral() {
    let mut pool = funded_short_pool();
    let transfers = pool.borrow(1_000_000, 3_000, USER).unwrap();
    assert_eq!(
        transfers,
        vec![
            PoolTransfer::SolToPool { amount: 3_000 },
            PoolTransfer::TokenFromPool { amount: 1_000_000 },
        ]
    );
    assert_eq!(pool.reserve_token, 88_000_000_000_000_000 - 1_000_000);
    assert_eq!(pool.reserve_sol, 60_000_003_000);
    assert_eq!(pool.total_supply, 800_000_000_000_000_000);
}

#[test]
fn borrow_refusals() {
    let mut pool = ShortPool::new(CREATOR, MINT, 3, 4);
    pool.update_reserves(10, 20);
    assert_eq!(pool.borrow(0, 5, USER), Err(CustomError::InvalidAmount));
    assert_eq!(pool.borrow(11, 5, USER), Err(CustomError::NotEnoughTokenInVault));
    assert_eq!(pool.reserve_token, 10);
    assert_eq!(pool.reserve_sol, 20);
    assert!(pool.borrow(10, 5, USER).is_ok());
    assert_eq!(pool.reserve_token, 0);
    assert_eq!(pool.reserve_sol, 25);
}

#[test]
fn refund_changes_nothing() {
    let mut pool = funded_short_pool();
    pool.borrow(100, 1, USER).unwrap();
    let transfers = pool.refund(8, USER);
    assert!(transfers.is_empty());
    assert_eq!(pool.reserve_token, 88_000_000_000_000_000 - 100);
    assert_eq!(pool.reserve_sol, 60_000_000_001);
}

#[test]
fn short_pool_seeds() {
    let pool = funded_short_pool();
    let seeds = pool.pool_signer_seeds();
    assert_eq!(seeds, vec![b"shorting_pool".to_vec(), MINT.to_vec(), vec![201u8]]);
    let vault = pool.sol_vault_signer_seeds(9);
    assert_eq!(vault, vec![b"shorting_pool_sol_vault".to_vec(), MINT.to_vec(), vec![9u8]]);
}

#[test]
fn user_borrow_holds_a_loan() {
    let loan = UserBorrow { user: USER, token_amount: 5, sol_collateral: 6 };
    assert_eq!(loan.user, USER);
    assert_eq!(loan.token_amount, 5);
    assert_eq!(loan.sol_collateral, 6);
}

#[test]
fn borrow_refusal_does_not_depend_on_the_collateral() {
    let mut pool = ShortPool::new(CREATOR, MINT, 3, 4);
    pool.update_reserves(10, 20);
    for collateral in [0u64, 7, u64::MAX] {
        assert_eq!(pool.borrow(0, collateral, USER), Err(CustomError::InvalidAmount));
        assert_eq!(pool.borrow(11, collateral, USER), Err(CustomError::NotEnoughTokenInVault));
    }
    assert_eq!(pool.reserve_token, 10);
    assert_eq!(pool.reserve_sol, 20);
}
