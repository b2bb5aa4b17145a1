use curve_pool::consts::{
    INITIAL_LAMPORTS_FOR_POOL, INITIAL_PRICE_DIVIDER, LIQUIDITY_POOL_INITIAL_TOKENS,
    POOL_TOTAL_SUPPLY, SHORT_POOL_INITIAL_TOKENS, TOKEN_SELL_LIMIT_PERCENT,
};
use curve_pool::errors::CustomError;
use curve_pool::instructions::{create_pool, create_short_pool};
use curve_pool::pool::{BuyEvent, LiquidityPool};
use curve_pool::registry::{LiquidityProvider, PoolRegistry, PoolToken};
use curve_pool::transfer::PoolTransfer;

const CREATOR: [u8; 32] = [1u8; 32];
const MINT: [u8; 32] = [2u8; 32];
const ADDRESS: [u8; 32] = [3u8; 32];

fn funded_pool() -> LiquidityPool {
    let (pool, _, _) = create_pool(ADDRESS, CREATOR, MINT, 254, 1_700_000_000);
    pool
}

fn same_pool(a: &LiquidityPool, b: &LiquidityPool) -> bool {
    a.creator == b.creator
        && a.token == b.token
        && a.total_supply == b.total_supply
        && a.reserve_token == b.reserve_token
        && a.reserve_sol == b.reserve_sol
        && a.bump == b.bump
        && a.created_at == b.created_at
}

#[test]
fn constants_have_their_values() {
    assert_eq!(INITIAL_PRICE_DIVIDER, 800_000);
    assert_eq!(INITIAL_LAMPORTS_FOR_POOL, 60_000_000_000);
    assert_eq!(TOKEN_SELL_LIMIT_PERCENT, 8000);
    assert_eq!(POOL_TOTAL_SUPPLY, 800_000_000_000_000_000);
    assert_eq!(LIQUIDITY_POOL_INITIAL_TOKENS, 800_000_000_000_000_000);
    assert_eq!(SHORT_POOL_INITIAL_TOKENS, 88_000_000_000_000_000);
    assert_eq!(LiquidityPool::ACCOUNT_SIZE, 105);
    assert_eq!(LiquidityPool::POOL_SEED_PREFIX, "liquidity_pool");
    assert_eq!(LiquidityPool::SOL_VAULT_PREFIX, "liquidity_sol_vault");
    assert_eq!(PoolRegistry::POOL_REGISTRY_SEED, "pool_registry");
    assert_eq!(LiquidityProvider::SEED_PREFIX, "LiqudityProvider");
    assert_eq!(LiquidityProvider::ACCOUNT_SIZE, 16);
}

#[test]
fn registry_holds_pool_tokens() {
    let registry = PoolRegistry { pools: vec![PoolToken { token_mint: MINT }] };
    assert_eq!(registry.pools.len(), 1);
    assert_eq!(registry.pools[0].token_mint, MINT);
    let provider = LiquidityProvider { shares: 7 };
    assert_eq!(provider.shares, 7);
}

#[test]
fn new_pool_is_empty() {
    let pool = LiquidityPool::new(CREATOR, MINT, 9, 42);
    assert_eq!(pool.creator, CREATOR);
    assert_eq!(pool.token, MINT);
    assert_eq!(pool.total_supply, 0);
    assert_eq!(pool.reserve_token, 0);
    assert_eq!(pool.reserve_sol, 0);
    assert_eq!(pool.bump, 9);
    assert_eq!(pool.created_at, 42);
}

#[test]
fn update_reserves_replaces_both_reserves() {
    let mut pool = LiquidityPool::new(CREATOR, MINT, 9, 42);
    pool.update_reserves(123, 456);
    assert_eq!(pool.reserve_token, 123);
    assert_eq!(pool.reserve_sol, 456);
    assert_eq!(pool.total_supply, 0);
}

#[test]
fn add_liquidity_sets_supply_and_virtual_sol_reserve() {
    let mut pool = LiquidityPool::new(CREATOR, MINT, 9, 42);
    let transfers = pool.add_liquidity(5_000);
    assert_eq!(transfers, vec![PoolTransfer::TokenToPool { amount: 5_000 }]);
    assert_eq!(pool.total_supply, 800_000_000_000_000_000);
    assert_eq!(pool.reserve_token, 5_000);
    assert_eq!(pool.reserve_sol, 60_000_000_000);
    assert_eq!(pool.bump, 9);
}

#[test]
fn remove_liquidity_moves_everything_out() {
    let pool = funded_pool();
    let transfers = pool.remove_liquidity(77, 88, 250);
    assert_eq!(
        transfers,
        vec![
            PoolTransfer::TokenFromPool { amount: 77 },
            PoolTransfer::SolFromPool { amount: 88, bump: 250 },
        ]
    );
}

#[test]
fn create_pool_funds_the_pool_and_reports_it() {
    let (pool, transfers, event) = create_pool(ADDRESS, CREATOR, MINT, 254, 1_700_000_000);
    assert_eq!(pool.creator, CREATOR);
    assert_eq!(pool.token, MINT);
    assert_eq!(pool.total_supply, 800_000_000_000_000_000);
    assert_eq!(pool.reserve_token, 800_000_000_000_000_000);
    assert_eq!(pool.reserve_sol, 60_000_000_000);
    assert_eq!(pool.bump, 254);
    assert_eq!(pool.created_at, 1_700_000_000);
    assert_eq!(transfers, vec![PoolTransfer::TokenToPool { amount: 800_000_000_000_000_000 }]);
    assert_eq!(event.address, ADDRESS);
    assert_eq!(event.creator, CREATOR);
    assert_eq!(event.token_mint, MINT);
    assert_eq!(event.total_supply, 800_000_000_000_000_000);
    assert_eq!(event.reserve_token, 800_000_000_000_000_000);
    assert_eq!(event.reserve_sol, 60_000_000_000);
    assert_eq!(event.bump, 254);
}

#[test]
fn create_short_pool_funds_the_pool() {
    let (pool, transfers) = create_short_pool(CREATOR, MINT, 200, 5);
    assert_eq!(pool.total_supply, 800_000_000_000_000_000);
    assert_eq!(pool.reserve_token, 88_000_000_000_000_000);
    assert_eq!(pool.reserve_sol, 60_000_000_000);
    assert_eq!(pool.bump, 200);
    assert_eq!(pool.created_at, 5);
    assert_eq!(transfers, vec![PoolTransfer::TokenToPool { amount: 88_000_000_000_000_000 }]);
}

#[test]
fn buy_moves_reserves_and_reports_them() {
    let mut pool = funded_pool();
    let (transfers, event) = pool.buy(1_000_000_000, 16_000_000_000_000).unwrap();
    assert_eq!(
        transfers,
        vec![
            PoolTransfer::SolToPool { amount: 1_000_000_000 },
            PoolTransfer::TokenFromPool { amount: 16_000_000_000_000 },
        ]
    );
    assert_eq!(pool.reserve_sol, 61_000_000_000);
    assert_eq!(pool.reserve_token, 800_000_000_000_000_000 - 16_000_000_000_000);
    assert_eq!(pool.total_supply, 800_000_000_000_000_000);
    assert_eq!(
        event,
        BuyEvent {
            reserve_sol: 61_000_000_000,
            reserve_token: 799_984_000_000_000_000,
            total_supply: 800_000_000_000_000_000,
        }
    );
}

#[test]
fn buy_of_zero_is_refused() {
    let mut pool = funded_pool();
    let before = pool;
    assert_eq!(pool.buy(0, 10), Err(CustomError::InvalidAmount));
    assert!(same_pool(&pool, &before));
}

#[test]
fn buy_above_the_token_reserve_is_refused() {
    let mut pool = LiquidityPool::new(CREATOR, MINT, 9, 42);
    pool.update_reserves(100, 1_000);
    let before = pool;
    assert_eq!(pool.buy(101, 1), Err(CustomError::NotEnoughTokenInVault));
    assert!(same_pool(&pool, &before));
}

#[test]
fn buy_compares_the_paid_lamports_with_the_token_reserve() {
    let mut pool = LiquidityPool::new(CREATOR, MINT, 9, 42);
    pool.update_reserves(100, 1_000);
    let (transfers, _) = pool.buy(100, 40).unwrap();
    assert_eq!(transfers.len(), 2);
    assert_eq!(pool.reserve_token, 60);
    assert_eq!(pool.reserve_sol, 1_100);
}

#[test]
fn sell_moves_reserves() {
    let mut pool = funded_pool();
    let transfers = pool.sell(1_000, 30, 251).unwrap();
    assert_eq!(
        transfers,
        vec![
            PoolTransfer::TokenToPool { amount: 1_000 },
            PoolTransfer::SolFromPool { amount: 30, bump: 251 },
        ]
    );
    assert_eq!(pool.reserve_token, 800_000_000_000_001_000);
    assert_eq!(pool.reserve_sol, 59_999_999_970);
}

#[test]
fn sell_refusals_come_in_order() {
    let mut pool = LiquidityPool::new(CREATOR, MINT, 9, 42);
    pool.update_reserves(100, 50);
    let before = pool;
    assert_eq!(pool.sell(0, 1_000, 1), Err(CustomError::InvalidAmount));
    assert_eq!(pool.sell(101, 1_000, 1), Err(CustomError::TokenAmountToSellTooBig));
    assert_eq!(pool.sell(100, 51, 1), Err(CustomError::NotEnoughSolInVault));
    assert!(same_pool(&pool, &before));
    assert!(pool.sell(100, 50, 1).is_ok());
    assert_eq!(pool.reserve_token, 200);
    assert_eq!(pool.reserve_sol, 0);
}

#[test]
fn buy_then_sell_restores_the_token_reserve() {
    let mut pool = funded_pool();
    let start = pool;
    pool.buy(2_000_000_000, 31_000_000_000_000).unwrap();
    pool.sell(31_000_000_000_000, 1_990_000_000, 255).unwrap();
    assert_eq!(pool.reserve_token, start.reserve_token);
    assert_eq!(pool.reserve_sol, start.reserve_sol + 2_000_000_000 - 1_990_000_000);
}

#[test]
fn pool_signer_seeds_are_prefix_mint_and_bump() {
    let pool = funded_pool();
    let seeds = pool.pool_signer_seeds();
    assert_eq!(seeds.len(), 3);
    assert_eq!(seeds[0], b"liquidity_pool".to_vec());
    assert_eq!(seeds[1], MINT.to_vec());
    assert_eq!(seeds[2], vec![254u8]);
    let vault = pool.sol_vault_signer_seeds(17);
    assert_eq!(vault[0], b"liquidity_sol_vault".to_vec());
    assert_eq!(vault[1], MINT.to_vec());
    assert_eq!(vault[2], vec![17u8]);
}

#[test]
fn buy_refusal_does_not_depend_on_the_quote() {
    let mut pool = LiquidityPool::new(CREATOR, MINT, 9, 42);
    pool.update_reserves(100, 1_000);
    for quote in [0u64, 1, 100, u64::MAX] {
        assert_eq!(pool.buy(0, quote), Err(CustomError::InvalidAmount));
        assert_eq!(pool.buy(101, quote), Err(CustomError::NotEnoughTokenInVault));
    }
    assert_eq!(pool.reserve_token, 100);
    assert_eq!(pool.reserve_sol, 1_000);
}
