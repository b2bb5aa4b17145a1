use vstd::prelude::*;

use crate::consts::{
    INITIAL_LAMPORTS_FOR_POOL, LIQUIDITY_POOL_INITIAL_TOKENS, POOL_TOTAL_SUPPLY,
    SHORT_POOL_INITIAL_TOKENS,
};
use crate::pool::LiquidityPool;
use crate::short_pool::ShortPool;
use crate::transfer::PoolTransfer;

verus! {

/// What creating a liquidity pool reports.
#[derive(Debug, Clone, Copy)]
pub struct CreatePoolEvent {
    /// Address of the pool's account.
    pub address: [u8; 32],
    pub creator: [u8; 32],
    pub token_mint: [u8; 32],
    pub total_supply: u64,
    pub reserve_token: u64,
    pub reserve_sol: u64,
    pub bump: u8,
}

/// Creates the liquidity pool of `token_mint` at `address`, funded by `creator` with
/// `LIQUIDITY_POOL_INITIAL_TOKENS` tokens.
pub fn create_pool(address: [u8; 32], creator: [u8; 32], token_mint: [u8; 32], bump: u8, created_at: i64) -> (r: (
    LiquidityPool,
    Vec<PoolTransfer>,
    CreatePoolEvent,
))
    ensures
        r.0 == (LiquidityPool {
            creator,
            token: token_mint,
            total_supply: POOL_TOTAL_SUPPLY,
            reserve_token: LIQUIDITY_POOL_INITIAL_TOKENS,
            reserve_sol: INITIAL_LAMPORTS_FOR_POOL,
            bump,
            created_at,
        }),
        r.1@ == seq![PoolTransfer::TokenToPool { amount: LIQUIDITY_POOL_INITIAL_TOKENS }],
        r.2 == (CreatePoolEvent {
            address,
            creator,
            token_mint,
            total_supply: r.0.total_supply,
            reserve_token: r.0.reserve_token,
            reserve_sol: r.0.reserve_sol,
            bump: r.0.bump,
        }),
{
    let mut pool = LiquidityPool::new(creator, token_mint, bump, created_at);
    let transfers = pool.add_liquidity(LIQUIDITY_POOL_INITIAL_TOKENS);
    let event = CreatePoolEvent {
        address,
        creator,
        token_mint,
        total_supply: pool.total_supply,
        reserve_token: pool.reserve_token,
        reserve_sol: pool.reserve_sol,
        bump: pool.bump,
    };
    (pool, transfers, event)
}

/// Creates the shorting pool of `token_mint`, funded by `creator` with
/// `SHORT_POOL_INITIAL_TOKENS` tokens.
pub fn create_short_pool(creator: [u8; 32], token_mint: [u8; 32], bump: u8, created_at: i64) -> (r: (
    ShortPool,
    Vec<PoolTransfer>,
))
    ensures
        r.0 == (ShortPool {
            creator,
            token: token_mint,
            total_supply: POOL_TOTAL_SUPPLY,
            reserve_token: SHORT_POOL_INITIAL_TOKENS,
            reserve_sol: INITIAL_LAMPORTS_FOR_POOL,
            bump,
            created_at,
        }),
        r.1@ == seq![PoolTransfer::TokenToPool { amount: SHORT_POOL_INITIAL_TOKENS }],
{
    let mut pool = ShortPool::new(creator, token_mint, bump, created_at);
    let transfers = pool.add_liquidity(SHORT_POOL_INITIAL_TOKENS);
    (pool, transfers)
}

} // verus!
