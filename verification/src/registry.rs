use vstd::prelude::*;

verus! {

/// A token mint that has a pool.
#[derive(Debug, Clone, Copy)]
pub struct PoolToken {
    pub token_mint: [u8; 32],
}

/// The list of the mints that have pools.
#[derive(Debug, Clone)]
pub struct PoolRegistry {
    pub pools: Vec<PoolToken>,
}

impl PoolRegistry {
    /// Seed of the registry's program-derived address.
    pub const POOL_REGISTRY_SEED: &'static str = "pool_registry";
}

/// A liquidity provider's share of a pool.
#[derive(Debug, Clone, Copy)]
pub struct LiquidityProvider {
    /// The number of shares the provider holds.
    pub shares: u64,
}

impl LiquidityProvider {
    /// Seed prefix of a provider's program-derived address.
    pub const SEED_PREFIX: &'static str = "LiqudityProvider";

    /// Bytes a provider's account takes: discriminator and shares.
    pub const ACCOUNT_SIZE: usize = 8 + 8;
}

} // verus!
