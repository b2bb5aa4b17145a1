use vstd::prelude::*;

verus! {

/// Lamports per one whole token at launch, kept for clients that quote prices.
pub const INITIAL_PRICE_DIVIDER: u64 = 800_000;

/// Virtual SOL reserve, in lamports, that a freshly funded pool starts with (60 SOL).
pub const INITIAL_LAMPORTS_FOR_POOL: u64 = 60_000_000_000;

/// Share of the token supply that may be sold, in hundredths of a percent (80%).
pub const TOKEN_SELL_LIMIT_PERCENT: u64 = 8000;

/// Total supply, in base units, recorded for every pool once it is funded.
pub const POOL_TOTAL_SUPPLY: u64 = 800_000_000_000_000_000;

/// Tokens, in base units, that the creator deposits into a new liquidity pool.
pub const LIQUIDITY_POOL_INITIAL_TOKENS: u64 = 800_000_000_000_000_000;

/// Tokens, in base units, that the creator deposits into a new shorting pool.
pub const SHORT_POOL_INITIAL_TOKENS: u64 = 88_000_000_000_000_000;

/// The bytes of an ASCII string, one per character.
pub open spec fn ascii_bytes(s: Seq<char>) -> Seq<u8> {
    Seq::new(s.len(), |i: int| s[i] as u8)
}

} // verus!
