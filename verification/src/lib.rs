//! Bonding-curve token pools: a liquidity pool that sells and buys back a token along
//! an exponential price curve, and a shorting pool that lends the token against SOL
//! collateral.
//!
//! Each operation takes the pool's state and plain values (amounts, the curve's quote,
//! bumps) and gives back the new state together with the token and lamport transfers
//! that the runtime has to carry out, or the error that refuses the request.

use vstd::prelude::*;

pub mod consts;
pub mod errors;
pub mod instructions;
pub mod laws;
pub mod pool;
pub mod registry;
pub mod seeds;
pub mod short_pool;
pub mod transfer;

verus! {

} // verus!
