use vstd::prelude::*;

verus! {

/// The ways in which a pool refuses a request.
#[derive(Debug, Clone, Copy, PartialEq, Eq, Structural)]
pub enum CustomError {
    /// The requested amount is zero.
    InvalidAmount,
    /// The pool does not hold enough tokens for the request.
    NotEnoughTokenInVault,
    /// More tokens are offered for sale than the pool holds in reserve.
    TokenAmountToSellTooBig,
    /// The pool's SOL reserve cannot pay for the sale.
    NotEnoughSolInVault,
}

} // verus!
