use vstd::prelude::*;

use crate::errors::CustomError;
use crate::pool::LiquidityPool;
use crate::short_pool::ShortPool;
use crate::transfer::{
    lemma_total_of_pair, sol_in, sol_into_pool, sol_out, sol_out_of_pool, tokens_in,
    tokens_into_pool, tokens_out, tokens_out_of_pool, PoolTransfer,
};

verus! {

/// The four sums of a two-transfer sequence are those of its two transfers.
proof fn lemma_sums_of_pair(a: PoolTransfer, b: PoolTransfer)
    ensures
        sol_into_pool(seq![a, b]) == sol_in(a) + sol_in(b),
        sol_out_of_pool(seq![a, b]) == sol_out(a) + sol_out(b),
        tokens_into_pool(seq![a, b]) == tokens_in(a) + tokens_in(b),
        tokens_out_of_pool(seq![a, b]) == tokens_out(a) + tokens_out(b),
{
    lemma_total_of_pair(a, b, |t: PoolTransfer| sol_in(t));
    lemma_total_of_pair(a, b, |t: PoolTransfer| sol_out(t));
    lemma_total_of_pair(a, b, |t: PoolTransfer| tokens_in(t));
    lemma_total_of_pair(a, b, |t: PoolTransfer| tokens_out(t));
}

/// A successful buy moves the recorded reserves by exactly what its transfers move into
/// and out of the pool, and leaves every other field of the pool as it was.
pub proof fn lemma_buy_reserves_follow_transfers(pool: LiquidityPool, amount: u64, token_amount: u64)
    requires
        pool.buy_fits(amount, token_amount),
        pool.buy_outcome(amount, token_amount) is Ok,
    ensures
        ({
            let (after, ts) = pool.buy_outcome(amount, token_amount)->Ok_0;
            &&& after.reserve_sol == pool.reserve_sol + sol_into_pool(ts) - sol_out_of_pool(ts)
            &&& after.reserve_token == pool.reserve_token + tokens_into_pool(ts)
                - tokens_out_of_pool(ts)
            &&& after == pool.with_reserves(after.reserve_token as int, after.reserve_sol as int)
        }),
{
    lemma_sums_of_pair(
        PoolTransfer::SolToPool { amount },
        PoolTransfer::TokenFromPool { amount: token_amount },
    );
}

/// A successful sale moves the recorded reserves by exactly what its transfers move into
/// and out of the pool, and leaves every other field of the pool as it was.
pub proof fn lemma_sell_reserves_follow_transfers(
    pool: LiquidityPool,
    amount: u64,
    sol_amount: u64,
    bump: u8,
)
    requires
        pool.sell_fits(amount, sol_amount),
        pool.sell_outcome(amount, sol_amount, bump) is Ok,
    ensures
        ({
            let (after, ts) = pool.sell_outcome(amount, sol_amount, bump)->Ok_0;
            &&& after.reserve_sol == pool.reserve_sol + sol_into_pool(ts) - sol_out_of_pool(ts)
            &&& after.reserve_token == pool.reserve_token + tokens_into_pool(ts)
                - tokens_out_of_pool(ts)
            &&& after == pool.with_reserves(after.reserve_token as int, after.reserve_sol as int)
        }),
{
    lemma_sums_of_pair(
        PoolTransfer::TokenToPool { amount },
        PoolTransfer::SolFromPool { amount: sol_amount, bump },
    );
}

/// A successful loan moves the recorded reserves by exactly what its transfers move into
/// and out of the pool, and leaves every other field of the pool as it was.
pub proof fn lemma_borrow_reserves_follow_transfers(pool: ShortPool, amount: u64, sol_amount: u64)
    requires
        pool.borrow_fits(amount, sol_amount),
        pool.borrow_outcome(amount, sol_amount) is Ok,
    ensures
        ({
            let (after, ts) = pool.borrow_outcome(amount, sol_amount)->Ok_0;
            &&& after.reserve_sol == pool.reserve_sol + sol_into_pool(ts) - sol_out_of_pool(ts)
            &&& after.reserve_token == pool.reserve_token + tokens_into_pool(ts)
                - tokens_out_of_pool(ts)
            &&& after == pool.with_reserves(after.reserve_token as int, after.reserve_sol as int)
        }),
{
    lemma_sums_of_pair(
        PoolTransfer::SolToPool { amount: sol_amount },
        PoolTransfer::TokenFromPool { amount },
    );
}

/// Whether a buy is refused, and with which error, does not depend on the quote.
pub proof fn lemma_buy_refusal_ignores_quote(
    pool: LiquidityPool,
    amount: u64,
    quote1: u64,
    quote2: u64,
)
    ensures
        pool.buy_outcome(amount, quote1) is Err <==> pool.buy_outcome(amount, quote2) is Err,
        pool.buy_outcome(amount, quote1) is Err ==> pool.buy_outcome(amount, quote1)->Err_0
            == pool.buy_outcome(amount, quote2)->Err_0,
{
}

/// Whether a loan is refused, and with which error, does not depend on the collateral.
pub proof fn lemma_borrow_refusal_ignores_collateral(
    pool: ShortPool,
    amount: u64,
    collateral1: u64,
    collateral2: u64,
)
    ensures
        pool.borrow_outcome(amount, collateral1) is Err <==> pool.borrow_outcome(
            amount,
            collateral2,
        ) is Err,
        pool.borrow_outcome(amount, collateral1) is Err ==> pool.borrow_outcome(
            amount,
            collateral1,
        )->Err_0 == pool.borrow_outcome(amount, collateral2)->Err_0,
{
}

/// Selling back the tokens that a buy handed out restores the token reserve; the SOL
/// reserve ends up moved by the lamports paid in less the lamports paid out.
pub proof fn lemma_buy_then_sell_restores_token_reserve(
    pool: LiquidityPool,
    amount: u64,
    token_amount: u64,
    sol_amount: u64,
    bump: u8,
)
    requires
        pool.buy_fits(amount, token_amount),
        pool.buy_outcome(amount, token_amount) is Ok,
        pool.buy_outcome(amount, token_amount)->Ok_0.0.sell_fits(token_amount, sol_amount),
        pool.buy_outcome(amount, token_amount)->Ok_0.0.sell_outcome(
            token_amount,
            sol_amount,
            bump,
        ) is Ok,
    ensures
        ({
            let bought = pool.buy_outcome(amount, token_amount)->Ok_0.0;
            let sold = bought.sell_outcome(token_amount, sol_amount, bump)->Ok_0.0;
            &&& sold.reserve_token == pool.reserve_token
            &&& sold.reserve_sol == pool.reserve_sol + amount - sol_amount
            &&& sold == pool.with_reserves(pool.reserve_token as int, sold.reserve_sol as int)
        }),
{
}

/// A buy is refused exactly when it pays nothing (`InvalidAmount`) or pays more lamports
/// than the pool holds tokens (`NotEnoughTokenInVault`); nothing else, in particular not
/// the SOL reserve nor the quote, can refuse it.
pub proof fn lemma_buy_refused_exactly_when(pool: LiquidityPool, amount: u64, token_amount: u64)
    ensures
        pool.buy_outcome(amount, token_amount) is Err <==> (amount == 0 || amount
            > pool.reserve_token),
        amount == 0 ==> pool.buy_outcome(amount, token_amount) == Err::<
            (LiquidityPool, Seq<PoolTransfer>),
            CustomError,
        >(CustomError::InvalidAmount),
        amount != 0 && amount > pool.reserve_token ==> pool.buy_outcome(amount, token_amount)
            == Err::<(LiquidityPool, Seq<PoolTransfer>), CustomError>(
            CustomError::NotEnoughTokenInVault,
        ),
{
}

/// A buy that goes through takes exactly the `amount` lamports paid into the SOL vault
/// and hands out exactly the quoted `token_amount` tokens, in this order; the SOL reserve
/// grows by `amount`, the token reserve shrinks by `token_amount`, and nothing else about
/// the pool changes.
pub proof fn lemma_buy_result(pool: LiquidityPool, amount: u64, token_amount: u64)
    requires
        pool.buy_fits(amount, token_amount),
        0 < amount <= pool.reserve_token,
    ensures
        pool.buy_outcome(amount, token_amount) is Ok,
        ({
            let (after, ts) = pool.buy_outcome(amount, token_amount)->Ok_0;
            &&& ts.len() == 2
            &&& ts[0] == PoolTransfer::SolToPool { amount }
            &&& ts[1] == PoolTransfer::TokenFromPool { amount: token_amount }
            &&& after.reserve_sol == pool.reserve_sol + amount
            &&& after.reserve_token == pool.reserve_token - token_amount
            &&& after.total_supply == pool.total_supply
            &&& after.creator == pool.creator
            &&& after.token == pool.token
            &&& after.bump == pool.bump
            &&& after.created_at == pool.created_at
        }),
{
}

/// A sale is refused exactly when it offers no tokens (`InvalidAmount`), more tokens than
/// the pool holds (`TokenAmountToSellTooBig`), or asks more lamports than the SOL reserve
/// holds (`NotEnoughSolInVault`), checked in this order; nothing else refuses it.
pub proof fn lemma_sell_refused_exactly_when(
    pool: LiquidityPool,
    amount: u64,
    sol_amount: u64,
    bump: u8,
)
    ensures
        pool.sell_outcome(amount, sol_amount, bump) is Ok <==> (amount != 0 && amount
            <= pool.reserve_token && sol_amount <= pool.reserve_sol),
        amount == 0 ==> pool.sell_outcome(amount, sol_amount, bump) == Err::<
            (LiquidityPool, Seq<PoolTransfer>),
            CustomError,
        >(CustomError::InvalidAmount),
        amount != 0 && amount > pool.reserve_token ==> pool.sell_outcome(
            amount,
            sol_amount,
            bump,
        ) == Err::<(LiquidityPool, Seq<PoolTransfer>), CustomError>(
            CustomError::TokenAmountToSellTooBig,
        ),
        amount != 0 && amount <= pool.reserve_token && sol_amount > pool.reserve_sol
            ==> pool.sell_outcome(amount, sol_amount, bump) == Err::<
            (LiquidityPool, Seq<PoolTransfer>),
            CustomError,
        >(CustomError::NotEnoughSolInVault),
{
}

/// A sale that goes through takes exactly the `amount` tokens into the pool and pays out
/// exactly the quoted `sol_amount` lamports from the vault, signed with the vault bump the
/// caller gave, in this order; the token reserve grows by `amount`, the SOL reserve
/// shrinks by `sol_amount`, and nothing else about the pool changes.
pub proof fn lemma_sell_result(pool: LiquidityPool, amount: u64, sol_amount: u64, bump: u8)
    requires
        pool.sell_fits(amount, sol_amount),
        0 < amount <= pool.reserve_token,
        sol_amount <= pool.reserve_sol,
    ensures
        pool.sell_outcome(amount, sol_amount, bump) is Ok,
        ({
            let (after, ts) = pool.sell_outcome(amount, sol_amount, bump)->Ok_0;
            &&& ts.len() == 2
            &&& ts[0] == PoolTransfer::TokenToPool { amount }
            &&& ts[1] == PoolTransfer::SolFromPool { amount: sol_amount, bump }
            &&& after.reserve_token == pool.reserve_token + amount
            &&& after.reserve_sol == pool.reserve_sol - sol_amount
            &&& after.total_supply == pool.total_supply
            &&& after.creator == pool.creator
            &&& after.token == pool.token
            &&& after.bump == pool.bump
            &&& after.created_at == pool.created_at
        }),
{
}

/// A loan is refused exactly when it asks for no tokens (`InvalidAmount`) or for more
/// tokens than the pool holds (`NotEnoughTokenInVault`); nothing else, in particular not
/// the SOL reserve nor the collateral, can refuse it.
pub proof fn lemma_borrow_refused_exactly_when(pool: ShortPool, amount: u64, sol_amount: u64)
    ensures
        pool.borrow_outcome(amount, sol_amount) is Err <==> (amount == 0 || amount
            > pool.reserve_token),
        amount == 0 ==> pool.borrow_outcome(amount, sol_amount) == Err::<
            (ShortPool, Seq<PoolTransfer>),
            CustomError,
        >(CustomError::InvalidAmount),
        amount != 0 && amount > pool.reserve_token ==> pool.borrow_outcome(amount, sol_amount)
            == Err::<(ShortPool, Seq<PoolTransfer>), CustomError>(
            CustomError::NotEnoughTokenInVault,
        ),
{
}

/// A loan that goes through takes exactly the `sol_amount` lamports of collateral into
/// the vault and lends out exactly the `amount` tokens asked for, in this order; the SOL
/// reserve grows by `sol_amount`, the token reserve shrinks by `amount`, and nothing else
/// about the pool changes.
pub proof fn lemma_borrow_result(pool: ShortPool, amount: u64, sol_amount: u64)
    requires
        pool.borrow_fits(amount, sol_amount),
        0 < amount <= pool.reserve_token,
    ensures
        pool.borrow_outcome(amount, sol_amount) is Ok,
        ({
            let (after, ts) = pool.borrow_outcome(amount, sol_amount)->Ok_0;
            &&& ts.len() == 2
            &&& ts[0] == PoolTransfer::SolToPool { amount: sol_amount }
            &&& ts[1] == PoolTransfer::TokenFromPool { amount }
            &&& tokens_out_of_pool(ts) == amount
            &&& sol_into_pool(ts) == sol_amount
            &&& after.reserve_token == pool.reserve_token - amount
            &&& after.reserve_sol == pool.reserve_sol + sol_amount
            &&& after.total_supply == pool.total_supply
            &&& after.creator == pool.creator
            &&& after.token == pool.token
            &&& after.bump == pool.bump
            &&& after.created_at == pool.created_at
        }),
{
    lemma_sums_of_pair(
        PoolTransfer::SolToPool { amount: sol_amount },
        PoolTransfer::TokenFromPool { amount },
    );
}

} // verus!
