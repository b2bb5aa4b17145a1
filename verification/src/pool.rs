use vstd::prelude::*;

use crate::consts::{ascii_bytes, INITIAL_LAMPORTS_FOR_POOL, POOL_TOTAL_SUPPLY};
use crate::errors::CustomError;
use crate::seeds::{are_signer_seeds, signer_seeds};
use crate::transfer::PoolTransfer;

verus! {

/// A bonding-curve liquidity pool for one token mint.
///
/// Keys are held as their 32 bytes.
#[derive(Debug, Clone, Copy)]
pub struct LiquidityPool {
    /// The account that created the pool.
    pub creator: [u8; 32],
    /// The token mint the pool trades.
    pub token: [u8; 32],
    /// Total supply of the token, in base units.
    pub total_supply: u64,
    /// Tokens the pool holds in reserve.
    pub reserve_token: u64,
    /// Lamports the pool accounts for in its SOL reserve.
    pub reserve_sol: u64,
    /// Bump of the pool's program-derived address.
    pub bump: u8,
    /// Unix time at which the pool was created.
    pub created_at: i64,
}

/// What a successful buy reports.
#[derive(Debug, Clone, Copy, PartialEq, Eq, Structural)]
pub struct BuyEvent {
    pub reserve_sol: u64,
    pub reserve_token: u64,
    pub total_supply: u64,
}

impl BuyEvent {
    /// The event that reports the state of `pool`.
    pub open spec fn of(pool: LiquidityPool) -> BuyEvent {
        BuyEvent {
            reserve_sol: pool.reserve_sol,
            reserve_token: pool.reserve_token,
            total_supply: pool.total_supply,
        }
    }
}

impl LiquidityPool {
    /// Seed prefix of the pool's program-derived address.
    pub const POOL_SEED_PREFIX: &'static str = "liquidity_pool";

    /// Seed prefix of the pool's SOL vault.
    pub const SOL_VAULT_PREFIX: &'static str = "liquidity_sol_vault";

    /// Bytes the pool's account takes: discriminator, two keys, three amounts, bump, timestamp.
    pub const ACCOUNT_SIZE: usize = 8 + 32 + 32 + 8 + 8 + 8 + 1 + 8;

    /// The same pool with its two reserves replaced.
    pub open spec fn with_reserves(self, reserve_token: int, reserve_sol: int) -> LiquidityPool {
        LiquidityPool { reserve_token: reserve_token as u64, reserve_sol: reserve_sol as u64, ..self }
    }

    /// What a buy paying `amount` lamports for `token_amount` tokens leads to: the new
    /// pool and the transfers, or the error that refuses it.
    pub open spec fn buy_outcome(self, amount: u64, token_amount: u64) -> Result<
        (LiquidityPool, Seq<PoolTransfer>),
        CustomError,
    > {
        if amount == 0 {
            Err(CustomError::InvalidAmount)
        } else if amount > self.reserve_token {
            Err(CustomError::NotEnoughTokenInVault)
        } else {
            Ok(
                (
                    self.with_reserves(self.reserve_token - token_amount, self.reserve_sol + amount),
                    seq![
                        PoolTransfer::SolToPool { amount },
                        PoolTransfer::TokenFromPool { amount: token_amount },
                    ],
                ),
            )
        }
    }

    /// A buy that passes the pool's checks keeps both reserves within `u64`.
    pub open spec fn buy_fits(self, amount: u64, token_amount: u64) -> bool {
        amount == 0 || amount > self.reserve_token || (self.reserve_sol + amount <= u64::MAX
            && token_amount <= self.reserve_token)
    }

    /// What a sale of `amount` tokens for `sol_amount` lamports leads to.
    pub open spec fn sell_outcome(self, amount: u64, sol_amount: u64, bump: u8) -> Result<
        (LiquidityPool, Seq<PoolTransfer>),
        CustomError,
    > {
        if amount == 0 {
            Err(CustomError::InvalidAmount)
        } else if self.reserve_token < amount {
            Err(CustomError::TokenAmountToSellTooBig)
        } else if self.reserve_sol < sol_amount {
            Err(CustomError::NotEnoughSolInVault)
        } else {
            Ok(
                (
                    self.with_reserves(self.reserve_token + amount, self.reserve_sol - sol_amount),
                    seq![
                        PoolTransfer::TokenToPool { amount },
                        PoolTransfer::SolFromPool { amount: sol_amount, bump },
                    ],
                ),
            )
        }
    }

    /// A sale that passes the pool's checks keeps the token reserve within `u64`.
    pub open spec fn sell_fits(self, amount: u64, sol_amount: u64) -> bool {
        amount == 0 || self.reserve_token < amount || self.reserve_sol < sol_amount
            || self.reserve_token + amount <= u64::MAX
    }

    /// A new, empty pool.
    pub fn new(creator: [u8; 32], token: [u8; 32], bump: u8, created_at: i64) -> (r: Self)
        ensures
            r == (LiquidityPool {
                creator,
                token,
                total_supply: 0,
                reserve_token: 0,
                reserve_sol: 0,
                bump,
                created_at,
            }),
    {
        LiquidityPool {
            creator,
            token,
            total_supply: 0,
            reserve_token: 0,
            reserve_sol: 0,
            bump,
            created_at,
        }
    }

    /// Replaces the two reserves.
    pub fn update_reserves(&mut self, reserve_token: u64, reserve_sol: u64)
        ensures
            *final(self) == old(self).with_reserves(reserve_token as int, reserve_sol as int),
    {
        self.reserve_token = reserve_token;
        self.reserve_sol = reserve_sol;
    }

    /// Funds the pool with `amount` tokens from the user: the total supply becomes
    /// `POOL_TOTAL_SUPPLY`, the token reserve `amount` and the SOL reserve the virtual
    /// `INITIAL_LAMPORTS_FOR_POOL`.
    pub fn add_liquidity(&mut self, amount: u64) -> (r: Vec<PoolTransfer>)
        ensures
            *final(self) == (LiquidityPool {
                total_supply: POOL_TOTAL_SUPPLY,
                reserve_token: amount,
                reserve_sol: INITIAL_LAMPORTS_FOR_POOL,
                ..*old(self)
            }),
            r@ == seq![PoolTransfer::TokenToPool { amount }],
    {
        let transfers = vec![PoolTransfer::TokenToPool { amount }];
        self.total_supply = POOL_TOTAL_SUPPLY;
        self.update_reserves(amount, INITIAL_LAMPORTS_FOR_POOL);
        transfers
    }

    /// Empties the pool: all `pool_token_balance` tokens of the pool's token account and
    /// all `vault_lamports` of its SOL vault go to the user. The recorded reserves stay.
    pub fn remove_liquidity(&self, pool_token_balance: u64, vault_lamports: u64, bump: u8) -> (r:
        Vec<PoolTransfer>)
        ensures
            r@ == seq![
                PoolTransfer::TokenFromPool { amount: pool_token_balance },
                PoolTransfer::SolFromPool { amount: vault_lamports, bump },
            ],
    {
        vec![
            PoolTransfer::TokenFromPool { amount: pool_token_balance },
            PoolTransfer::SolFromPool { amount: vault_lamports, bump },
        ]
    }

    /// Buys `token_amount` tokens for `amount` lamports; `token_amount` is the quote of
    /// the bonding curve for `amount` at the pool's current state.
    ///
    /// A zero `amount` is refused with `InvalidAmount`, and an `amount` above the token
    /// reserve with `NotEnoughTokenInVault`; a refused buy changes nothing.
    pub fn buy(&mut self, amount: u64, token_amount: u64) -> (r: Result<
        (Vec<PoolTransfer>, BuyEvent),
        CustomError,
    >)
        requires
            old(self).buy_fits(amount, token_amount),
        ensures
            r is Ok <==> (amount != 0 && amount <= old(self).reserve_token),
            r matches Ok(done) ==> {
                &&& done.1.reserve_sol == final(self).reserve_sol
                &&& done.1.reserve_token == final(self).reserve_token
                &&& done.1.total_supply == final(self).total_supply
                &&& final(self).reserve_sol == old(self).reserve_sol + amount
                &&& final(self).reserve_token == old(self).reserve_token - token_amount
            },
            match old(self).buy_outcome(amount, token_amount) {
                Ok((pool, transfers)) => {
                    &&& *final(self) == pool
                    &&& r matches Ok(done) && done.0@ == transfers && done.1 == BuyEvent::of(pool)
                },
                Err(e) => {
                    &&& *final(self) == *old(self)
                    &&& r is Err
                    &&& r->Err_0 == e
                },
            },
    {
        if amount == 0 {
            return Err(CustomError::InvalidAmount);
        }
        if amount > self.reserve_token {
            return Err(CustomError::NotEnoughTokenInVault);
        }
        self.reserve_sol = self.reserve_sol + amount;
        self.reserve_token = self.reserve_token - token_amount;
        let transfers = vec![
            PoolTransfer::SolToPool { amount },
            PoolTransfer::TokenFromPool { amount: token_amount },
        ];
        let event = BuyEvent {
            reserve_sol: self.reserve_sol,
            reserve_token: self.reserve_token,
            total_supply: self.total_supply,
        };
        Ok((transfers, event))
    }

    /// Sells `amount` tokens for `sol_amount` lamports; `sol_amount` is the quote of the
    /// bonding curve, and `bump` that of the SOL vault which pays it.
    ///
    /// A zero `amount` is refused with `InvalidAmount`, an `amount` above the token reserve
    /// with `TokenAmountToSellTooBig`, and a `sol_amount` above the SOL reserve with
    /// `NotEnoughSolInVault`; a refused sale changes nothing.
    pub fn sell(&mut self, amount: u64, sol_amount: u64, bump: u8) -> (r: Result<
        Vec<PoolTransfer>,
        CustomError,
    >)
        requires
            old(self).sell_fits(amount, sol_amount),
        ensures
            r is Ok <==> (amount != 0 && amount <= old(self).reserve_token && sol_amount
                <= old(self).reserve_sol),
            r is Ok ==> {
                &&& final(self).reserve_token == old(self).reserve_token + amount
                &&& final(self).reserve_sol == old(self).reserve_sol - sol_amount
            },
            match old(self).sell_outcome(amount, sol_amount, bump) {
                Ok((pool, transfers)) => {
                    &&& *final(self) == pool
                    &&& r matches Ok(ts) && ts@ == transfers
                },
                Err(e) => {
                    &&& *final(self) == *old(self)
                    &&& r is Err
                    &&& r->Err_0 == e
                },
            },
    {
        if amount == 0 {
            return Err(CustomError::InvalidAmount);
        }
        if self.reserve_token < amount {
            return Err(CustomError::TokenAmountToSellTooBig);
        }
        if self.reserve_sol < sol_amount {
            return Err(CustomError::NotEnoughSolInVault);
        }
        let transfers = vec![
            PoolTransfer::TokenToPool { amount },
            PoolTransfer::SolFromPool { amount: sol_amount, bump },
        ];
        self.reserve_token = self.reserve_token + amount;
        self.reserve_sol = self.reserve_sol - sol_amount;
        Ok(transfers)
    }

    /// The seeds with which the pool signs for its token account: the pool prefix, the
    /// token mint and the pool's bump.
    pub fn pool_signer_seeds(&self) -> (r: Vec<Vec<u8>>)
        ensures
            are_signer_seeds(
                r@,
                ascii_bytes(Self::POOL_SEED_PREFIX@),
                self.token@,
                self.bump,
            ),
    {
        proof {
            reveal_strlit("liquidity_pool");
        }
        signer_seeds(Self::POOL_SEED_PREFIX, &self.token, self.bump)
    }

    /// The seeds with which the pool's SOL vault signs: the vault prefix, the token mint
    /// and the vault's `bump`.
    pub fn sol_vault_signer_seeds(&self, bump: u8) -> (r: Vec<Vec<u8>>)
        ensures
            are_signer_seeds(
                r@,
                ascii_bytes(Self::SOL_VAULT_PREFIX@),
                self.token@,
                bump,
            ),
    {
        proof {
            reveal_strlit("liquidity_sol_vault");
        }
        signer_seeds(Self::SOL_VAULT_PREFIX, &self.token, bump)
    }
}

} // verus!
