use vstd::prelude::*;

use crate::consts::{ascii_bytes, INITIAL_LAMPORTS_FOR_POOL, POOL_TOTAL_SUPPLY};
use crate::errors::CustomError;
use crate::seeds::{are_signer_seeds, signer_seeds};
use crate::transfer::PoolTransfer;

verus! {

/// A pool that lends tokens against SOL collateral, for one token mint.
///
/// Keys are held as their 32 bytes.
#[derive(Debug, Clone, Copy)]
pub struct ShortPool {
    /// The account that created the pool.
    pub creator: [u8; 32],
    /// The token mint the pool lends.
    pub token: [u8; 32],
    /// Total supply of the token, in base units.
    pub total_supply: u64,
    /// Tokens the pool holds in reserve.
    pub reserve_token: u64,
    /// Lamports of collateral the pool accounts for.
    pub reserve_sol: u64,
    /// Bump of the pool's program-derived address.
    pub bump: u8,
    /// Unix time at which the pool was created.
    pub created_at: i64,
}

/// A user's open loan: the tokens borrowed and the lamports put up for them.
#[derive(Debug, Clone, Copy)]
pub struct UserBorrow {
    pub user: [u8; 32],
    pub token_amount: u64,
    pub sol_collateral: u64,
}

impl ShortPool {
    /// Seed prefix of the pool's program-derived address.
    pub const POOL_SEED_PREFIX: &'static str = "shorting_pool";

    /// Seed prefix of the pool's SOL vault.
    pub const SOL_VAULT_PREFIX: &'static str = "shorting_pool_sol_vault";

    /// Bytes the pool's account takes: discriminator, two keys, three amounts, bump, timestamp.
    pub const ACCOUNT_SIZE: usize = 8 + 32 + 32 + 8 + 8 + 8 + 1 + 8;

    /// The same pool with its two reserves replaced.
    pub open spec fn with_reserves(self, reserve_token: int, reserve_sol: int) -> ShortPool {
        ShortPool { reserve_token: reserve_token as u64, reserve_sol: reserve_sol as u64, ..self }
    }

    /// What borrowing `amount` tokens against `sol_amount` lamports of collateral leads
    /// to: the new pool and the transfers, or the error that refuses it.
    pub open spec fn borrow_outcome(self, amount: u64, sol_amount: u64) -> Result<
        (ShortPool, Seq<PoolTransfer>),
        CustomError,
    > {
        if amount == 0 {
            Err(CustomError::InvalidAmount)
        } else if amount > self.reserve_token {
            Err(CustomError::NotEnoughTokenInVault)
        } else {
            Ok(
                (
                    self.with_reserves(self.reserve_token - amount, self.reserve_sol + sol_amount),
                    seq![
                        PoolTransfer::SolToPool { amount: sol_amount },
                        PoolTransfer::TokenFromPool { amount },
                    ],
                ),
            )
        }
    }

    /// A loan that passes the pool's checks keeps the SOL reserve within `u64`.
    pub open spec fn borrow_fits(self, amount: u64, sol_amount: u64) -> bool {
        amount == 0 || amount > self.reserve_token || self.reserve_sol + sol_amount <= u64::MAX
    }

    /// A new, empty pool.
    pub fn new(creator: [u8; 32], token: [u8; 32], bump: u8, created_at: i64) -> (r: Self)
        ensures
            r == (ShortPool {
                creator,
                token,
                total_supply: 0,
                reserve_token: 0,
                reserve_sol: 0,
                bump,
                created_at,
            }),
    {
        ShortPool {
            creator,
            token,
            total_supply: 0,
            reserve_token: 0,
            reserve_sol: 0,
            bump,
            created_at,
        }
    }

    /// Replaces the two reserves.
    pub fn update_reserves(&mut self, reserve_token: u64, reserve_sol: u64)
        ensures
            *final(self) == old(self).with_reserves(reserve_token as int, reserve_sol as int),
    {
        self.reserve_token = reserve_token;
        self.reserve_sol = reserve_sol;
    }

    /// Funds the pool with `amount` tokens from the user: the total supply becomes
    /// `POOL_TOTAL_SUPPLY`, the token reserve `amount` and the SOL reserve the virtual
    /// `INITIAL_LAMPORTS_FOR_POOL`.
    pub fn add_liquidity(&mut self, amount: u64) -> (r: Vec<PoolTransfer>)
        ensures
            *final(self) == (ShortPool {
                total_supply: POOL_TOTAL_SUPPLY,
                reserve_token: amount,
                reserve_sol: INITIAL_LAMPORTS_FOR_POOL,
                ..*old(self)
            }),
            r@ == seq![PoolTransfer::TokenToPool { amount }],
    {
        let transfers = vec![PoolTransfer::TokenToPool { amount }];
        self.total_supply = POOL_TOTAL_SUPPLY;
        self.update_reserves(amount, INITIAL_LAMPORTS_FOR_POOL);
        transfers
    }

    /// Empties the pool: all `pool_token_balance` tokens of the pool's token account and
    /// all `vault_lamports` of its SOL vault go to the user. The recorded reserves stay.
    pub fn remove_liquidity(&self, pool_token_balance: u64, vault_lamports: u64, bump: u8) -> (r:
        Vec<PoolTransfer>)
        ensures
            r@ == seq![
                PoolTransfer::TokenFromPool { amount: pool_token_balance },
                PoolTransfer::SolFromPool { amount: vault_lamports, bump },
            ],
    {
        vec![
            PoolTransfer::TokenFromPool { amount: pool_token_balance },
            PoolTransfer::SolFromPool { amount: vault_lamports, bump },
        ]
    }

    /// Lends `amount` tokens against `sol_amount` lamports of collateral; `sol_amount` is
    /// the collateral that the leverage and the curve price ask for `amount`.
    ///
    /// A zero `amount` is refused with `InvalidAmount`, and an `amount` above the token
    /// reserve with `NotEnoughTokenInVault`; a refused loan changes nothing. The borrower
    /// is not recorded.
    pub fn borrow(&mut self, amount: u64, sol_amount: u64, user: [u8; 32]) -> (r: Result<
        Vec<PoolTransfer>,
        CustomError,
    >)
        requires
            old(self).borrow_fits(amount, sol_amount),
        ensures
            r is Ok <==> (amount != 0 && amount <= old(self).reserve_token),
            r is Ok ==> {
                &&& final(self).reserve_token == old(self).reserve_token - amount
                &&& final(self).reserve_sol == old(self).reserve_sol + sol_amount
            },
            match old(self).borrow_outcome(amount, sol_amount) {
                Ok((pool, transfers)) => {
                    &&& *final(self) == pool
                    &&& r matches Ok(ts) && ts@ == transfers
                },
                Err(e) => {
                    &&& *final(self) == *old(self)
                    &&& r is Err
                    &&& r->Err_0 == e
                },
            },
    {
        if amount == 0 {
            return Err(CustomError::InvalidAmount);
        }
        if amount > self.reserve_token {
            return Err(CustomError::NotEnoughTokenInVault);
        }
        self.reserve_sol = self.reserve_sol + sol_amount;
        self.reserve_token = self.reserve_token - amount;
        Ok(
            vec![
                PoolTransfer::SolToPool { amount: sol_amount },
                PoolTransfer::TokenFromPool { amount },
            ],
        )
    }

    /// Settles a user's loan. No loan is recorded by `borrow`, so there is nothing to
    /// settle: the pool stays as it is and nothing moves.
    pub fn refund(&mut self, bump: u8, user: [u8; 32]) -> (r: Vec<PoolTransfer>)
        ensures
            *final(self) == *old(self),
            r@ == Seq::<PoolTransfer>::empty(),
    {
        Vec::new()
    }

    /// The seeds with which the pool signs for its token account: the pool prefix, the
    /// token mint and the pool's bump.
    pub fn pool_signer_seeds(&self) -> (r: Vec<Vec<u8>>)
        ensures
            are_signer_seeds(
                r@,
                ascii_bytes(Self::POOL_SEED_PREFIX@),
                self.token@,
                self.bump,
            ),
    {
        proof {
            reveal_strlit("shorting_pool");
        }
        signer_seeds(Self::POOL_SEED_PREFIX, &self.token, self.bump)
    }

    /// The seeds with which the pool's SOL vault signs: the vault prefix, the token mint
    /// and the vault's `bump`.
    pub fn sol_vault_signer_seeds(&self, bump: u8) -> (r: Vec<Vec<u8>>)
        ensures
            are_signer_seeds(
                r@,
                ascii_bytes(Self::SOL_VAULT_PREFIX@),
                self.token@,
                bump,
            ),
    {
        proof {
            reveal_strlit("shorting_pool_sol_vault");
        }
        signer_seeds(Self::SOL_VAULT_PREFIX, &self.token, bump)
    }
}

} // verus!
