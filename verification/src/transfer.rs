use vstd::prelude::*;

verus! {

/// A movement of tokens or lamports that an operation on a pool asks the runtime to make.
///
/// "The user" is the signer of the instruction; the pool's token account and its SOL
/// vault are the pool's side.
#[derive(Debug, Clone, Copy, PartialEq, Eq, Structural)]
pub enum PoolTransfer {
    /// Tokens from the pool's token account to the user's, signed with the pool's seeds.
    TokenFromPool { amount: u64 },
    /// Tokens from the user's token account to the pool's, signed by the user.
    TokenToPool { amount: u64 },
    /// Lamports from the user to the pool's SOL vault, signed by the user.
    SolToPool { amount: u64 },
    /// Lamports from the pool's SOL vault to the user, signed with the vault's seeds and `bump`.
    SolFromPool { amount: u64, bump: u8 },
}

/// Lamports that one transfer moves into the pool's SOL vault.
pub open spec fn sol_in(t: PoolTransfer) -> int {
    match t {
        PoolTransfer::SolToPool { amount } => amount as int,
        _ => 0,
    }
}

/// Lamports that one transfer moves out of the pool's SOL vault.
pub open spec fn sol_out(t: PoolTransfer) -> int {
    match t {
        PoolTransfer::SolFromPool { amount, .. } => amount as int,
        _ => 0,
    }
}

/// Tokens that one transfer moves into the pool's token account.
pub open spec fn tokens_in(t: PoolTransfer) -> int {
    match t {
        PoolTransfer::TokenToPool { amount } => amount as int,
        _ => 0,
    }
}

/// Tokens that one transfer moves out of the pool's token account.
pub open spec fn tokens_out(t: PoolTransfer) -> int {
    match t {
        PoolTransfer::TokenFromPool { amount } => amount as int,
        _ => 0,
    }
}

/// The sum of `f` over a sequence of transfers.
pub open spec fn total(ts: Seq<PoolTransfer>, f: spec_fn(PoolTransfer) -> int) -> int
    decreases ts.len(),
{
    if ts.len() == 0 {
        0
    } else {
        total(ts.drop_last(), f) + f(ts.last())
    }
}

/// Lamports that a sequence of transfers moves into the pool's SOL vault.
pub open spec fn sol_into_pool(ts: Seq<PoolTransfer>) -> int {
    total(ts, |t: PoolTransfer| sol_in(t))
}

/// Lamports that a sequence of transfers moves out of the pool's SOL vault.
pub open spec fn sol_out_of_pool(ts: Seq<PoolTransfer>) -> int {
    total(ts, |t: PoolTransfer| sol_out(t))
}

/// Tokens that a sequence of transfers moves into the pool's token account.
pub open spec fn tokens_into_pool(ts: Seq<PoolTransfer>) -> int {
    total(ts, |t: PoolTransfer| tokens_in(t))
}

/// Tokens that a sequence of transfers moves out of the pool's token account.
pub open spec fn tokens_out_of_pool(ts: Seq<PoolTransfer>) -> int {
    total(ts, |t: PoolTransfer| tokens_out(t))
}

/// The sum over two transfers is the sum of their two values.
pub proof fn lemma_total_of_pair(a: PoolTransfer, b: PoolTransfer, f: spec_fn(PoolTransfer) -> int)
    ensures
        total(seq![a, b], f) == f(a) + f(b),
{
    let s = seq![a, b];
    let one = seq![a];
    assert(one.drop_last() =~= Seq::<PoolTransfer>::empty());
    assert(one.last() == a);
    assert(total(one, f) == total(one.drop_last(), f) + f(a));
    assert(total(one, f) == f(a));
    assert(s.drop_last() =~= one);
    assert(s.last() == b);
}

} // verus!
