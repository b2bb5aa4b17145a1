# curve_pool

Verified logic of a Solana bonding-curve token program.

- `src/` is the library, verified with Verus: the pool states (`pool`, `short_pool`),
  what each operation does to them and which transfers it asks for (`transfer`), the
  signer seeds of the pools' program-derived addresses (`seeds`), pool creation
  (`instructions`), and the laws that tie the operations together (`laws`).
- `app/` is the on-chain program around it, written with Anchor: the account layouts,
  the instruction contexts, the floating-point price curve, and the calls into the token
  and system programs that carry out the transfers.
- `tests/` exercises the library on concrete values.
