# omnipair-amm-sdk

Swap quotes and swap accounts for Omnipair pools, verified with Verus.

- `src/`: the library. It reads the state of a pool from its account, quotes swaps against its
  reserves, derives the addresses that belong to it, and lists the accounts of a swap. Every
  function states in its contract what it returns and when it refuses; `src/laws.rs` states what
  follows for the library as a whole.
- `app/`: the pool behind the interface of the Jupiter router.
- `tests/`: the library on concrete values.

What is trusted: the functions marked `external_body` in `src/wire.rs`, `src/program_address.rs`
and `src/decimal.rs`, which call `borsh` and `Pubkey` through `anchor-lang`, and `rust_decimal`.
