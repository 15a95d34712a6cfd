# stablecoin

A verified core for a Solana stablecoin standard made of three on-chain
programs: a stablecoin whose roles are bit masks, a stablecoin whose roles are
named accounts and whose mint is set up with Token-2022 extensions, and the
transfer hook that enforces the pause and the blacklist on every transfer.

- `src/` is the library, checked by Verus: who may do what, how each
  instruction changes its accounts, which Token-2022 calls it makes, how the
  hook reads the stablecoin's accounts from their raw data, and the extra
  accounts it registers. `laws.rs` in each program states the properties that
  tie the instructions together.
- `app/` holds the Anchor programs: account validation, the token-program
  calls and logging around the library.
- `tests/` runs the library on concrete accounts and bytes.
