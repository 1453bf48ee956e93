# blueshift_anchor_amm

A constant-product automated market maker for Solana, with its pool logic
verified by Verus.

- `src/` is the verified library: pool settings (`program`,
  `instructions::config_action`, `instructions::update_config`), initialization
  with the integer square root (`instructions::initialize`), deposits,
  withdrawals and swaps (`instructions::{deposit, withdraw, swap,
  liquidity_action}`), vested positions (`state`), and the token movements each
  instruction asks for (`token`). Every instruction is a function from the
  accounts it reads, as plain values, to the transfers, mints and burns it
  plans, or to the error with which it refuses.
- `app/` is the Anchor program around it: account validation, the clock, the
  constant-product curve, and the calls into the token programs that carry
  out the plans.
- `tests/` runs the library on concrete pools.
