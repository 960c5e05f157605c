# arcswap

A constant-product automated market maker for one native coin and one cw20
token, with liquidity shares, verified with Verus.

- `src/` — the verified library: pricing (`math`), the pool's record
  (`state`), messages (`msg`), chain values (`chain`), the message handlers
  that decide the pool's next state and the transfers to perform
  (`contract`), and the properties proved across them (`laws`).
- `app/` — the CosmWasm contract around the library: JSON messages,
  storage, the liquidity-share registry (cw20-base) and dispatch of the
  transfers the library decides on.
- `tests/` — scenario tests on a simulated ledger, and tests of each
  function.
