# blindbet

A binary prediction market whose prices come from a logarithmic market
scoring rule (LMSR) evaluated in fixed point, with the book kept confidential
by an Arcium MPC network on Solana.

- `src/` is the verified library (Verus):
  - `lmsr` — the fixed-point cost function and the market maker's state;
  - `circuits` — what the confidential instructions do to the decrypted
    market and bet (create, buy, sell);
  - `state`, `error` — the market and wager accounts and the program's errors;
  - `computation` — arguments, callback accounts and outputs exchanged with
    the network, and the offsets of the computation definitions;
  - `program` — each instruction of the Solana program as a transition from
    accounts and inputs to new accounts and the work to hand on;
  - `address` — the seeds of the program-derived accounts and the checks
    that an account is the one they derive.
- `app/` is the Anchor program around it: account validation, the calls to
  the Arcium and system programs, and the clock.
- `tests/` exercises the library on concrete values.
