# round

A slot sale that runs in numbered rounds, written as a Verus library with an
on-chain program around it.

- `src/` is the verified library. `instructions.rs` holds the instructions
  (`initialize`, `update_fee`, `create_round`, `active_chad_mod`, `buy_slot`,
  `claim_slot`, `withdraw_sol`) as functions from account state to new account
  state and the transfers to make, each with a contract over spec functions;
  `payout.rs` the payout arithmetic, `settle.rs` the settling of chad-mode
  holders when a round opens, `chad.rs` the lookup of a holder's entry,
  `pda.rs` the vault's bump seed, and `laws.rs` the properties proved across
  instructions.
- `app/` is the Anchor program: account layouts and validation, conversion to
  and from the library's types, and the lamport transfers.
- `tests/` runs the instructions on concrete accounts.
