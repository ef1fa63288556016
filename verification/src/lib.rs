//! The round program: a slot sale that runs in numbered rounds.
//!
//! Each round `n` offers `2^(n-1)` slots at a fixed price. A buyer's slots
//! become claimable one or two rounds later, paid out at `(2000 - fee)` per
//! mille, and holders who switch on "chad mode" are re-invested automatically
//! each time the owner opens a new round.
//!
//! The instructions here compute the new account state and the lamport
//! transfers that an instruction makes; the caller performs the transfers.

pub mod chad;
pub mod constants;
pub mod error;
pub mod instructions;
pub mod laws;
pub mod payout;
pub mod pda;
pub mod settle;
pub mod state;
