use vstd::prelude::*;

verus! {

/// Seed of the vault account that holds the lamports paid for slots (`b"vault"`).
pub const VAULT_SEED: [u8; 5] = [118, 97, 117, 108, 116];

/// Seed of the global state account (`b"global-state"`).
pub const GLOBAL_STATE_SEED: [u8; 12] = [103, 108, 111, 98, 97, 108, 45, 115, 116, 97, 116, 101];

/// Seed of the round account (`b"round"`).
pub const ROUND_SEED: [u8; 5] = [114, 111, 117, 110, 100];

/// Seed prefix of a user's info account (`b"round-user-info"`).
pub const ROUN_USER_INFO_SEED: [u8; 15] = [114, 111, 117, 110, 100, 45, 117, 115, 101, 114, 45, 105, 110, 102, 111];

} // verus!
