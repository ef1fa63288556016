use vstd::prelude::*;

verus! {

/// The program-derived address and bump seed that `Pubkey::try_find_program_address`
/// finds for the single seed `seed` and the program `program_id` (`None` where it
/// finds none).
pub uninterp spec fn program_address(seed: Seq<u8>, program_id: Seq<u8>) -> Option<(Seq<u8>, u8)>;

/// Calls `solana_program::pubkey::Pubkey::try_find_program_address` with the one seed
/// `seed` and the program id `program_id`, and returns the address's bytes and the
/// bump seed. The contract claims only that the result is a function of the two
/// arguments (the search is a hash computation on them).
#[verifier::external_body]
fn try_find_program_address(seed: &[u8], program_id: [u8; 32]) -> (r: Option<([u8; 32], u8)>)
    ensures
        match r {
            Some((address, bump)) => program_address(seed@, program_id@) == Some((address@, bump)),
            None => program_address(seed@, program_id@) is None,
        },
{
    let program = solana_program::pubkey::Pubkey::new_from_array(program_id);
    match solana_program::pubkey::Pubkey::try_find_program_address(&[seed], &program) {
        Some((address, bump)) => Some((address.to_bytes(), bump)),
        None => None,
    }
}

/// The bump seed with which the vault signs, for the program `program_id`.
pub open spec fn vault_bump_spec(program_id: Seq<u8>) -> Option<u8> {
    match program_address(crate::constants::VAULT_SEED@, program_id) {
        Some((_, bump)) => Some(bump),
        None => None,
    }
}

/// Finds the bump seed of the vault address of the program `program_id`, as
/// `Pubkey::find_program_address(&[VAULT_SEED], program_id)` does.
pub fn vault_bump(program_id: &crate::state::Address) -> (r: Option<u8>)
    ensures
        r == vault_bump_spec(program_id@),
{
    let seed = crate::constants::VAULT_SEED;
    match try_find_program_address(seed.as_slice(), program_id.bytes) {
        Some((_, bump)) => Some(bump),
        None => None,
    }
}

} // verus!
