use vstd::prelude::*;

use anchor_lang::prelude::Pubkey;

verus! {

/// The program address that `[seed, key, [bump]]` derive under `program_id`,
/// or `None` where the hash of those seeds lies on the ed25519 curve.
pub uninterp spec fn program_address(seed: Seq<u8>, key: Seq<u8>, bump: u8, program_id: Seq<u8>) -> Option<Seq<u8>>;

/// The canonical program address of `[seed, key]` under `program_id` and its
/// bump, or `None` where no bump gives an address off the curve.
pub uninterp spec fn canonical_program_address(seed: Seq<u8>, key: Seq<u8>, program_id: Seq<u8>) -> Option<(Seq<u8>, u8)>;

/// Calls `Pubkey::create_program_address` on the seeds `[seed, key, [bump]]`.
/// The contract claims only that the result is a function of the seeds and the
/// program id (named `program_address`); what that function is (a SHA-256 hash
/// and a curve check) is left unsaid.
#[verifier::external_body]
pub(crate) fn create_program_address(seed: &[u8; 5], key: &[u8; 32], bump: u8, program_id: &[u8; 32]) -> (res: Option<[u8; 32]>)
    ensures
        match res {
            Some(address) => program_address(seed@, key@, bump, program_id@) == Some(address@),
            None => program_address(seed@, key@, bump, program_id@) is None,
        },
{
    let bump_seed = [bump];
    match Pubkey::create_program_address(&[&seed[..], &key[..], &bump_seed[..]], &Pubkey::new_from_array(*program_id)) {
        Ok(address) => Some(address.to_bytes()),
        Err(_) => None,
    }
}

/// Calls `Pubkey::try_find_program_address` on the seeds `[seed, key]`. The
/// contract claims that the result is a function of the seeds and the program
/// id (named `canonical_program_address`), and, as the source shows (the
/// search returns the first address that `create_program_address` accepts),
/// that the address found is the one that `create_program_address` derives
/// with the bump found. That the bump is the largest such one is left unsaid.
#[verifier::external_body]
pub(crate) fn find_program_address(seed: &[u8; 5], key: &[u8; 32], program_id: &[u8; 32]) -> (res: Option<([u8; 32], u8)>)
    ensures
        match res {
            Some((address, bump)) => {
                &&& canonical_program_address(seed@, key@, program_id@) == Some((address@, bump))
                &&& program_address(seed@, key@, bump, program_id@) == Some(address@)
            },
            None => canonical_program_address(seed@, key@, program_id@) is None,
        },
{
    match Pubkey::try_find_program_address(&[&seed[..], &key[..]], &Pubkey::new_from_array(*program_id)) {
        Some((address, bump)) => Some((address.to_bytes(), bump)),
        None => None,
    }
}

} // verus!
