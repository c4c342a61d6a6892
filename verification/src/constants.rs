use vstd::prelude::*;

verus! {

/// First seed of the per-user state account: the bytes of `"state"`.
pub const STATE_SEED: [u8; 5] = [115u8, 116u8, 97u8, 116u8, 101u8];

/// First seed of the per-user vault account: the bytes of `"vault"`.
pub const VAULT_SEED: [u8; 5] = [118u8, 97u8, 117u8, 108u8, 116u8];

/// The system program's address (`11111111111111111111111111111111`), the
/// owner of wallets and of the vault.
pub const SYSTEM_PROGRAM_ID: [u8; 32] = [
    0u8, 0u8, 0u8, 0u8, 0u8, 0u8, 0u8, 0u8, 0u8, 0u8, 0u8, 0u8, 0u8, 0u8, 0u8, 0u8, 0u8, 0u8, 0u8, 0u8, 0u8, 0u8, 0u8, 0u8, 0u8, 0u8, 0u8, 0u8, 0u8, 0u8, 0u8, 0u8,
];

} // verus!
