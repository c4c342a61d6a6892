use vstd::prelude::*;

use crate::error::InstructionError;
use crate::state::VaultState;

verus! {

/// An account owned by the system program that holds lamports and no data:
/// the user's wallet, or the vault.
#[derive(Clone, Copy, Debug)]
pub struct Wallet {
    pub key: [u8; 32],
    pub lamports: u64,
}

/// The per-user state account. `data` is `Some` when the account is owned by
/// the vault program and holds a vault state; `None` when it is a system
/// account (which does not exist on chain while it holds no lamports).
#[derive(Clone, Copy, Debug)]
pub struct StateAccount {
    pub key: [u8; 32],
    pub lamports: u64,
    pub data: Option<VaultState>,
}

/// What the runtime reports of the accounts of an instruction besides their
/// keys and balances: whether the user signed the transaction, the owner of
/// the vault, and the key of the account passed as the system program.
#[derive(Clone, Copy, Debug)]
pub struct AccountFacts {
    pub user_signed: bool,
    pub vault_owner: [u8; 32],
    pub system_program: [u8; 32],
}

/// The accounts that every instruction of the vault touches.
#[derive(Clone, Copy, Debug)]
pub struct Ledger {
    pub user: Wallet,
    pub vault_state: StateAccount,
    pub vault: Wallet,
    pub facts: AccountFacts,
}

/// A movement of lamports through the system program, which the program
/// requests by a cross-program invocation. Where the payer is one of the
/// user's program addresses, `signer_bump` is the bump with which the program
/// signs for it: the signer seeds are the payer's seed, the user's key and
/// that bump. Where the user pays, it is `None` (the user signed already).
#[derive(Clone, Copy, Debug)]
pub struct Transfer {
    pub from: [u8; 32],
    pub to: [u8; 32],
    pub lamports: u64,
    pub signer_bump: Option<u8>,
}

/// All the lamports that the three accounts hold.
pub open spec fn total_lamports(l: Ledger) -> int {
    l.user.lamports + l.vault_state.lamports + l.vault.lamports
}

/// The balances of payer and receiver after the system program moves
/// `amount` lamports between them, or the error it fails with.
pub open spec fn transfer_outcome(from: u64, to: u64, amount: u64) -> Result<(u64, u64), InstructionError> {
    if from < amount {
        Err(InstructionError::ResultWithNegativeLamports)
    } else if to + amount > u64::MAX {
        Err(InstructionError::ArithmeticOverflow)
    } else {
        Ok(((from - amount) as u64, (to + amount) as u64))
    }
}

/// Moves `amount` lamports from one balance to another, as the system
/// program's transfer does.
pub fn move_lamports(from: u64, to: u64, amount: u64) -> (res: Result<(u64, u64), InstructionError>)
    ensures
        res == transfer_outcome(from, to, amount),
{
    if from < amount {
        Err(InstructionError::ResultWithNegativeLamports)
    } else {
        match to.checked_add(amount) {
            Some(sum) => Ok((from - amount, sum)),
            None => Err(InstructionError::ArithmeticOverflow),
        }
    }
}

/// Whether two account keys are the same.
pub fn same_key(a: &[u8; 32], b: &[u8; 32]) -> (res: bool)
    ensures
        res == (a@ == b@),
{
    let mut i: usize = 0;
    while i < 32
        invariant
            i <= 32,
            a@.len() == 32,
            b@.len() == 32,
            forall|j: int| 0 <= j < i ==> a@[j] == b@[j],
        decreases 32 - i,
    {
        if a[i] != b[i] {
            return false;
        }
        i = i + 1;
    }
    assert(a@ =~= b@);
    true
}

} // verus!
