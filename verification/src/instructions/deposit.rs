use vstd::prelude::*;

use crate::error::{InstructionError, VaultError};
use crate::instructions::{check_accounts, checked_state};
use crate::ledger::{AccountFacts, move_lamports, transfer_outcome, Ledger, StateAccount, Transfer, Wallet};

verus! {

/// The accounts of a deposit: the signing user, its state account and its vault.
#[derive(Clone, Copy, Debug)]
pub struct Deposit {
    pub user: Wallet,
    pub vault_state: StateAccount,
    pub vault: Wallet,
    pub facts: AccountFacts,
}

impl View for Deposit {
    type V = Ledger;

    open spec fn view(&self) -> Ledger {
        Ledger { user: self.user, vault_state: self.vault_state, vault: self.vault, facts: self.facts }
    }
}

/// The accounts after a deposit of `amount` lamports from the user into the
/// vault, or the error the deposit fails with.
pub open spec fn deposit_outcome(l: Ledger, program_id: Seq<u8>, amount: u64) -> Result<Ledger, InstructionError> {
    match checked_state(l, program_id) {
        Err(e) => Err(e),
        Ok(_) => if amount == 0 {
            Err(InstructionError::Vault(VaultError::InvalidAmount))
        } else {
            match transfer_outcome(l.user.lamports, l.vault.lamports, amount) {
                Err(e) => Err(e),
                Ok((user, vault)) => Ok(Ledger {
                    user: Wallet { key: l.user.key, lamports: user },
                    vault_state: l.vault_state,
                    vault: Wallet { key: l.vault.key, lamports: vault },
                    facts: l.facts,
                }),
            }
        },
    }
}

impl Deposit {
    /// Moves `amount` lamports from the user into the vault. On success the
    /// accounts hold the new balances and the transfer to make is returned;
    /// on failure nothing changes.
    pub fn deposit(&mut self, program_id: &[u8; 32], amount: u64) -> (res: Result<Transfer, InstructionError>)
        ensures
            match deposit_outcome(old(self)@, program_id@, amount) {
                Ok(post) => {
                    &&& final(self)@ == post
                    &&& res == Ok::<Transfer, InstructionError>(Transfer { from: old(self).user.key, to: old(self).vault.key, lamports: amount, signer_bump: None })
                },
                Err(e) => final(self)@ == old(self)@ && res == Err::<Transfer, InstructionError>(e),
            },
    {
        let ledger = Ledger { user: self.user, vault_state: self.vault_state, vault: self.vault, facts: self.facts };
        if let Err(e) = check_accounts(&ledger, program_id) {
            return Err(e);
        }
        if amount == 0 {
            return Err(InstructionError::Vault(VaultError::InvalidAmount));
        }
        match move_lamports(self.user.lamports, self.vault.lamports, amount) {
            Err(e) => Err(e),
            Ok((user, vault)) => {
                self.user.lamports = user;
                self.vault.lamports = vault;
                Ok(Transfer { from: self.user.key, to: self.vault.key, lamports: amount, signer_bump: None })
            },
        }
    }
}

} // verus!
