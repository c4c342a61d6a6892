use vstd::prelude::*;

use crate::error::{InstructionError, VaultError};
use crate::constants::VAULT_SEED;
use crate::instructions::{check_accounts, checked_state, derives};
use crate::ledger::{AccountFacts, move_lamports, transfer_outcome, Ledger, StateAccount, Transfer, Wallet};

verus! {

/// The accounts of a withdrawal: the signing user, its state account and its vault.
#[derive(Clone, Copy, Debug)]
pub struct Withdraw {
    pub user: Wallet,
    pub vault_state: StateAccount,
    pub vault: Wallet,
    pub facts: AccountFacts,
}

impl View for Withdraw {
    type V = Ledger;

    open spec fn view(&self) -> Ledger {
        Ledger { user: self.user, vault_state: self.vault_state, vault: self.vault, facts: self.facts }
    }
}

/// Whether the vault can pay out `amount` lamports and still hold its
/// rent-exempt minimum `rent_exempt`.
pub open spec fn leaves_rent_exempt(vault: u64, amount: u64, rent_exempt: u64) -> bool {
    amount <= vault && vault - amount >= rent_exempt
}

/// The accounts after a withdrawal of `amount` lamports from the vault back to
/// the user, where `rent_exempt` is the vault's rent-exempt minimum, or the
/// error the withdrawal fails with.
pub open spec fn withdraw_outcome(l: Ledger, program_id: Seq<u8>, amount: u64, rent_exempt: u64) -> Result<Ledger, InstructionError> {
    match checked_state(l, program_id) {
        Err(e) => Err(e),
        Ok(_) => if amount == 0 {
            Err(InstructionError::Vault(VaultError::InvalidAmount))
        } else if !leaves_rent_exempt(l.vault.lamports, amount, rent_exempt) {
            Err(InstructionError::Vault(VaultError::InsufficientVaultBalance))
        } else {
            match transfer_outcome(l.vault.lamports, l.user.lamports, amount) {
                Err(e) => Err(e),
                Ok((vault, user)) => Ok(Ledger {
                    user: Wallet { key: l.user.key, lamports: user },
                    vault_state: l.vault_state,
                    vault: Wallet { key: l.vault.key, lamports: vault },
                    facts: l.facts,
                }),
            }
        },
    }
}

impl Withdraw {
    /// Moves `amount` lamports from the vault back to the user, the program
    /// signing for the vault. `rent_exempt` is the rent-exempt minimum of the
    /// vault, which it must keep. On success the accounts hold the new
    /// balances and the transfer to make is returned, signed for the vault with
    /// the bump that the state stores (which, with `"vault"` and the user's
    /// key, derives the vault); on failure nothing changes.
    pub fn withdraw(&mut self, program_id: &[u8; 32], amount: u64, rent_exempt: u64) -> (res: Result<Transfer, InstructionError>)
        ensures
            match withdraw_outcome(old(self)@, program_id@, amount, rent_exempt) {
                Ok(post) => {
                    &&& final(self)@ == post
                    &&& res == Ok::<Transfer, InstructionError>(Transfer {
                        from: old(self).vault.key,
                        to: old(self).user.key,
                        lamports: amount,
                        signer_bump: Some(old(self).vault_state.data->Some_0.vault_bump),
                    })
                },
                Err(e) => final(self)@ == old(self)@ && res == Err::<Transfer, InstructionError>(e),
            },
            res is Ok ==> derives(VAULT_SEED@, old(self).user.key@, old(self).vault_state.data->Some_0.vault_bump, program_id@, old(self).vault.key@),
    {
        let ledger = Ledger { user: self.user, vault_state: self.vault_state, vault: self.vault, facts: self.facts };
        let state = match check_accounts(&ledger, program_id) {
            Ok(state) => state,
            Err(e) => return Err(e),
        };
        if amount == 0 {
            return Err(InstructionError::Vault(VaultError::InvalidAmount));
        }
        if amount > self.vault.lamports || self.vault.lamports - amount < rent_exempt {
            return Err(InstructionError::Vault(VaultError::InsufficientVaultBalance));
        }
        match move_lamports(self.vault.lamports, self.user.lamports, amount) {
            Err(e) => Err(e),
            Ok((vault, user)) => {
                self.user.lamports = user;
                self.vault.lamports = vault;
                Ok(Transfer { from: self.vault.key, to: self.user.key, lamports: amount, signer_bump: Some(state.vault_bump) })
            },
        }
    }
}

} // verus!
