use vstd::prelude::*;

use crate::error::InstructionError;
use crate::constants::VAULT_SEED;
use crate::instructions::{check_accounts, checked_state, derives};
use crate::ledger::{AccountFacts, move_lamports, transfer_outcome, Ledger, StateAccount, Transfer, Wallet};

verus! {

/// The accounts of a close: the signing user, its state account and its vault.
#[derive(Clone, Copy, Debug)]
pub struct Close {
    pub user: Wallet,
    pub vault_state: StateAccount,
    pub vault: Wallet,
    pub facts: AccountFacts,
}

impl View for Close {
    type V = Ledger;

    open spec fn view(&self) -> Ledger {
        Ledger { user: self.user, vault_state: self.vault_state, vault: self.vault, facts: self.facts }
    }
}

/// The accounts after a close: the vault's whole balance goes back to the user,
/// then the state account is closed into the user (its lamports go to the user
/// and it no longer holds a vault state). Or the error the close fails with.
pub open spec fn close_outcome(l: Ledger, program_id: Seq<u8>) -> Result<Ledger, InstructionError> {
    match checked_state(l, program_id) {
        Err(e) => Err(e),
        Ok(_) => match transfer_outcome(l.vault.lamports, l.user.lamports, l.vault.lamports) {
            Err(e) => Err(e),
            Ok((vault, user)) => if user + l.vault_state.lamports > u64::MAX {
                Err(InstructionError::ArithmeticOverflow)
            } else {
                Ok(Ledger {
                    user: Wallet { key: l.user.key, lamports: (user + l.vault_state.lamports) as u64 },
                    vault_state: StateAccount { key: l.vault_state.key, lamports: 0, data: None },
                    vault: Wallet { key: l.vault.key, lamports: vault },
                    facts: l.facts,
                })
            },
        },
    }
}

impl Close {
    /// Empties the vault into the user, the program signing for the vault, and
    /// closes the state account into the user. On success the accounts hold
    /// the new balances and the transfer out of the vault is returned, signed
    /// for the vault with the bump that the state stores (which, with
    /// `"vault"` and the user's key, derives the vault); on failure nothing
    /// changes.
    pub fn close(&mut self, program_id: &[u8; 32]) -> (res: Result<Transfer, InstructionError>)
        ensures
            match close_outcome(old(self)@, program_id@) {
                Ok(post) => {
                    &&& final(self)@ == post
                    &&& res == Ok::<Transfer, InstructionError>(Transfer {
                        from: old(self).vault.key,
                        to: old(self).user.key,
                        lamports: old(self).vault.lamports,
                        signer_bump: Some(old(self).vault_state.data->Some_0.vault_bump),
                    })
                },
                Err(e) => final(self)@ == old(self)@ && res == Err::<Transfer, InstructionError>(e),
            },
            res is Ok ==> derives(VAULT_SEED@, old(self).user.key@, old(self).vault_state.data->Some_0.vault_bump, program_id@, old(self).vault.key@),
    {
        let ledger = Ledger { user: self.user, vault_state: self.vault_state, vault: self.vault, facts: self.facts };
        let state = match check_accounts(&ledger, program_id) {
            Ok(state) => state,
            Err(e) => return Err(e),
        };
        let emptied = self.vault.lamports;
        match move_lamports(self.vault.lamports, self.user.lamports, emptied) {
            Err(e) => Err(e),
            Ok((vault, user)) => match user.checked_add(self.vault_state.lamports) {
                None => Err(InstructionError::ArithmeticOverflow),
                Some(refunded) => {
                    self.user.lamports = refunded;
                    self.vault.lamports = vault;
                    self.vault_state.lamports = 0;
                    self.vault_state.data = None;
                    Ok(Transfer { from: self.vault.key, to: self.user.key, lamports: emptied, signer_bump: Some(state.vault_bump) })
                },
            },
        }
    }
}

} // verus!
