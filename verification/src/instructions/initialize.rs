use vstd::prelude::*;

use crate::constants::{STATE_SEED, VAULT_SEED};
use crate::error::InstructionError;
use crate::instructions::{account_kinds_checked, check_account_kinds, checked_state};
use crate::ledger::{AccountFacts, move_lamports, same_key, transfer_outcome, Ledger, StateAccount, Transfer, Wallet};
use crate::pda::{canonical_program_address, find_program_address};
use crate::state::{encode_state, state_bytes, VaultState, VAULT_STATE_SPACE};

verus! {

/// The accounts of an initialization: the signing user, who pays, the state
/// account to create and the vault to fund.
#[derive(Clone, Copy, Debug)]
pub struct Initialize {
    pub user: Wallet,
    pub vault_state: StateAccount,
    pub vault: Wallet,
    pub facts: AccountFacts,
}

impl View for Initialize {
    type V = Ledger;

    open spec fn view(&self) -> Ledger {
        Ledger { user: self.user, vault_state: self.vault_state, vault: self.vault, facts: self.facts }
    }
}

/// The creation of the state account, which the program requests from the
/// system program: the user pays `funding` into the account (the program
/// signing for the account's address), the system program gives the account
/// `space` bytes of data and makes `owner` its owner, and the program writes
/// `data` into those bytes.
#[derive(Debug)]
pub struct StateCreation {
    pub funding: Transfer,
    pub space: u64,
    pub owner: [u8; 32],
    pub data: Vec<u8>,
}

/// What the user pays into the state account to create it, given what the
/// account already holds and the rent-exempt minimum `rent` of its data: the
/// whole minimum into an empty account; into one that already holds lamports,
/// what it lacks of the minimum (counted as at least one lamport).
pub open spec fn state_funding(lamports: u64, rent: u64) -> u64 {
    if lamports == 0 {
        rent
    } else {
        let needed: u64 = if rent == 0 { 1 } else { rent };
        if needed > lamports { (needed - lamports) as u64 } else { 0 }
    }
}

/// The accounts after an initialization, or the error it fails with. The
/// user must have signed, the vault must be a system account and the system
/// program the right one. The state account must be the canonical program
/// address of `["state", user]` and not hold a vault state yet; it is created
/// at the user's expense with its rent-exempt minimum `state_rent`. The vault
/// must be the canonical program address of `["vault", user]`; the user pays
/// `vault_rent`, the vault's rent-exempt minimum, into it. The state then
/// records both bumps.
pub open spec fn initialize_outcome(l: Ledger, program_id: Seq<u8>, vault_rent: u64, state_rent: u64) -> Result<Ledger, InstructionError> {
    match account_kinds_checked(l.facts) {
        Err(e) => Err(e),
        Ok(_) => match canonical_program_address(STATE_SEED@, l.user.key@, program_id) {
            None => Err(InstructionError::BumpNotFound),
            Some((state_address, state_bump)) => if state_address != l.vault_state.key@ {
                Err(InstructionError::ConstraintSeeds)
            } else if l.vault_state.data is Some {
                Err(InstructionError::AccountAlreadyInUse)
            } else {
                match transfer_outcome(l.user.lamports, l.vault_state.lamports, state_funding(l.vault_state.lamports, state_rent)) {
                    Err(e) => Err(e),
                    Ok((user, state)) => match canonical_program_address(VAULT_SEED@, l.user.key@, program_id) {
                        None => Err(InstructionError::BumpNotFound),
                        Some((vault_address, vault_bump)) => if vault_address != l.vault.key@ {
                            Err(InstructionError::ConstraintSeeds)
                        } else {
                            match transfer_outcome(user, l.vault.lamports, vault_rent) {
                                Err(e) => Err(e),
                                Ok((user, vault)) => Ok(Ledger {
                                    user: Wallet { key: l.user.key, lamports: user },
                                    vault_state: StateAccount {
                                        key: l.vault_state.key,
                                        lamports: state,
                                        data: Some(VaultState { vault_bump, state_bump }),
                                    },
                                    vault: Wallet { key: l.vault.key, lamports: vault },
                                    facts: l.facts,
                                }),
                            }
                        },
                    },
                }
            },
        },
    }
}

/// Computes `state_funding`.
fn funding_of(lamports: u64, rent: u64) -> (res: u64)
    ensures
        res == state_funding(lamports, rent),
{
    if lamports == 0 {
        rent
    } else {
        let needed: u64 = if rent == 0 { 1 } else { rent };
        if needed > lamports { needed - lamports } else { 0 }
    }
}

impl Initialize {
    /// Creates the user's state account and funds the vault with its
    /// rent-exempt minimum. `vault_rent` and `state_rent` are the rent-exempt
    /// minimums of the vault (no data) and of the state account. On success
    /// the accounts hold the new balances and the state, and they pass the
    /// checks of the later instructions. Returned are the creation of the
    /// state account (the user's payment into it, signed for the account with
    /// the bump found for it; `VAULT_STATE_SPACE` bytes; the vault program as
    /// owner; the encoded state as data) and then the user's payment into the
    /// vault, which stays a system account without data. On failure nothing
    /// changes.
    pub fn initialize(&mut self, program_id: &[u8; 32], vault_rent: u64, state_rent: u64) -> (res: Result<(StateCreation, Transfer), InstructionError>)
        ensures
            match initialize_outcome(old(self)@, program_id@, vault_rent, state_rent) {
                Ok(post) => {
                    &&& final(self)@ == post
                    &&& res matches Ok((creation, funding)) && {
                        &&& creation.funding == Transfer {
                            from: old(self).user.key,
                            to: old(self).vault_state.key,
                            lamports: state_funding(old(self).vault_state.lamports, state_rent),
                            signer_bump: Some(post.vault_state.data->Some_0.state_bump),
                        }
                        &&& creation.space == VAULT_STATE_SPACE
                        &&& creation.owner@ == program_id@
                        &&& creation.data@ == state_bytes(post.vault_state.data->Some_0)
                        &&& funding == Transfer { from: old(self).user.key, to: old(self).vault.key, lamports: vault_rent, signer_bump: None }
                    }
                },
                Err(e) => final(self)@ == old(self)@ && (res matches Err(r) && r == e),
            },
            res is Ok ==> (final(self).vault_state.data matches Some(state) && checked_state(final(self)@, program_id@) == Ok::<VaultState, InstructionError>(state)),
    {
        if let Err(e) = check_account_kinds(&self.facts) {
            return Err(e);
        }
        let (state_address, state_bump) = match find_program_address(&STATE_SEED, &self.user.key, program_id) {
            Some(found) => found,
            None => return Err(InstructionError::BumpNotFound),
        };
        if !same_key(&state_address, &self.vault_state.key) {
            return Err(InstructionError::ConstraintSeeds);
        }
        if self.vault_state.data.is_some() {
            return Err(InstructionError::AccountAlreadyInUse);
        }
        let funding = funding_of(self.vault_state.lamports, state_rent);
        let (user, state) = match move_lamports(self.user.lamports, self.vault_state.lamports, funding) {
            Ok(balances) => balances,
            Err(e) => return Err(e),
        };
        let (vault_address, vault_bump) = match find_program_address(&VAULT_SEED, &self.user.key, program_id) {
            Some(found) => found,
            None => return Err(InstructionError::BumpNotFound),
        };
        if !same_key(&vault_address, &self.vault.key) {
            return Err(InstructionError::ConstraintSeeds);
        }
        let (user, vault) = match move_lamports(user, self.vault.lamports, vault_rent) {
            Ok(balances) => balances,
            Err(e) => return Err(e),
        };
        let recorded = VaultState { vault_bump, state_bump };
        self.user.lamports = user;
        self.vault_state.lamports = state;
        self.vault_state.data = Some(recorded);
        self.vault.lamports = vault;
        let creation = StateCreation {
            funding: Transfer { from: self.user.key, to: self.vault_state.key, lamports: funding, signer_bump: Some(state_bump) },
            space: VAULT_STATE_SPACE as u64,
            owner: *program_id,
            data: encode_state(recorded),
        };
        Ok((creation, Transfer { from: self.user.key, to: self.vault.key, lamports: vault_rent, signer_bump: None }))
    }
}

} // verus!
