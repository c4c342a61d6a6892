pub mod close;
pub mod deposit;
pub mod initialize;
pub mod withdraw;

use vstd::prelude::*;

use crate::constants::{STATE_SEED, SYSTEM_PROGRAM_ID, VAULT_SEED};
use crate::error::InstructionError;
use crate::ledger::{same_key, AccountFacts, Ledger, StateAccount};
use crate::pda::{create_program_address, program_address};
use crate::state::{decode_state, decoded_state, StateDecodeError, VaultState};

verus! {

/// Whether `address` is the account that `[seed, key, [bump]]` derive.
pub open spec fn derives(seed: Seq<u8>, key: Seq<u8>, bump: u8, program_id: Seq<u8>, address: Seq<u8>) -> bool {
    program_address(seed, key, bump, program_id) == Some(address)
}

/// The check on the user's account: it must have signed the transaction.
pub open spec fn signer_checked(facts: AccountFacts) -> Result<(), InstructionError> {
    if !facts.user_signed { Err(InstructionError::AccountNotSigner) } else { Ok(()) }
}

/// The checks on the vault and the system program, which follow the checks
/// on the user and on the state account: the vault must be owned by the
/// system program, and the account passed as the system program must be it.
pub open spec fn programs_checked(facts: AccountFacts) -> Result<(), InstructionError> {
    if facts.vault_owner@ != SYSTEM_PROGRAM_ID@ {
        Err(InstructionError::AccountNotSystemOwned)
    } else if facts.system_program@ != SYSTEM_PROGRAM_ID@ {
        Err(InstructionError::InvalidProgramId)
    } else {
        Ok(())
    }
}

/// The checks on the kinds of the accounts of an initialization, in order:
/// the user signed, the vault is a system account, the system program is it.
pub open spec fn account_kinds_checked(facts: AccountFacts) -> Result<(), InstructionError> {
    match signer_checked(facts) {
        Err(e) => Err(e),
        Ok(_) => programs_checked(facts),
    }
}

/// The checks that the accounts of a deposit, a withdrawal and a close pass
/// before the handler runs, in order: the user signed; the state account holds
/// a vault state; the vault is a system account and the system program is it;
/// the state account and the vault are the program addresses of the signing
/// user under the bumps that the state stores. On success, the stored state.
pub open spec fn checked_state(l: Ledger, program_id: Seq<u8>) -> Result<VaultState, InstructionError> {
    if !l.facts.user_signed {
        Err(InstructionError::AccountNotSigner)
    } else {
        match l.vault_state.data {
            None => if l.vault_state.lamports == 0 {
                Err(InstructionError::AccountNotInitialized)
            } else {
                Err(InstructionError::AccountOwnedByWrongProgram)
            },
            Some(state) => match programs_checked(l.facts) {
                Err(e) => Err(e),
                Ok(_) => if !derives(STATE_SEED@, l.user.key@, state.state_bump, program_id, l.vault_state.key@) {
                    Err(InstructionError::ConstraintSeeds)
                } else if !derives(VAULT_SEED@, l.user.key@, state.vault_bump, program_id, l.vault.key@) {
                    Err(InstructionError::ConstraintSeeds)
                } else {
                    Ok(state)
                },
            },
        }
    }
}

/// Whether the account with key `address` is the one that `[seed, key, [bump]]`
/// derive under `program_id`.
fn check_derived(seed: &[u8; 5], key: &[u8; 32], bump: u8, program_id: &[u8; 32], address: &[u8; 32]) -> (res: bool)
    ensures
        res == derives(seed@, key@, bump, program_id@, address@),
{
    match create_program_address(seed, key, bump, program_id) {
        Some(derived) => same_key(&derived, address),
        None => false,
    }
}

/// Runs the checks on the vault and the system program.
fn check_programs(facts: &AccountFacts) -> (res: Result<(), InstructionError>)
    ensures
        res == programs_checked(*facts),
{
    if !same_key(&facts.vault_owner, &SYSTEM_PROGRAM_ID) {
        Err(InstructionError::AccountNotSystemOwned)
    } else if !same_key(&facts.system_program, &SYSTEM_PROGRAM_ID) {
        Err(InstructionError::InvalidProgramId)
    } else {
        Ok(())
    }
}

/// Runs the checks on the kinds of the accounts of an initialization.
pub fn check_account_kinds(facts: &AccountFacts) -> (res: Result<(), InstructionError>)
    ensures
        res == account_kinds_checked(*facts),
{
    if !facts.user_signed {
        return Err(InstructionError::AccountNotSigner);
    }
    check_programs(facts)
}

/// Runs the account checks of a deposit, a withdrawal or a close.
pub fn check_accounts(l: &Ledger, program_id: &[u8; 32]) -> (res: Result<VaultState, InstructionError>)
    ensures
        res == checked_state(*l, program_id@),
{
    if !l.facts.user_signed {
        return Err(InstructionError::AccountNotSigner);
    }
    match l.vault_state.data {
        None => if l.vault_state.lamports == 0 {
            Err(InstructionError::AccountNotInitialized)
        } else {
            Err(InstructionError::AccountOwnedByWrongProgram)
        },
        Some(state) => {
            if let Err(e) = check_programs(&l.facts) {
                return Err(e);
            }
            if !check_derived(&STATE_SEED, &l.user.key, state.state_bump, program_id, &l.vault_state.key) {
                Err(InstructionError::ConstraintSeeds)
            } else if !check_derived(&VAULT_SEED, &l.user.key, state.vault_bump, program_id, &l.vault.key) {
                Err(InstructionError::ConstraintSeeds)
            } else {
                Ok(state)
            }
        },
    }
}

/// The error for data of the program's own account that is not a vault state.
pub open spec fn state_error(e: StateDecodeError) -> InstructionError {
    match e {
        StateDecodeError::AccountDiscriminatorNotFound => InstructionError::AccountDiscriminatorNotFound,
        StateDecodeError::AccountDiscriminatorMismatch => InstructionError::AccountDiscriminatorMismatch,
        StateDecodeError::AccountDidNotDeserialize => InstructionError::AccountDidNotDeserialize,
    }
}

/// The state account as the instructions see it, from what the runtime holds
/// of it: when the vault program owns it, its data must be a vault state,
/// which it then holds; an account of another owner holds none.
pub open spec fn read_state(key: [u8; 32], lamports: u64, owner: Seq<u8>, data: Seq<u8>, program_id: Seq<u8>) -> Result<StateAccount, InstructionError> {
    if owner == program_id {
        match decoded_state(data) {
            Ok(state) => Ok(StateAccount { key, lamports, data: Some(state) }),
            Err(e) => Err(state_error(e)),
        }
    } else {
        Ok(StateAccount { key, lamports, data: None })
    }
}

/// Reads the state account from its key, balance, owner and data.
pub fn read_state_account(key: [u8; 32], lamports: u64, owner: &[u8; 32], data: &[u8], program_id: &[u8; 32]) -> (res: Result<StateAccount, InstructionError>)
    ensures
        res == read_state(key, lamports, owner@, data@, program_id@),
{
    if !same_key(owner, program_id) {
        return Ok(StateAccount { key, lamports, data: None });
    }
    match decode_state(data) {
        Ok(state) => Ok(StateAccount { key, lamports, data: Some(state) }),
        Err(StateDecodeError::AccountDiscriminatorNotFound) => Err(InstructionError::AccountDiscriminatorNotFound),
        Err(StateDecodeError::AccountDiscriminatorMismatch) => Err(InstructionError::AccountDiscriminatorMismatch),
        Err(StateDecodeError::AccountDidNotDeserialize) => Err(InstructionError::AccountDidNotDeserialize),
    }
}

} // verus!
