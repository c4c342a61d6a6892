use anchor_lang::prelude::{Pubkey, Rent};
use q3_26_vault::constants::{STATE_SEED, VAULT_SEED};
use q3_26_vault::error::{InstructionError, VaultError};
use q3_26_vault::instructions::close::Close;
use q3_26_vault::instructions::deposit::Deposit;
use q3_26_vault::instructions::initialize::{Initialize, StateCreation};
use q3_26_vault::instructions::read_state_account;
use q3_26_vault::instructions::withdraw::Withdraw;
use q3_26_vault::ledger::{AccountFacts, Ledger, StateAccount, Transfer, Wallet};
use q3_26_vault::constants::SYSTEM_PROGRAM_ID;
use q3_26_vault::state::{encode_state, VaultState, VAULT_STATE_SPACE};

const PROGRAM_ID: [u8; 32] = [3u8; 32];
const AIRDROP: u64 = 10_000_000_000;
const DEPOSIT: u64 = 1_000_000;
const WITHDRAW: u64 = 1_000_000;

fn pda(seed: &[u8], user: &[u8; 32]) -> ([u8; 32], u8) {
    let (address, bump) =
        Pubkey::find_program_address(&[seed, &user[..]], &Pubkey::new_from_array(PROGRAM_ID));
    (address.to_bytes(), bump)
}

fn rent_exempt() -> u64 {
    Rent::default().minimum_balance(0)
}

fn state_rent() -> u64 {
    Rent::default().minimum_balance(VAULT_STATE_SPACE)
}

/// A funded user and its two (not yet created) program accounts.
fn setup_for(user_key: [u8; 32]) -> Ledger {
    Ledger {
        user: Wallet { key: user_key, lamports: AIRDROP },
        vault_state: StateAccount { key: pda(&STATE_SEED, &user_key).0, lamports: 0, data: None },
        vault: Wallet { key: pda(&VAULT_SEED, &user_key).0, lamports: 0 },
        facts: AccountFacts {
            user_signed: true,
            vault_owner: SYSTEM_PROGRAM_ID,
            system_program: SYSTEM_PROGRAM_ID,
        },
    }
}

fn setup() -> Ledger {
    setup_for([7u8; 32])
}

fn initialize(l: &mut Ledger) -> Result<(StateCreation, Transfer), InstructionError> {
    let mut ix = Initialize { user: l.user, vault_state: l.vault_state, vault: l.vault, facts: l.facts };
    let res = ix.initialize(&PROGRAM_ID, rent_exempt(), state_rent());
    l.user = ix.user;
    l.vault_state = ix.vault_state;
    l.vault = ix.vault;
    res
}

fn deposit(l: &mut Ledger, amount: u64) -> Result<Transfer, InstructionError> {
    let mut ix = Deposit { user: l.user, vault_state: l.vault_state, vault: l.vault, facts: l.facts };
    let res = ix.deposit(&PROGRAM_ID, amount);
    l.user = ix.user;
    l.vault_state = ix.vault_state;
    l.vault = ix.vault;
    res
}

fn withdraw(l: &mut Ledger, amount: u64) -> Result<Transfer, InstructionError> {
    let mut ix = Withdraw { user: l.user, vault_state: l.vault_state, vault: l.vault, facts: l.facts };
    let res = ix.withdraw(&PROGRAM_ID, amount, rent_exempt());
    l.user = ix.user;
    l.vault_state = ix.vault_state;
    l.vault = ix.vault;
    res
}

fn close(l: &mut Ledger) -> Result<Transfer, InstructionError> {
    let mut ix = Close { user: l.user, vault_state: l.vault_state, vault: l.vault, facts: l.facts };
    let res = ix.close(&PROGRAM_ID);
    l.user = ix.user;
    l.vault_state = ix.vault_state;
    l.vault = ix.vault;
    res
}

fn total(l: &Ledger) -> u128 {
    l.user.lamports as u128 + l.vault_state.lamports as u128 + l.vault.lamports as u128
}

fn same_ledger(a: &Ledger, b: &Ledger) -> bool {
    a.user.key == b.user.key
        && a.user.lamports == b.user.lamports
        && a.vault.key == b.vault.key
        && a.vault.lamports == b.vault.lamports
        && a.vault_state.key == b.vault_state.key
        && a.vault_state.lamports == b.vault_state.lamports
        && a.vault_state.data == b.vault_state.data
}

#[test]
fn close_succeeds() {
    let mut l = setup();
    initialize(&mut l).expect("initialize should succeed");
    deposit(&mut l, DEPOSIT).expect("deposit should succeed");

    let user_before = l.user.lamports;
    let vault_before = l.vault.lamports;
    let state_rent = l.vault_state.lamports;

    let transfer = close(&mut l).expect("close should succeed");

    assert_eq!(l.vault.lamports, 0);
    assert_eq!(l.vault_state.lamports, 0);
    assert!(l.vault_state.data.is_none());
    assert!(l.user.lamports > user_before);
    assert_eq!(l.user.lamports, user_before + vault_before + state_rent);
    assert_eq!(transfer.lamports, vault_before);
    assert_eq!(transfer.from, l.vault.key);
    assert_eq!(transfer.to, l.user.key);
    assert_eq!(transfer.signer_bump, Some(pda(&VAULT_SEED, &l.user.key).1));
}

#[test]
fn close_twice_fails() {
    let mut l = setup();
    initialize(&mut l).expect("initialize should succeed");
    close(&mut l).expect("first close should succeed");

    assert_eq!(close(&mut l).unwrap_err(), InstructionError::AccountNotInitialized);
}

#[test]
fn deposit_after_close_fails() {
    let mut l = setup();
    initialize(&mut l).expect("initialize should succeed");
    close(&mut l).expect("close should succeed");

    assert_eq!(deposit(&mut l, DEPOSIT).unwrap_err(), InstructionError::AccountNotInitialized);
}

#[test]
fn deposit_succeeds() {
    let mut l = setup();
    initialize(&mut l).expect("initialize should succeed");

    let vault_before = l.vault.lamports;
    let user_before = l.user.lamports;

    let transfer = deposit(&mut l, DEPOSIT).expect("deposit should succeed");

    assert_eq!(l.vault.lamports, vault_before + DEPOSIT);
    assert!(l.user.lamports <= user_before - DEPOSIT);
    assert_eq!(transfer.lamports, DEPOSIT);
    assert_eq!(transfer.signer_bump, None);
    assert_eq!(transfer.from, l.user.key);
    assert_eq!(transfer.to, l.vault.key);
}

#[test]
fn deposit_accumulates() {
    let mut l = setup();
    initialize(&mut l).expect("initialize should succeed");

    let vault_before = l.vault.lamports;
    deposit(&mut l, DEPOSIT).expect("first deposit should succeed");
    deposit(&mut l, DEPOSIT).expect("second deposit should succeed");

    assert_eq!(l.vault.lamports, vault_before + 2 * DEPOSIT);
}

#[test]
fn deposit_zero_fails() {
    let mut l = setup();
    initialize(&mut l).expect("initialize should succeed");

    let vault_before = l.vault.lamports;

    assert_eq!(deposit(&mut l, 0).unwrap_err(), InstructionError::Vault(VaultError::InvalidAmount));
    assert_eq!(l.vault.lamports, vault_before, "vault must be untouched");
}

#[test]
fn deposit_without_initialize_fails() {
    let mut l = setup();

    assert_eq!(deposit(&mut l, DEPOSIT).unwrap_err(), InstructionError::AccountNotInitialized);
}

#[test]
fn initialize_succeeds() {
    let mut l = setup();

    let (creation, vault_funding) = initialize(&mut l).expect("initialize should succeed");
    let state_funding = creation.funding;

    // The bumps stored in state are the canonical ones for both program addresses.
    let state = l.vault_state.data.expect("state must exist");
    let (_, state_bump) = pda(&STATE_SEED, &l.user.key);
    let (_, vault_bump) = pda(&VAULT_SEED, &l.user.key);
    assert_eq!(state.state_bump, state_bump);
    assert_eq!(state.vault_bump, vault_bump);

    // The vault is funded with exactly the rent-exempt minimum, nothing more.
    assert_eq!(l.vault.lamports, rent_exempt());
    assert_eq!(vault_funding.lamports, rent_exempt());
    assert_eq!(vault_funding.from, l.user.key);
    assert_eq!(vault_funding.to, l.vault.key);
    assert_eq!(state_funding.lamports, state_rent());
    assert_eq!(state_funding.from, l.user.key);
    assert_eq!(state_funding.to, l.vault_state.key);
    assert_eq!(state_funding.signer_bump, Some(state_bump));
    assert_eq!(vault_funding.signer_bump, None);
    // The created state account: ten bytes, owned by the program, holding the state.
    assert_eq!(creation.space, 10);
    assert_eq!(creation.owner, PROGRAM_ID);
    assert_eq!(creation.data, encode_state(state));
    assert_eq!(l.vault_state.lamports, state_rent());
    assert_eq!(l.user.lamports, AIRDROP - rent_exempt() - state_rent());
}

#[test]
fn initialize_twice_fails() {
    let mut l = setup();

    initialize(&mut l).expect("first initialize should succeed");

    assert_eq!(initialize(&mut l).unwrap_err(), InstructionError::AccountAlreadyInUse);
}

#[test]
fn withdraw_succeeds() {
    let mut l = setup();
    initialize(&mut l).expect("initialize should succeed");
    deposit(&mut l, DEPOSIT).expect("deposit should succeed");

    let vault_before = l.vault.lamports;
    let user_before = l.user.lamports;

    let transfer = withdraw(&mut l, WITHDRAW).expect("withdraw should succeed");

    assert_eq!(l.vault.lamports, vault_before - WITHDRAW);
    assert!(l.user.lamports > user_before);
    assert_eq!(transfer.from, l.vault.key);
    assert_eq!(transfer.to, l.user.key);
    assert_eq!(transfer.lamports, WITHDRAW);
    assert_eq!(transfer.signer_bump, Some(pda(&VAULT_SEED, &l.user.key).1));
}

#[test]
fn withdraw_down_to_rent_exempt_succeeds() {
    let mut l = setup();
    initialize(&mut l).expect("initialize should succeed");
    deposit(&mut l, DEPOSIT).expect("deposit should succeed");

    withdraw(&mut l, DEPOSIT).expect("withdraw should succeed");

    assert_eq!(l.vault.lamports, rent_exempt());
}

#[test]
fn withdraw_zero_fails() {
    let mut l = setup();
    initialize(&mut l).expect("initialize should succeed");
    deposit(&mut l, DEPOSIT).expect("deposit should succeed");

    let vault_before = l.vault.lamports;

    assert_eq!(withdraw(&mut l, 0).unwrap_err(), InstructionError::Vault(VaultError::InvalidAmount));
    assert_eq!(l.vault.lamports, vault_before, "vault must be untouched");
}

#[test]
fn withdraw_breaking_rent_exemption_fails() {
    let mut l = setup();
    initialize(&mut l).expect("initialize should succeed");
    deposit(&mut l, DEPOSIT).expect("deposit should succeed");

    let vault_before = l.vault.lamports;
    let withdrawable = vault_before - rent_exempt();

    assert_eq!(
        withdraw(&mut l, withdrawable + 1).unwrap_err(),
        InstructionError::Vault(VaultError::InsufficientVaultBalance)
    );
    assert_eq!(l.vault.lamports, vault_before, "vault must be untouched");
}

#[test]
fn withdraw_more_than_balance_fails() {
    let mut l = setup();
    initialize(&mut l).expect("initialize should succeed");
    deposit(&mut l, DEPOSIT).expect("deposit should succeed");

    let vault_before = l.vault.lamports;

    assert_eq!(
        withdraw(&mut l, vault_before + 1).unwrap_err(),
        InstructionError::Vault(VaultError::InsufficientVaultBalance)
    );
    assert_eq!(l.vault.lamports, vault_before, "vault must be untouched");
}

#[test]
fn withdraw_by_other_user_fails() {
    let mut l = setup();
    initialize(&mut l).expect("initialize should succeed");
    deposit(&mut l, DEPOSIT).expect("deposit should succeed");

    let vault_before = l.vault.lamports;
    let other = Wallet { key: [9u8; 32], lamports: AIRDROP };

    let mut ix = Withdraw { user: other, vault_state: l.vault_state, vault: l.vault, facts: l.facts };
    let res = ix.withdraw(&PROGRAM_ID, DEPOSIT, rent_exempt());

    assert_eq!(res.unwrap_err(), InstructionError::ConstraintSeeds);
    assert_eq!(ix.vault.lamports, vault_before, "vault must be untouched");
    assert_eq!(ix.user.lamports, AIRDROP);
}

// ----- further cases -----

#[test]
fn instructions_conserve_lamports() {
    let mut l = setup();
    let start = total(&l);
    initialize(&mut l).unwrap();
    assert_eq!(total(&l), start);
    deposit(&mut l, 5 * DEPOSIT).unwrap();
    assert_eq!(total(&l), start);
    withdraw(&mut l, 3 * DEPOSIT).unwrap();
    assert_eq!(total(&l), start);
    close(&mut l).unwrap();
    assert_eq!(total(&l), start);
    assert_eq!(l.user.lamports, AIRDROP);
}

#[test]
fn withdraw_undoes_deposit() {
    let mut l = setup();
    initialize(&mut l).unwrap();
    let before = l;
    deposit(&mut l, 123_456).unwrap();
    withdraw(&mut l, 123_456).unwrap();
    assert!(same_ledger(&l, &before));
}

#[test]
fn failed_instruction_changes_nothing() {
    let mut l = setup();
    initialize(&mut l).unwrap();
    let before = l;
    assert!(withdraw(&mut l, u64::MAX).is_err());
    assert!(deposit(&mut l, AIRDROP).is_err());
    assert!(initialize(&mut l).is_err());
    assert!(same_ledger(&l, &before));
}

#[test]
fn deposit_more_than_wallet_fails() {
    let mut l = setup();
    initialize(&mut l).unwrap();
    let user = l.user.lamports;
    assert_eq!(deposit(&mut l, user + 1).unwrap_err(), InstructionError::ResultWithNegativeLamports);
    deposit(&mut l, user).expect("the whole wallet can be deposited");
    assert_eq!(l.user.lamports, 0);
}

#[test]
fn deposit_overflowing_vault_fails() {
    let mut l = setup();
    initialize(&mut l).unwrap();
    l.vault.lamports = u64::MAX - 10;
    assert_eq!(deposit(&mut l, 11).unwrap_err(), InstructionError::ArithmeticOverflow);
    deposit(&mut l, 10).unwrap();
    assert_eq!(l.vault.lamports, u64::MAX);
}

#[test]
fn withdraw_everything_fails() {
    let mut l = setup();
    initialize(&mut l).unwrap();
    deposit(&mut l, DEPOSIT).unwrap();
    let all = l.vault.lamports;
    assert_eq!(
        withdraw(&mut l, all).unwrap_err(),
        InstructionError::Vault(VaultError::InsufficientVaultBalance)
    );
}

#[test]
fn initialize_with_wrong_vault_fails() {
    let mut l = setup();
    l.vault.key = l.user.key;
    let before = l;
    assert_eq!(initialize(&mut l).unwrap_err(), InstructionError::ConstraintSeeds);
    assert!(same_ledger(&l, &before));
}

#[test]
fn initialize_with_wrong_state_fails() {
    let mut l = setup();
    l.vault_state.key = l.vault.key;
    assert_eq!(initialize(&mut l).unwrap_err(), InstructionError::ConstraintSeeds);
}

#[test]
fn initialize_without_funds_fails() {
    let mut l = setup();
    l.user.lamports = state_rent();
    let before = l;
    assert_eq!(initialize(&mut l).unwrap_err(), InstructionError::ResultWithNegativeLamports);
    assert!(same_ledger(&l, &before));
}

#[test]
fn initialize_tops_up_prefunded_state() {
    let mut l = setup();
    l.vault_state.lamports = 1_000;
    let (creation, _) = initialize(&mut l).unwrap();
    assert_eq!(creation.funding.lamports, state_rent() - 1_000);
    assert_eq!(l.vault_state.lamports, state_rent());
    assert_eq!(l.user.lamports, AIRDROP - (state_rent() - 1_000) - rent_exempt());

    let mut rich = setup();
    rich.vault_state.lamports = state_rent() + 5;
    let (creation, _) = initialize(&mut rich).unwrap();
    assert_eq!(creation.funding.lamports, 0);
    assert_eq!(rich.vault_state.lamports, state_rent() + 5);
    assert_eq!(rich.user.lamports, AIRDROP - rent_exempt());
}

#[test]
fn prefunded_uninitialized_state_is_refused() {
    let mut l = setup();
    l.vault_state.lamports = 1_000;
    assert_eq!(deposit(&mut l, DEPOSIT).unwrap_err(), InstructionError::AccountOwnedByWrongProgram);
}

#[test]
fn tampered_bump_is_refused() {
    let mut l = setup();
    initialize(&mut l).unwrap();
    let state = l.vault_state.data.unwrap();
    l.vault_state.data = Some(VaultState { vault_bump: state.vault_bump.wrapping_sub(1), state_bump: state.state_bump });
    assert_eq!(deposit(&mut l, DEPOSIT).unwrap_err(), InstructionError::ConstraintSeeds);
}

#[test]
fn vaults_of_two_users_are_separate() {
    let mut a = setup_for([1u8; 32]);
    let mut b = setup_for([2u8; 32]);
    assert_ne!(a.vault.key, b.vault.key);
    assert_ne!(a.vault_state.key, b.vault_state.key);
    initialize(&mut a).unwrap();
    initialize(&mut b).unwrap();
    deposit(&mut a, DEPOSIT).unwrap();
    assert_eq!(b.vault.lamports, rent_exempt());
    assert_eq!(a.vault.lamports, rent_exempt() + DEPOSIT);
}

#[test]
fn reinitialize_after_close_succeeds() {
    let mut l = setup();
    initialize(&mut l).unwrap();
    close(&mut l).unwrap();
    initialize(&mut l).expect("a closed vault can be opened again");
    assert_eq!(l.vault.lamports, rent_exempt());
}

#[test]
fn system_program_id_is_the_system_program() {
    assert_eq!(SYSTEM_PROGRAM_ID, anchor_lang::solana_program::system_program::ID.to_bytes());
}

#[test]
fn unsigned_instructions_fail() {
    let mut l = setup();
    initialize(&mut l).unwrap();
    l.facts.user_signed = false;
    let before = l;
    assert_eq!(deposit(&mut l, DEPOSIT).unwrap_err(), InstructionError::AccountNotSigner);
    assert_eq!(withdraw(&mut l, 1).unwrap_err(), InstructionError::AccountNotSigner);
    assert_eq!(close(&mut l).unwrap_err(), InstructionError::AccountNotSigner);
    assert!(same_ledger(&l, &before));

    let mut fresh = setup();
    fresh.facts.user_signed = false;
    assert_eq!(initialize(&mut fresh).unwrap_err(), InstructionError::AccountNotSigner);
    // The signer check comes before the state account's.
    fresh.facts.user_signed = false;
    assert_eq!(deposit(&mut fresh, DEPOSIT).unwrap_err(), InstructionError::AccountNotSigner);
}

#[test]
fn vault_owned_by_a_program_fails() {
    let mut l = setup();
    l.facts.vault_owner = PROGRAM_ID;
    assert_eq!(initialize(&mut l).unwrap_err(), InstructionError::AccountNotSystemOwned);

    let mut open = setup();
    initialize(&mut open).unwrap();
    open.facts.vault_owner = PROGRAM_ID;
    assert_eq!(deposit(&mut open, DEPOSIT).unwrap_err(), InstructionError::AccountNotSystemOwned);
}

#[test]
fn wrong_system_program_fails() {
    let mut l = setup();
    initialize(&mut l).unwrap();
    l.facts.system_program = PROGRAM_ID;
    assert_eq!(withdraw(&mut l, 1).unwrap_err(), InstructionError::InvalidProgramId);

    let mut fresh = setup();
    fresh.facts.system_program = [5u8; 32];
    assert_eq!(initialize(&mut fresh).unwrap_err(), InstructionError::InvalidProgramId);
}

#[test]
fn state_check_comes_before_vault_owner_check() {
    let mut l = setup();
    l.facts.vault_owner = PROGRAM_ID;
    assert_eq!(deposit(&mut l, DEPOSIT).unwrap_err(), InstructionError::AccountNotInitialized);
}

#[test]
fn state_account_is_read_by_owner() {
    let key = [4u8; 32];
    let state = VaultState { vault_bump: 200, state_bump: 201 };
    let bytes = encode_state(state);

    let owned = read_state_account(key, 77, &PROGRAM_ID, &bytes, &PROGRAM_ID).unwrap();
    assert_eq!(owned.data, Some(state));
    assert_eq!(owned.lamports, 77);
    assert_eq!(owned.key, key);

    let foreign = read_state_account(key, 77, &SYSTEM_PROGRAM_ID, &bytes, &PROGRAM_ID).unwrap();
    assert_eq!(foreign.data, None);

    assert_eq!(
        read_state_account(key, 77, &PROGRAM_ID, &bytes[..9], &PROGRAM_ID).unwrap_err(),
        InstructionError::AccountDidNotDeserialize
    );
    assert_eq!(
        read_state_account(key, 77, &PROGRAM_ID, &[0u8; 10], &PROGRAM_ID).unwrap_err(),
        InstructionError::AccountDiscriminatorMismatch
    );
    assert_eq!(
        read_state_account(key, 77, &PROGRAM_ID, &[], &PROGRAM_ID).unwrap_err(),
        InstructionError::AccountDiscriminatorNotFound
    );
}
