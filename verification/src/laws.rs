use vstd::prelude::*;

use crate::constants::{STATE_SEED, VAULT_SEED};
use crate::error::{InstructionError, VaultError};
use crate::instruction::{
    amount_argument, decoded, encoded, lemma_le_round_trip, le_u64, starts_with, DecodeError, VaultInstruction,
    CLOSE_DISCRIMINATOR, DEPOSIT_DISCRIMINATOR, EVENT_TAG, INITIALIZE_DISCRIMINATOR, WITHDRAW_DISCRIMINATOR,
};
use crate::constants::SYSTEM_PROGRAM_ID;
use crate::instructions::{account_kinds_checked, read_state};
use crate::ledger::{StateAccount, Wallet};
use crate::state::{decoded_state, state_bytes, StateDecodeError, VaultState, VAULT_STATE_DISCRIMINATOR};
use crate::instructions::close::close_outcome;
use crate::instructions::deposit::deposit_outcome;
use crate::instructions::initialize::initialize_outcome;
use crate::instructions::withdraw::{leaves_rent_exempt, withdraw_outcome};
use crate::instructions::{checked_state, derives};
use crate::ledger::{total_lamports, Ledger};
use crate::pda::canonical_program_address;

verus! {

/// While the state account holds a vault state, the vault holds at least its
/// rent-exempt minimum `rent`.
pub open spec fn vault_rent_exempt(l: Ledger, rent: u64) -> bool {
    l.vault_state.data is Some ==> l.vault.lamports >= rent
}

/// No instruction creates or destroys lamports: whatever one moves, the three
/// accounts hold as many lamports together after it as before.
pub proof fn lemma_lamports_conserved(l: Ledger, program_id: Seq<u8>, amount: u64, vault_rent: u64, state_rent: u64)
    ensures
        initialize_outcome(l, program_id, vault_rent, state_rent) matches Ok(post) ==> total_lamports(post) == total_lamports(l),
        deposit_outcome(l, program_id, amount) matches Ok(post) ==> total_lamports(post) == total_lamports(l),
        withdraw_outcome(l, program_id, amount, vault_rent) matches Ok(post) ==> total_lamports(post) == total_lamports(l),
        close_outcome(l, program_id) matches Ok(post) ==> total_lamports(post) == total_lamports(l),
{
}

/// The vault stays rent-exempt while the state exists: an initialization
/// leaves it so, a deposit and a withdrawal keep it so (a withdrawal that
/// would break it is refused), and a close removes the state.
pub proof fn lemma_vault_stays_rent_exempt(l: Ledger, program_id: Seq<u8>, amount: u64, rent: u64, state_rent: u64)
    ensures
        initialize_outcome(l, program_id, rent, state_rent) matches Ok(post) ==> vault_rent_exempt(post, rent),
        vault_rent_exempt(l, rent) ==> (deposit_outcome(l, program_id, amount) matches Ok(post) ==> vault_rent_exempt(post, rent)),
        withdraw_outcome(l, program_id, amount, rent) matches Ok(post) ==> vault_rent_exempt(post, rent),
        close_outcome(l, program_id) matches Ok(post) ==> vault_rent_exempt(post, rent),
{
}

/// Deposits add up: after two deposits the vault holds both amounts more and
/// the user both amounts less.
pub proof fn lemma_deposits_accumulate(l: Ledger, program_id: Seq<u8>, first: u64, second: u64)
    requires
        deposit_outcome(l, program_id, first) is Ok,
        deposit_outcome(deposit_outcome(l, program_id, first)->Ok_0, program_id, second) is Ok,
    ensures
        ({
            let post = deposit_outcome(deposit_outcome(l, program_id, first)->Ok_0, program_id, second)->Ok_0;
            &&& post.vault.lamports == l.vault.lamports + first + second
            &&& post.user.lamports == l.user.lamports - first - second
            &&& post.vault_state == l.vault_state
        }),
{
}

/// A withdrawal of what was just deposited succeeds and undoes the deposit,
/// as long as the vault held its rent-exempt minimum before the deposit.
pub proof fn lemma_withdraw_undoes_deposit(l: Ledger, program_id: Seq<u8>, amount: u64, rent: u64)
    requires
        deposit_outcome(l, program_id, amount) is Ok,
        l.vault.lamports >= rent,
    ensures
        withdraw_outcome(deposit_outcome(l, program_id, amount)->Ok_0, program_id, amount, rent) == Ok::<Ledger, InstructionError>(l),
{
}

/// Accounts that pass the checks, as an initialization leaves them (see the
/// `ensures` of `Initialize::initialize`), accept every deposit of a positive
/// amount that the user can pay and the vault can hold.
pub proof fn lemma_checked_accounts_accept_deposit(l: Ledger, program_id: Seq<u8>, amount: u64)
    requires
        checked_state(l, program_id) is Ok,
        0 < amount <= l.user.lamports,
        l.vault.lamports + amount <= u64::MAX,
    ensures
        deposit_outcome(l, program_id, amount) is Ok,
{
}

/// A vault cannot be initialized twice: once the state exists, a second
/// initialization fails with `AccountAlreadyInUse`, whatever the rents.
pub proof fn lemma_initialize_twice_fails(l: Ledger, program_id: Seq<u8>, vault_rent: u64, state_rent: u64, vault_rent2: u64, state_rent2: u64)
    requires
        initialize_outcome(l, program_id, vault_rent, state_rent) is Ok,
    ensures
        initialize_outcome(initialize_outcome(l, program_id, vault_rent, state_rent)->Ok_0, program_id, vault_rent2, state_rent2)
            == Err::<Ledger, InstructionError>(InstructionError::AccountAlreadyInUse),
{
}

/// A close hands everything back: the user receives the vault's balance and
/// the state account's, both of which end empty, and the state is gone.
pub proof fn lemma_close_returns_everything(l: Ledger, program_id: Seq<u8>)
    requires
        close_outcome(l, program_id) is Ok,
    ensures
        ({
            let post = close_outcome(l, program_id)->Ok_0;
            &&& post.user.lamports == l.user.lamports + l.vault.lamports + l.vault_state.lamports
            &&& post.vault.lamports == 0
            &&& post.vault_state.lamports == 0
            &&& post.vault_state.data is None
        }),
{
}

/// Once closed, the vault refuses deposits, withdrawals and a second close
/// with `AccountNotInitialized`.
pub proof fn lemma_closed_vault_refuses(l: Ledger, program_id: Seq<u8>, amount: u64, rent: u64)
    requires
        close_outcome(l, program_id) is Ok,
    ensures
        deposit_outcome(close_outcome(l, program_id)->Ok_0, program_id, amount)
            == Err::<Ledger, InstructionError>(InstructionError::AccountNotInitialized),
        withdraw_outcome(close_outcome(l, program_id)->Ok_0, program_id, amount, rent)
            == Err::<Ledger, InstructionError>(InstructionError::AccountNotInitialized),
        close_outcome(close_outcome(l, program_id)->Ok_0, program_id)
            == Err::<Ledger, InstructionError>(InstructionError::AccountNotInitialized),
{
}

/// Without a state account there is nothing to deposit into or take from
/// (for a user who signed; an unsigned transaction is refused first).
pub proof fn lemma_uninitialized_vault_refuses(l: Ledger, program_id: Seq<u8>, amount: u64, rent: u64)
    requires
        l.facts.user_signed,
        l.vault_state.data is None,
        l.vault_state.lamports == 0,
    ensures
        deposit_outcome(l, program_id, amount) == Err::<Ledger, InstructionError>(InstructionError::AccountNotInitialized),
        withdraw_outcome(l, program_id, amount, rent) == Err::<Ledger, InstructionError>(InstructionError::AccountNotInitialized),
        close_outcome(l, program_id) == Err::<Ledger, InstructionError>(InstructionError::AccountNotInitialized),
{
}

/// Funds leave a vault only to the user whose keys derive it: a withdrawal or
/// a close succeeds only when the user signed, and the state account and the vault are the program
/// addresses of `["state", user]` and `["vault", user]` for the signing user,
/// under the bumps that the state stores.
pub proof fn lemma_only_the_owner_takes_funds(l: Ledger, program_id: Seq<u8>, amount: u64, rent: u64)
    requires
        withdraw_outcome(l, program_id, amount, rent) is Ok || close_outcome(l, program_id) is Ok,
    ensures
        l.facts.user_signed,
        l.vault_state.data matches Some(state) && {
            &&& derives(STATE_SEED@, l.user.key@, state.state_bump, program_id, l.vault_state.key@)
            &&& derives(VAULT_SEED@, l.user.key@, state.vault_bump, program_id, l.vault.key@)
        },
{
}

/// Zero-lamport deposits and withdrawals are refused with `InvalidAmount`
/// once the accounts pass their checks.
pub proof fn lemma_zero_amount_refused(l: Ledger, program_id: Seq<u8>, rent: u64)
    requires
        checked_state(l, program_id) is Ok,
    ensures
        deposit_outcome(l, program_id, 0) == Err::<Ledger, InstructionError>(InstructionError::Vault(VaultError::InvalidAmount)),
        withdraw_outcome(l, program_id, 0, rent) == Err::<Ledger, InstructionError>(InstructionError::Vault(VaultError::InvalidAmount)),
{
}

/// A positive withdrawal from accounts that pass their checks is refused with
/// `InsufficientVaultBalance` exactly when it would take the vault below its
/// rent-exempt minimum (or below zero); otherwise the vault loses exactly the
/// amount.
pub proof fn lemma_withdraw_keeps_rent_exemption(l: Ledger, program_id: Seq<u8>, amount: u64, rent: u64)
    requires
        checked_state(l, program_id) is Ok,
        amount > 0,
    ensures
        (withdraw_outcome(l, program_id, amount, rent)
            == Err::<Ledger, InstructionError>(InstructionError::Vault(VaultError::InsufficientVaultBalance)))
            <==> !leaves_rent_exempt(l.vault.lamports, amount, rent),
        withdraw_outcome(l, program_id, amount, rent) matches Ok(post) ==> post.vault.lamports == l.vault.lamports - amount,
{
}

/// An initialization funds the vault with exactly its rent-exempt minimum and
/// records the canonical bumps of the user's two program addresses, the ones
/// whose addresses the state account and the vault are.
pub proof fn lemma_initialize_records_canonical_bumps(l: Ledger, program_id: Seq<u8>, vault_rent: u64, state_rent: u64)
    requires
        initialize_outcome(l, program_id, vault_rent, state_rent) is Ok,
    ensures
        ({
            let post = initialize_outcome(l, program_id, vault_rent, state_rent)->Ok_0;
            &&& post.vault.lamports == l.vault.lamports + vault_rent
            &&& post.vault_state.data matches Some(state) && {
                &&& canonical_program_address(STATE_SEED@, l.user.key@, program_id) == Some((l.vault_state.key@, state.state_bump))
                &&& canonical_program_address(VAULT_SEED@, l.user.key@, program_id) == Some((l.vault.key@, state.vault_bump))
            }
        }),
{
}

/// The outcome of one instruction on the three accounts, with the rent-exempt
/// minimums `rent` of the vault and `state_rent` of the state account.
pub open spec fn instruction_outcome(l: Ledger, program_id: Seq<u8>, ix: VaultInstruction, rent: u64, state_rent: u64) -> Result<Ledger, InstructionError> {
    match ix {
        VaultInstruction::Initialize => initialize_outcome(l, program_id, rent, state_rent),
        VaultInstruction::Deposit { amount } => deposit_outcome(l, program_id, amount),
        VaultInstruction::Withdraw { amount } => withdraw_outcome(l, program_id, amount, rent),
        VaultInstruction::Close => close_outcome(l, program_id),
    }
}

/// The accounts after one transaction of one instruction: its outcome, or
/// the accounts unchanged where it fails.
pub open spec fn step(l: Ledger, program_id: Seq<u8>, ix: VaultInstruction, rent: u64, state_rent: u64) -> Ledger {
    match instruction_outcome(l, program_id, ix, rent, state_rent) {
        Ok(post) => post,
        Err(_) => l,
    }
}

/// The accounts after a series of transactions, one instruction each.
pub open spec fn run(l: Ledger, program_id: Seq<u8>, ixs: Seq<VaultInstruction>, rent: u64, state_rent: u64) -> Ledger
    decreases ixs.len(),
{
    if ixs.len() == 0 {
        l
    } else {
        run(step(l, program_id, ixs[0], rent, state_rent), program_id, ixs.drop_first(), rent, state_rent)
    }
}

/// Whatever series of instructions runs against a user's accounts (the rents
/// staying the same), the accounts keep their keys, hold as many lamports
/// together as before, and the vault holds its rent-exempt minimum whenever
/// the state exists, if it did at the start.
pub proof fn lemma_any_run_keeps_the_invariants(l: Ledger, program_id: Seq<u8>, ixs: Seq<VaultInstruction>, rent: u64, state_rent: u64)
    requires
        vault_rent_exempt(l, rent),
    ensures
        ({
            let post = run(l, program_id, ixs, rent, state_rent);
            &&& total_lamports(post) == total_lamports(l)
            &&& vault_rent_exempt(post, rent)
            &&& post.user.key == l.user.key
            &&& post.vault_state.key == l.vault_state.key
            &&& post.vault.key == l.vault.key
        }),
    decreases ixs.len(),
{
    if ixs.len() > 0 {
        let ix = ixs[0];
        let amount: u64 = match ix {
            VaultInstruction::Deposit { amount } => amount,
            VaultInstruction::Withdraw { amount } => amount,
            _ => 0,
        };
        lemma_lamports_conserved(l, program_id, amount, rent, state_rent);
        lemma_vault_stays_rent_exempt(l, program_id, amount, rent, state_rent);
        lemma_any_run_keeps_the_invariants(step(l, program_id, ix, rent, state_rent), program_id, ixs.drop_first(), rent, state_rent);
    }
}

/// Seeds alone do not authorise anything: no instruction succeeds unless the
/// user signed the transaction; each is refused with `AccountNotSigner`.
pub proof fn lemma_unsigned_instruction_refused(l: Ledger, program_id: Seq<u8>, ix: VaultInstruction, rent: u64, state_rent: u64)
    requires
        !l.facts.user_signed,
    ensures
        instruction_outcome(l, program_id, ix, rent, state_rent) == Err::<Ledger, InstructionError>(InstructionError::AccountNotSigner),
{
}

/// A close is never refused for the size of the user's wallet: whenever the
/// accounts pass their checks and the user can hold everything, the close
/// succeeds, and the user then holds the three balances together while the
/// vault and the state account hold nothing.
pub proof fn lemma_close_succeeds_when_checks_pass(l: Ledger, program_id: Seq<u8>)
    requires
        checked_state(l, program_id) is Ok,
        l.user.lamports + l.vault.lamports + l.vault_state.lamports <= u64::MAX,
    ensures
        close_outcome(l, program_id) is Ok,
        close_outcome(l, program_id) matches Ok(post) && {
            &&& post.user.lamports == l.user.lamports + l.vault.lamports + l.vault_state.lamports
            &&& post.vault.lamports == 0
            &&& post.vault_state.lamports == 0
            &&& post.vault_state.data is None
        },
{
}

/// Every user can open a vault: for a signed user whose state account and
/// vault are its canonical program addresses, whose state account is empty and
/// who can pay both minimums, the initialization succeeds, whatever the bumps
/// are. The state account then holds its minimum and the two canonical bumps,
/// the vault holds its minimum more, and the user pays exactly both minimums.
pub proof fn lemma_initialize_succeeds_for_fresh_accounts(
    l: Ledger,
    program_id: Seq<u8>,
    vault_rent: u64,
    state_rent: u64,
    state_bump: u8,
    vault_bump: u8,
)
    requires
        account_kinds_checked(l.facts) is Ok,
        canonical_program_address(STATE_SEED@, l.user.key@, program_id) == Some((l.vault_state.key@, state_bump)),
        canonical_program_address(VAULT_SEED@, l.user.key@, program_id) == Some((l.vault.key@, vault_bump)),
        l.vault_state.data is None,
        l.vault_state.lamports == 0,
        l.user.lamports >= state_rent + vault_rent,
        l.vault.lamports + vault_rent <= u64::MAX,
    ensures
        initialize_outcome(l, program_id, vault_rent, state_rent) == Ok::<Ledger, InstructionError>(Ledger {
            user: Wallet { key: l.user.key, lamports: (l.user.lamports - state_rent - vault_rent) as u64 },
            vault_state: StateAccount {
                key: l.vault_state.key,
                lamports: state_rent,
                data: Some(VaultState { vault_bump, state_bump }),
            },
            vault: Wallet { key: l.vault.key, lamports: (l.vault.lamports + vault_rent) as u64 },
            facts: l.facts,
        }),
{
}

/// A state account that already holds lamports is topped up to its minimum
/// (and never charged beyond it): the initialization succeeds when the user
/// can pay what the account lacks and the vault's minimum, and the account
/// ends with the larger of what it held and its minimum.
pub proof fn lemma_initialize_tops_up_prefunded_state(l: Ledger, program_id: Seq<u8>, vault_rent: u64, state_rent: u64)
    requires
        account_kinds_checked(l.facts) is Ok,
        canonical_program_address(STATE_SEED@, l.user.key@, program_id) matches Some((a, _)) && a == l.vault_state.key@,
        canonical_program_address(VAULT_SEED@, l.user.key@, program_id) matches Some((a, _)) && a == l.vault.key@,
        l.vault_state.data is None,
        l.vault_state.lamports > 0,
        l.user.lamports >= (if state_rent > l.vault_state.lamports { state_rent - l.vault_state.lamports } else { 0 }) + vault_rent,
        l.vault.lamports + vault_rent <= u64::MAX,
    ensures
        initialize_outcome(l, program_id, vault_rent, state_rent) matches Ok(post) && {
            &&& post.vault_state.lamports == if state_rent > l.vault_state.lamports { state_rent } else { l.vault_state.lamports }
            &&& post.user.lamports + post.vault_state.lamports + post.vault.lamports == total_lamports(l)
            &&& post.vault.lamports == l.vault.lamports + vault_rent
        },
{
}

/// The amount of a deposit or a withdrawal is the little-endian number of the
/// eight bytes after the discriminator: byte `8 + i` counts `256^i` times.
pub proof fn lemma_amount_is_little_endian(data: Seq<u8>)
    requires
        data.len() >= 16,
    ensures
        amount_argument(data) == Some((data[8] + data[9] * 0x100 + data[10] * 0x10000 + data[11] * 0x1000000
            + data[12] * 0x100000000 + data[13] * 0x10000000000 + data[14] * 0x1000000000000
            + data[15] * 0x100000000000000) as u64),
        starts_with(data, DEPOSIT_DISCRIMINATOR@) ==> decoded(data) == Ok::<VaultInstruction, DecodeError>(VaultInstruction::Deposit {
            amount: (data[8] + data[9] * 0x100 + data[10] * 0x10000 + data[11] * 0x1000000
                + data[12] * 0x100000000 + data[13] * 0x10000000000 + data[14] * 0x1000000000000
                + data[15] * 0x100000000000000) as u64,
        }),
        starts_with(data, WITHDRAW_DISCRIMINATOR@) ==> decoded(data) == Ok::<VaultInstruction, DecodeError>(VaultInstruction::Withdraw {
            amount: (data[8] + data[9] * 0x100 + data[10] * 0x10000 + data[11] * 0x1000000
                + data[12] * 0x100000000 + data[13] * 0x10000000000 + data[14] * 0x1000000000000
                + data[15] * 0x100000000000000) as u64,
        }),
{
    let b = data.subrange(8, 16);
    assert(b[0] == data[8] && b[1] == data[9] && b[2] == data[10] && b[3] == data[11]);
    assert(b[4] == data[12] && b[5] == data[13] && b[6] == data[14] && b[7] == data[15]);
    assert(le_u64(b) == data[8] + data[9] * 0x100 + data[10] * 0x10000 + data[11] * 0x1000000
        + data[12] * 0x100000000 + data[13] * 0x10000000000 + data[14] * 0x1000000000000
        + data[15] * 0x100000000000000);
    if starts_with(data, DEPOSIT_DISCRIMINATOR@) {
        assert(data.subrange(0, 8)[0] == DEPOSIT_DISCRIMINATOR@[0]);
    }
    if starts_with(data, WITHDRAW_DISCRIMINATOR@) {
        assert(data.subrange(0, 8)[0] == WITHDRAW_DISCRIMINATOR@[0]);
    }
}

/// The data of a deposit or a withdrawal is sixteen bytes: the discriminator,
/// then the amount in little-endian order, so that byte `8 + i` counted
/// `256^i` times adds up to the amount, each byte being below 256.
pub proof fn lemma_encoded_amount_is_little_endian(amount: u64)
    ensures
        ({
            let d = encoded(VaultInstruction::Deposit { amount });
            &&& d.len() == 16
            &&& d.subrange(0, 8) == DEPOSIT_DISCRIMINATOR@
            &&& d[8] + d[9] * 0x100 + d[10] * 0x10000 + d[11] * 0x1000000 + d[12] * 0x100000000
                + d[13] * 0x10000000000 + d[14] * 0x1000000000000 + d[15] * 0x100000000000000 == amount
        }),
        ({
            let d = encoded(VaultInstruction::Withdraw { amount });
            &&& d.len() == 16
            &&& d.subrange(0, 8) == WITHDRAW_DISCRIMINATOR@
            &&& d[8] + d[9] * 0x100 + d[10] * 0x10000 + d[11] * 0x1000000 + d[12] * 0x100000000
                + d[13] * 0x10000000000 + d[14] * 0x1000000000000 + d[15] * 0x100000000000000 == amount
        }),
{
    lemma_le_round_trip(amount);
    let d = encoded(VaultInstruction::Deposit { amount });
    assert(d.subrange(0, 8) =~= DEPOSIT_DISCRIMINATOR@);
    lemma_amount_is_little_endian(d);
    let w = encoded(VaultInstruction::Withdraw { amount });
    assert(w.subrange(0, 8) =~= WITHDRAW_DISCRIMINATOR@);
    lemma_amount_is_little_endian(w);
    assert(d.subrange(8, 16) =~= w.subrange(8, 16));
}

/// The state account's data is the discriminator, then the vault's bump, then
/// the state's: ten bytes, as Anchor lays out the fields of `VaultState`.
pub proof fn lemma_state_layout(state: VaultState)
    ensures
        state_bytes(state).len() == 10,
        state_bytes(state).subrange(0, 8) == VAULT_STATE_DISCRIMINATOR@,
        state_bytes(state)[8] == state.vault_bump,
        state_bytes(state)[9] == state.state_bump,
{
    assert(state_bytes(state).subrange(0, 8) =~= VAULT_STATE_DISCRIMINATOR@);
}

/// Data that starts with the discriminator and holds at least two more bytes
/// reads as the state whose vault bump is byte 8 and whose state bump is byte 9.
pub proof fn lemma_state_read_layout(data: Seq<u8>)
    requires
        data.len() >= 10,
        data.subrange(0, 8) == VAULT_STATE_DISCRIMINATOR@,
    ensures
        decoded_state(data) == Ok::<VaultState, StateDecodeError>(VaultState { vault_bump: data[8], state_bump: data[9] }),
{
}

/// A deposit of a positive amount into accounts that pass their checks
/// succeeds exactly when the user holds the amount and the vault can hold it;
/// it then moves exactly the amount from the user to the vault and nothing
/// else. A user who holds less is refused with `ResultWithNegativeLamports`.
pub proof fn lemma_deposit_moves_the_amount(l: Ledger, program_id: Seq<u8>, amount: u64)
    requires
        checked_state(l, program_id) is Ok,
        amount > 0,
    ensures
        amount <= l.user.lamports && l.vault.lamports + amount <= u64::MAX ==> deposit_outcome(l, program_id, amount)
            == Ok::<Ledger, InstructionError>(Ledger {
                user: Wallet { key: l.user.key, lamports: (l.user.lamports - amount) as u64 },
                vault_state: l.vault_state,
                vault: Wallet { key: l.vault.key, lamports: (l.vault.lamports + amount) as u64 },
                facts: l.facts,
            }),
        amount > l.user.lamports ==> deposit_outcome(l, program_id, amount)
            == Err::<Ledger, InstructionError>(InstructionError::ResultWithNegativeLamports),
{
}

/// A withdrawal of a positive amount from accounts that pass their checks
/// succeeds exactly when the vault keeps at least `rent` after it (and the
/// user can hold the amount); it then moves exactly the amount from the vault
/// to the user. Where the vault holds less than the amount and `rent`
/// together, it is refused with `InsufficientVaultBalance`.
pub proof fn lemma_withdraw_moves_the_amount(l: Ledger, program_id: Seq<u8>, amount: u64, rent: u64)
    requires
        checked_state(l, program_id) is Ok,
        amount > 0,
    ensures
        amount + rent <= l.vault.lamports && l.user.lamports + amount <= u64::MAX ==> withdraw_outcome(l, program_id, amount, rent)
            == Ok::<Ledger, InstructionError>(Ledger {
                user: Wallet { key: l.user.key, lamports: (l.user.lamports + amount) as u64 },
                vault_state: l.vault_state,
                vault: Wallet { key: l.vault.key, lamports: (l.vault.lamports - amount) as u64 },
                facts: l.facts,
            }),
        amount + rent > l.vault.lamports ==> withdraw_outcome(l, program_id, amount, rent)
            == Err::<Ledger, InstructionError>(InstructionError::Vault(VaultError::InsufficientVaultBalance)),
{
}

/// The discriminator selects the instruction: data that starts with the
/// discriminator of `initialize` or of `close` decodes to that instruction,
/// whatever follows, and data that starts with none of the four, nor with the
/// event tag, names no instruction.
pub proof fn lemma_discriminators_select(data: Seq<u8>)
    ensures
        starts_with(data, INITIALIZE_DISCRIMINATOR@) ==> decoded(data) == Ok::<VaultInstruction, DecodeError>(VaultInstruction::Initialize),
        starts_with(data, CLOSE_DISCRIMINATOR@) ==> decoded(data) == Ok::<VaultInstruction, DecodeError>(VaultInstruction::Close),
        starts_with(data, DEPOSIT_DISCRIMINATOR@) && data.len() < 16 ==> decoded(data) == Err::<VaultInstruction, DecodeError>(DecodeError::InstructionDidNotDeserialize),
        starts_with(data, WITHDRAW_DISCRIMINATOR@) && data.len() < 16 ==> decoded(data) == Err::<VaultInstruction, DecodeError>(DecodeError::InstructionDidNotDeserialize),
        data.len() < 8 ==> decoded(data) == Err::<VaultInstruction, DecodeError>(DecodeError::InstructionFallbackNotFound),
        starts_with(data, EVENT_TAG@) ==> decoded(data) == Err::<VaultInstruction, DecodeError>(DecodeError::EventInstructionStub),
{
    if data.len() >= 8 {
        let head = data.subrange(0, 8);
        assert(head[0] == data[0]);
        assert(head[1] == data[1]);
    }
}

/// The state account holds a vault state only when the vault program owns it:
/// an account of another owner reads as holding none, whatever its data; one
/// the program owns reads as the state its bytes 8 and 9 record, when its data
/// starts with the discriminator.
pub proof fn lemma_state_read_by_owner(key: [u8; 32], lamports: u64, owner: Seq<u8>, data: Seq<u8>, program_id: Seq<u8>)
    ensures
        owner != program_id ==> read_state(key, lamports, owner, data, program_id)
            == Ok::<StateAccount, InstructionError>(StateAccount { key, lamports, data: None }),
        owner == program_id && data.len() >= 10 && data.subrange(0, 8) == VAULT_STATE_DISCRIMINATOR@ ==> read_state(key, lamports, owner, data, program_id)
            == Ok::<StateAccount, InstructionError>(StateAccount {
                key,
                lamports,
                data: Some(VaultState { vault_bump: data[8], state_bump: data[9] }),
            }),
        owner == program_id && data.len() < 8 ==> read_state(key, lamports, owner, data, program_id)
            == Err::<StateAccount, InstructionError>(InstructionError::AccountDiscriminatorNotFound),
{
}

/// The vault must be a system account and the system program the real one:
/// for a user who signed, an initialization with another vault owner or
/// another system program is refused, and so is every other instruction on
/// an open vault.
pub proof fn lemma_account_kinds_enforced(l: Ledger, program_id: Seq<u8>, ix: VaultInstruction, rent: u64, state_rent: u64)
    requires
        l.facts.user_signed,
        ix is Initialize || l.vault_state.data is Some,
    ensures
        l.facts.vault_owner@ != SYSTEM_PROGRAM_ID@ ==> instruction_outcome(l, program_id, ix, rent, state_rent)
            == Err::<Ledger, InstructionError>(InstructionError::AccountNotSystemOwned),
        l.facts.vault_owner@ == SYSTEM_PROGRAM_ID@ && l.facts.system_program@ != SYSTEM_PROGRAM_ID@
            ==> instruction_outcome(l, program_id, ix, rent, state_rent)
            == Err::<Ledger, InstructionError>(InstructionError::InvalidProgramId),
{
}

} // verus!
