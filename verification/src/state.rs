use vstd::prelude::*;

verus! {

/// What the per-user state account stores: the bumps of the two program
/// addresses of the user, so that later instructions need not search for them.
#[derive(Clone, Copy, Debug, PartialEq, Eq, Structural)]
pub struct VaultState {
    pub vault_bump: u8,
    pub state_bump: u8,
}

/// The first eight bytes of the state account's data: the first eight bytes of
/// SHA-256 of `"account:VaultState"`, which tell a vault state from other data.
pub const VAULT_STATE_DISCRIMINATOR: [u8; 8] = [228u8, 196u8, 82u8, 165u8, 98u8, 210u8, 235u8, 152u8];

/// The size of the state account's data: the discriminator and the two bump
/// bytes.
pub const VAULT_STATE_SPACE: usize = 10;

/// Why the data of an account is not a vault state.
#[derive(Clone, Copy, Debug, PartialEq, Eq, Structural)]
pub enum StateDecodeError {
    /// The data is shorter than a discriminator.
    AccountDiscriminatorNotFound,
    /// The data starts with another discriminator.
    AccountDiscriminatorMismatch,
    /// The bumps that follow the discriminator are missing.
    AccountDidNotDeserialize,
}

/// The data of a state account that stores `state`: the discriminator, then
/// the vault's bump, then the state's.
pub open spec fn state_bytes(state: VaultState) -> Seq<u8> {
    VAULT_STATE_DISCRIMINATOR@ + seq![state.vault_bump, state.state_bump]
}

/// The vault state that account data holds, or why it holds none. Bytes after
/// the two bumps are ignored.
pub open spec fn decoded_state(data: Seq<u8>) -> Result<VaultState, StateDecodeError> {
    if data.len() < 8 {
        Err(StateDecodeError::AccountDiscriminatorNotFound)
    } else if data.subrange(0, 8) != VAULT_STATE_DISCRIMINATOR@ {
        Err(StateDecodeError::AccountDiscriminatorMismatch)
    } else if data.len() < 10 {
        Err(StateDecodeError::AccountDidNotDeserialize)
    } else {
        Ok(VaultState { vault_bump: data[8], state_bump: data[9] })
    }
}

/// Reads a vault state from account data.
pub fn decode_state(data: &[u8]) -> (res: Result<VaultState, StateDecodeError>)
    ensures
        res == decoded_state(data@),
{
    if data.len() < 8 {
        return Err(StateDecodeError::AccountDiscriminatorNotFound);
    }
    let mut i: usize = 0;
    while i < 8
        invariant
            8 <= data@.len(),
            VAULT_STATE_DISCRIMINATOR@.len() == 8,
            i <= 8,
            forall|j: int| 0 <= j < i ==> data@[j] == VAULT_STATE_DISCRIMINATOR@[j],
        decreases 8 - i,
    {
        if data[i] != VAULT_STATE_DISCRIMINATOR[i] {
            assert(data@.subrange(0, 8)[i as int] != VAULT_STATE_DISCRIMINATOR@[i as int]);
            return Err(StateDecodeError::AccountDiscriminatorMismatch);
        }
        i = i + 1;
    }
    assert(data@.subrange(0, 8) =~= VAULT_STATE_DISCRIMINATOR@);
    if data.len() < 10 {
        return Err(StateDecodeError::AccountDidNotDeserialize);
    }
    Ok(VaultState { vault_bump: data[8], state_bump: data[9] })
}

/// Writes a vault state as account data.
pub fn encode_state(state: VaultState) -> (res: Vec<u8>)
    ensures
        res@ == state_bytes(state),
{
    let mut out: Vec<u8> = Vec::new();
    let mut i: usize = 0;
    while i < 8
        invariant
            VAULT_STATE_DISCRIMINATOR@.len() == 8,
            i <= 8,
            out@ == VAULT_STATE_DISCRIMINATOR@.subrange(0, i as int),
        decreases 8 - i,
    {
        out.push(VAULT_STATE_DISCRIMINATOR[i]);
        i = i + 1;
        assert(out@ =~= VAULT_STATE_DISCRIMINATOR@.subrange(0, i as int));
    }
    out.push(state.vault_bump);
    out.push(state.state_bump);
    assert(out@ =~= state_bytes(state));
    out
}

/// Reading back the data written for a vault state gives that state.
pub proof fn lemma_state_round_trip(state: VaultState)
    ensures
        decoded_state(state_bytes(state)) == Ok::<VaultState, StateDecodeError>(state),
        state_bytes(state).len() == VAULT_STATE_SPACE,
{
    assert(state_bytes(state).subrange(0, 8) =~= VAULT_STATE_DISCRIMINATOR@);
}

} // verus!
