use vstd::prelude::*;

verus! {

/// First eight bytes of the data of an `initialize` instruction: the first
/// eight bytes of SHA-256 of `"global:initialize"`.
pub const INITIALIZE_DISCRIMINATOR: [u8; 8] = [175u8, 175u8, 109u8, 31u8, 13u8, 152u8, 155u8, 237u8];

/// First eight bytes of the data of a `deposit` instruction (SHA-256 of `"global:deposit"`).
pub const DEPOSIT_DISCRIMINATOR: [u8; 8] = [242u8, 35u8, 198u8, 137u8, 82u8, 225u8, 242u8, 182u8];

/// First eight bytes of the data of a `withdraw` instruction (SHA-256 of `"global:withdraw"`).
pub const WITHDRAW_DISCRIMINATOR: [u8; 8] = [183u8, 18u8, 70u8, 156u8, 148u8, 109u8, 161u8, 34u8];

/// First eight bytes of the data of a `close` instruction (SHA-256 of `"global:close"`).
pub const CLOSE_DISCRIMINATOR: [u8; 8] = [98u8, 165u8, 201u8, 177u8, 108u8, 65u8, 206u8, 96u8];

/// The tag that marks event data sent to a program, which this program does not take.
pub const EVENT_TAG: [u8; 8] = [228u8, 69u8, 165u8, 46u8, 81u8, 203u8, 154u8, 29u8];

/// An instruction of the vault program, with its arguments.
#[derive(Clone, Copy, Debug, PartialEq, Eq, Structural)]
pub enum VaultInstruction {
    Initialize,
    Deposit { amount: u64 },
    Withdraw { amount: u64 },
    Close,
}

/// Why instruction data does not name an instruction of the vault.
#[derive(Clone, Copy, Debug, PartialEq, Eq, Structural)]
pub enum DecodeError {
    /// The data starts with no instruction's discriminator.
    InstructionFallbackNotFound,
    /// The data is event data.
    EventInstructionStub,
    /// The discriminator names an instruction whose arguments are missing.
    InstructionDidNotDeserialize,
}

/// Whether `data` starts with `prefix`.
pub open spec fn starts_with(data: Seq<u8>, prefix: Seq<u8>) -> bool {
    prefix.len() <= data.len() && data.subrange(0, prefix.len() as int) == prefix
}

/// The number that eight bytes encode, least significant byte first.
pub open spec fn le_u64(b: Seq<u8>) -> int {
    b[0] + 256 * (b[1] + 256 * (b[2] + 256 * (b[3] + 256 * (b[4] + 256 * (b[5] + 256 * (b[6] + 256 * b[7]))))))
}

/// The eight bytes of `v`, least significant first.
pub open spec fn le_bytes(v: u64) -> Seq<u8> {
    seq![
        (v % 256) as u8,
        ((v / 0x100) % 256) as u8,
        ((v / 0x10000) % 256) as u8,
        ((v / 0x1000000) % 256) as u8,
        ((v / 0x100000000) % 256) as u8,
        ((v / 0x10000000000) % 256) as u8,
        ((v / 0x1000000000000) % 256) as u8,
        ((v / 0x100000000000000) % 256) as u8,
    ]
}

/// The amount argument that follows a discriminator, if the data holds one.
pub open spec fn amount_argument(data: Seq<u8>) -> Option<u64> {
    if data.len() >= 16 { Some(le_u64(data.subrange(8, 16)) as u64) } else { None }
}

/// The instruction that `data` encodes: the discriminator selects it and, for
/// a deposit or a withdrawal, the eight bytes after it are the amount. Bytes
/// after the arguments are ignored.
pub open spec fn decoded(data: Seq<u8>) -> Result<VaultInstruction, DecodeError> {
    if starts_with(data, INITIALIZE_DISCRIMINATOR@) {
        Ok(VaultInstruction::Initialize)
    } else if starts_with(data, DEPOSIT_DISCRIMINATOR@) {
        match amount_argument(data) {
            Some(amount) => Ok(VaultInstruction::Deposit { amount }),
            None => Err(DecodeError::InstructionDidNotDeserialize),
        }
    } else if starts_with(data, WITHDRAW_DISCRIMINATOR@) {
        match amount_argument(data) {
            Some(amount) => Ok(VaultInstruction::Withdraw { amount }),
            None => Err(DecodeError::InstructionDidNotDeserialize),
        }
    } else if starts_with(data, CLOSE_DISCRIMINATOR@) {
        Ok(VaultInstruction::Close)
    } else if starts_with(data, EVENT_TAG@) {
        Err(DecodeError::EventInstructionStub)
    } else {
        Err(DecodeError::InstructionFallbackNotFound)
    }
}

/// The data that encodes an instruction.
pub open spec fn encoded(ix: VaultInstruction) -> Seq<u8> {
    match ix {
        VaultInstruction::Initialize => INITIALIZE_DISCRIMINATOR@,
        VaultInstruction::Deposit { amount } => DEPOSIT_DISCRIMINATOR@ + le_bytes(amount),
        VaultInstruction::Withdraw { amount } => WITHDRAW_DISCRIMINATOR@ + le_bytes(amount),
        VaultInstruction::Close => CLOSE_DISCRIMINATOR@,
    }
}

/// Whether `data` starts with the eight bytes of `prefix`.
fn has_prefix(data: &[u8], prefix: &[u8; 8]) -> (res: bool)
    ensures
        res == starts_with(data@, prefix@),
{
    if data.len() < 8 {
        return false;
    }
    let mut i: usize = 0;
    while i < 8
        invariant
            8 <= data@.len(),
            prefix@.len() == 8,
            i <= 8,
            forall|j: int| 0 <= j < i ==> data@[j] == prefix@[j],
        decreases 8 - i,
    {
        if data[i] != prefix[i] {
            assert(data@.subrange(0, 8)[i as int] != prefix@[i as int]);
            return false;
        }
        i = i + 1;
    }
    assert(data@.subrange(0, 8) =~= prefix@);
    true
}

/// Reads the amount argument that follows a discriminator.
fn read_amount(data: &[u8]) -> (res: Option<u64>)
    ensures
        res == amount_argument(data@),
{
    if data.len() < 16 {
        return None;
    }
    let v: u64 = data[8] as u64 + 256 * (data[9] as u64 + 256 * (data[10] as u64 + 256 * (data[11] as u64
        + 256 * (data[12] as u64 + 256 * (data[13] as u64 + 256 * (data[14] as u64 + 256 * data[15] as u64))))));
    assert(data@.subrange(8, 16)[0] == data@[8]);
    assert(data@.subrange(8, 16)[7] == data@[15]);
    assert(le_u64(data@.subrange(8, 16)) == v);
    Some(v)
}

/// Decodes instruction data.
pub fn decode_instruction(data: &[u8]) -> (res: Result<VaultInstruction, DecodeError>)
    ensures
        res == decoded(data@),
{
    if has_prefix(data, &INITIALIZE_DISCRIMINATOR) {
        Ok(VaultInstruction::Initialize)
    } else if has_prefix(data, &DEPOSIT_DISCRIMINATOR) {
        match read_amount(data) {
            Some(amount) => Ok(VaultInstruction::Deposit { amount }),
            None => Err(DecodeError::InstructionDidNotDeserialize),
        }
    } else if has_prefix(data, &WITHDRAW_DISCRIMINATOR) {
        match read_amount(data) {
            Some(amount) => Ok(VaultInstruction::Withdraw { amount }),
            None => Err(DecodeError::InstructionDidNotDeserialize),
        }
    } else if has_prefix(data, &CLOSE_DISCRIMINATOR) {
        Ok(VaultInstruction::Close)
    } else if has_prefix(data, &EVENT_TAG) {
        Err(DecodeError::EventInstructionStub)
    } else {
        Err(DecodeError::InstructionFallbackNotFound)
    }
}

/// The bytes of an eight-byte array, as a vector.
fn bytes_of(a: &[u8; 8]) -> (res: Vec<u8>)
    ensures
        res@ == a@,
{
    let mut out: Vec<u8> = Vec::new();
    let mut i: usize = 0;
    while i < 8
        invariant
            a@.len() == 8,
            i <= 8,
            out@ == a@.subrange(0, i as int),
        decreases 8 - i,
    {
        out.push(a[i]);
        i = i + 1;
        assert(out@ =~= a@.subrange(0, i as int));
    }
    assert(a@.subrange(0, 8) =~= a@);
    out
}

/// Appends the eight bytes of `v`, least significant first.
fn push_le_bytes(out: &mut Vec<u8>, v: u64)
    ensures
        final(out)@ == old(out)@ + le_bytes(v),
{
    out.push((v % 256) as u8);
    out.push(((v / 0x100) % 256) as u8);
    out.push(((v / 0x10000) % 256) as u8);
    out.push(((v / 0x1000000) % 256) as u8);
    out.push(((v / 0x100000000) % 256) as u8);
    out.push(((v / 0x10000000000) % 256) as u8);
    out.push(((v / 0x1000000000000) % 256) as u8);
    out.push(((v / 0x100000000000000) % 256) as u8);
    assert(final(out)@ =~= old(out)@ + le_bytes(v));
}

/// Encodes an instruction as its data.
pub fn encode_instruction(ix: VaultInstruction) -> (res: Vec<u8>)
    ensures
        res@ == encoded(ix),
{
    match ix {
        VaultInstruction::Initialize => bytes_of(&INITIALIZE_DISCRIMINATOR),
        VaultInstruction::Deposit { amount } => {
            let mut out = bytes_of(&DEPOSIT_DISCRIMINATOR);
            push_le_bytes(&mut out, amount);
            out
        },
        VaultInstruction::Withdraw { amount } => {
            let mut out = bytes_of(&WITHDRAW_DISCRIMINATOR);
            push_le_bytes(&mut out, amount);
            out
        },
        VaultInstruction::Close => bytes_of(&CLOSE_DISCRIMINATOR),
    }
}

/// The eight bytes of a number read back as that number.
pub proof fn lemma_le_round_trip(v: u64)
    ensures
        le_u64(le_bytes(v)) == v,
{
    assert(v == (v % 256) + 256 * (((v / 0x100) % 256) + 256 * (((v / 0x10000) % 256) + 256 * (((v / 0x1000000) % 256)
        + 256 * (((v / 0x100000000) % 256) + 256 * (((v / 0x10000000000) % 256) + 256 * (((v / 0x1000000000000) % 256)
        + 256 * ((v / 0x100000000000000) % 256)))))))) by (bit_vector);
}

/// Decoding the data of an instruction gives the instruction back.
pub proof fn lemma_decode_encode(ix: VaultInstruction)
    ensures
        decoded(encoded(ix)) == Ok::<VaultInstruction, DecodeError>(ix),
{
    let data = encoded(ix);
    match ix {
        VaultInstruction::Deposit { amount } => {
            lemma_le_round_trip(amount);
            assert(data.subrange(0, 8) =~= DEPOSIT_DISCRIMINATOR@);
            assert(data.subrange(8, 16) =~= le_bytes(amount));
            assert(data.subrange(0, 8)[0] != INITIALIZE_DISCRIMINATOR@[0]);
        },
        VaultInstruction::Withdraw { amount } => {
            lemma_le_round_trip(amount);
            assert(data.subrange(0, 8) =~= WITHDRAW_DISCRIMINATOR@);
            assert(data.subrange(8, 16) =~= le_bytes(amount));
            assert(data.subrange(0, 8)[0] != INITIALIZE_DISCRIMINATOR@[0]);
            assert(data.subrange(0, 8)[0] != DEPOSIT_DISCRIMINATOR@[0]);
        },
        VaultInstruction::Initialize => {
            assert(data.subrange(0, 8) =~= INITIALIZE_DISCRIMINATOR@);
        },
        VaultInstruction::Close => {
            assert(data.subrange(0, 8) =~= CLOSE_DISCRIMINATOR@);
            assert(data.subrange(0, 8)[0] != INITIALIZE_DISCRIMINATOR@[0]);
            assert(data.subrange(0, 8)[0] != DEPOSIT_DISCRIMINATOR@[0]);
            assert(data.subrange(0, 8)[0] != WITHDRAW_DISCRIMINATOR@[0]);
        },
    }
}

} // verus!
