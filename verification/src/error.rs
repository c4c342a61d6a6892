use vstd::prelude::*;

verus! {

/// The errors that the vault's own handlers raise.
#[derive(Clone, Copy, Debug, PartialEq, Eq, Structural)]
pub enum VaultError {
    /// A deposit or a withdrawal of zero lamports.
    InvalidAmount,
    /// A withdrawal that would leave the vault below its rent-exempt minimum.
    InsufficientVaultBalance,
}

/// Why an instruction against the vault fails. Besides the handlers' own
/// errors these are the checks that the accounts of an instruction go
/// through, and the failures of the lamport transfers that it makes.
#[derive(Clone, Copy, Debug, PartialEq, Eq, Structural)]
pub enum InstructionError {
    /// Raised by a handler.
    Vault(VaultError),
    /// The user has not signed the transaction.
    AccountNotSigner,
    /// The vault is not owned by the system program.
    AccountNotSystemOwned,
    /// The account passed as the system program is another one.
    InvalidProgramId,
    /// The state account's data is shorter than a discriminator.
    AccountDiscriminatorNotFound,
    /// The state account's data starts with another discriminator.
    AccountDiscriminatorMismatch,
    /// The state account's data lacks the bumps.
    AccountDidNotDeserialize,
    /// The state account does not exist (no lamports, no owner).
    AccountNotInitialized,
    /// The state account holds lamports but no vault state.
    AccountOwnedByWrongProgram,
    /// An account is not the program address derived from its seeds.
    ConstraintSeeds,
    /// No bump makes the seeds of an account a program address.
    BumpNotFound,
    /// The state account to create already holds a vault state.
    AccountAlreadyInUse,
    /// The payer of a transfer holds fewer lamports than it pays.
    ResultWithNegativeLamports,
    /// The receiver of a transfer would hold more than `u64::MAX` lamports.
    ArithmeticOverflow,
}

} // verus!
