//! The reasons for which an instruction is rejected.

use vstd::prelude::*;

verus! {

/// The rejections that are particular to the vault.
#[derive(Clone, Copy, Debug, PartialEq, Eq, Structural)]
pub enum TimeBaseVaultError {
    /// The unlock time of a deposit is not later than the current time.
    UnlockTimestampMustBeInFuture,
    /// The amount of a deposit is zero.
    AmountMustBeGreaterThanZero,
    /// The signer of a withdrawal is not the depositor.
    Unauthorized,
    /// The unlock time of the vault has not been reached.
    VaultLocking,
    /// The token type handed in is not the one the vault holds.
    InvalidVaultMint,
}

impl TimeBaseVaultError {
    /// The number under which the ledger reports this rejection: the
    /// position of the variant in the declaration, counted from zero.
    pub open spec fn spec_code(self) -> u32 {
        match self {
            TimeBaseVaultError::UnlockTimestampMustBeInFuture => 0,
            TimeBaseVaultError::AmountMustBeGreaterThanZero => 1,
            TimeBaseVaultError::Unauthorized => 2,
            TimeBaseVaultError::VaultLocking => 3,
            TimeBaseVaultError::InvalidVaultMint => 4,
        }
    }

    /// The number under which the ledger reports this rejection.
    pub fn code(&self) -> (c: u32)
        ensures
            c == self.spec_code(),
            c <= 4,
    {
        match self {
            TimeBaseVaultError::UnlockTimestampMustBeInFuture => 0,
            TimeBaseVaultError::AmountMustBeGreaterThanZero => 1,
            TimeBaseVaultError::Unauthorized => 2,
            TimeBaseVaultError::VaultLocking => 3,
            TimeBaseVaultError::InvalidVaultMint => 4,
        }
    }
}

/// Every reason for which the ledger's programs reject an instruction. A
/// rejection that a collaborator of the vault reports is one of these too,
/// and the vault hands it on as it is.
#[derive(Clone, Copy, Debug, PartialEq, Eq, Structural)]
pub enum ProgramError {
    /// A rejection particular to one program, by its number.
    Custom(u32),
    /// The arguments of the instruction were invalid.
    InvalidArgument,
    /// The bytes of the instruction were invalid.
    InvalidInstructionData,
    /// The bytes that an account holds were invalid.
    InvalidAccountData,
    /// An account holds fewer bytes than the instruction needs.
    AccountDataTooSmall,
    /// The balance of an account is too small for the instruction.
    InsufficientFunds,
    /// An account does not belong to the expected program.
    IncorrectProgramId,
    /// An account that must have signed has not.
    MissingRequiredSignature,
    /// An account that is to be initialized holds data already.
    AccountAlreadyInitialized,
    /// An account that is to be used has not been initialized.
    UninitializedAccount,
    /// The instruction names another number of accounts than it needs.
    NotEnoughAccountKeys,
    /// The bytes of an account are borrowed already.
    AccountBorrowFailed,
    /// A seed is too long to derive an address from.
    MaxSeedLengthExceeded,
    /// The seeds derive no valid address.
    InvalidSeeds,
    /// Reading or writing a value failed.
    BorshIoError,
    /// The balance of an account does not exempt it from rent.
    AccountNotRentExempt,
    /// The system variable is not supported.
    UnsupportedSysvar,
    /// The owner handed in is not allowed.
    IllegalOwner,
    /// The transaction allocated more account data than is allowed.
    MaxAccountsDataAllocationsExceeded,
    /// The new size of an account's data is invalid.
    InvalidRealloc,
    /// The transaction made more nested calls than is allowed.
    MaxInstructionTraceLengthExceeded,
    /// A builtin program has to consume compute units.
    BuiltinProgramsMustConsumeComputeUnits,
    /// The owner of an account is not the expected one.
    InvalidAccountOwner,
    /// The arithmetic of a program overflowed.
    ArithmeticOverflow,
    /// The account cannot be changed.
    Immutable,
    /// The authority handed in is not the expected one.
    IncorrectAuthority,
}

impl From<TimeBaseVaultError> for ProgramError {
    fn from(e: TimeBaseVaultError) -> (r: Self) {
        ProgramError::Custom(e.code())
    }
}

impl vstd::std_specs::convert::FromSpecImpl<TimeBaseVaultError> for ProgramError {
    open spec fn obeys_from_spec() -> bool {
        true
    }

    open spec fn from_spec(e: TimeBaseVaultError) -> Self {
        ProgramError::Custom(e.spec_code())
    }
}

/// The rejection `e` as the ledger sees it.
pub open spec fn vault_error(e: TimeBaseVaultError) -> ProgramError {
    ProgramError::Custom(e.spec_code())
}

} // verus!
