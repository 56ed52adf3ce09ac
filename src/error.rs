//! The errors with which an operation is refused.
use vstd::prelude::*;

verus! {

/// Why an operation was refused. Each error has a numeric code, which the host
/// reports to the caller as a user error.
#[derive(Clone, Copy, Debug, PartialEq, Eq, Structural)]
pub enum CsprUSDError {
    /// Contract called from within an invalid context.
    InvalidContext,
    /// The payer does not have enough balance.
    InsufficientBalance,
    /// The spender does not have enough allowance approved.
    InsufficientAllowance,
    /// The operation would overflow an integer.
    Overflow,
    /// A required package hash was not specified.
    PackageHashMissing,
    /// The package hash specified does not represent a package.
    PackageHashNotPackage,
    /// An unknown error occurred.
    Phantom,
    /// The runtime arguments provided could not be read.
    FailedToGetArgBytes,
    /// The flag to enable the mint and burn mode is invalid.
    InvalidEnableMBFlag,
    /// This contract instance cannot be initialized again.
    AlreadyInitialized,
    /// The operation names the same address on both sides.
    CannotTargetSelfUser,
    /// The contract is paused.
    ContractPaused,
    /// The caller is not the pauser.
    NotPauser,
    /// No pauser was provided on installation.
    NoPauserProvided,
    /// No owner was provided on installation.
    NoOwnerProvided,
    /// The caller is not the owner.
    NotOwner,
    /// The caller is not a minter.
    NotMinter,
    /// An address taking part is blacklisted.
    BlackListedAccount,
    /// The amount exceeds the minter's mint allowance.
    ExceedsMintAllowance,
    /// The host could not create a dictionary.
    FailedToCreateDictionary,
    /// A mint of zero tokens.
    CannotMintZeroAmount,
    /// The caller is not the master minter.
    NotMasterMinter,
    /// The caller is not the blacklister.
    NotBlacklister,
    /// A burn of zero tokens.
    CannotBurnZeroAmount,
    /// The burn exceeds the minter's balance.
    BurnExceedsBalance,
    /// A transfer of zero tokens.
    CannotTransferZeroAmount,
    /// The address is already blacklisted.
    AlreadyBlacklisted,
    /// The address is not blacklisted.
    NotBlacklisted,
}

impl CsprUSDError {
    /// The numeric code of each error.
    pub open spec fn spec_code(self) -> u16 {
        match self {
            CsprUSDError::InvalidContext => 60000,
            CsprUSDError::InsufficientBalance => 60001,
            CsprUSDError::InsufficientAllowance => 60002,
            CsprUSDError::Overflow => 60003,
            CsprUSDError::PackageHashMissing => 60004,
            CsprUSDError::PackageHashNotPackage => 60005,
            CsprUSDError::Phantom => 60008,
            CsprUSDError::FailedToGetArgBytes => 60009,
            CsprUSDError::InvalidEnableMBFlag => 60014,
            CsprUSDError::AlreadyInitialized => 60015,
            CsprUSDError::CannotTargetSelfUser => 60017,
            CsprUSDError::ContractPaused => 65000,
            CsprUSDError::NotPauser => 65001,
            CsprUSDError::NoPauserProvided => 65002,
            CsprUSDError::NoOwnerProvided => 65003,
            CsprUSDError::NotOwner => 65004,
            CsprUSDError::NotMinter => 65005,
            CsprUSDError::BlackListedAccount => 65006,
            CsprUSDError::ExceedsMintAllowance => 65007,
            CsprUSDError::FailedToCreateDictionary => 65011,
            CsprUSDError::CannotMintZeroAmount => 65012,
            CsprUSDError::NotMasterMinter => 65013,
            CsprUSDError::NotBlacklister => 65014,
            CsprUSDError::CannotBurnZeroAmount => 65015,
            CsprUSDError::BurnExceedsBalance => 65016,
            CsprUSDError::CannotTransferZeroAmount => 65017,
            CsprUSDError::AlreadyBlacklisted => 65018,
            CsprUSDError::NotBlacklisted => 65019,
        }
    }

    /// The numeric code that the host reports for this error.
    pub fn code(&self) -> (r: u16)
        ensures
            r == self.spec_code(),
    {
        match self {
            CsprUSDError::InvalidContext => 60000,
            CsprUSDError::InsufficientBalance => 60001,
            CsprUSDError::InsufficientAllowance => 60002,
            CsprUSDError::Overflow => 60003,
            CsprUSDError::PackageHashMissing => 60004,
            CsprUSDError::PackageHashNotPackage => 60005,
            CsprUSDError::Phantom => 60008,
            CsprUSDError::FailedToGetArgBytes => 60009,
            CsprUSDError::InvalidEnableMBFlag => 60014,
            CsprUSDError::AlreadyInitialized => 60015,
            CsprUSDError::CannotTargetSelfUser => 60017,
            CsprUSDError::ContractPaused => 65000,
            CsprUSDError::NotPauser => 65001,
            CsprUSDError::NoPauserProvided => 65002,
            CsprUSDError::NoOwnerProvided => 65003,
            CsprUSDError::NotOwner => 65004,
            CsprUSDError::NotMinter => 65005,
            CsprUSDError::BlackListedAccount => 65006,
            CsprUSDError::ExceedsMintAllowance => 65007,
            CsprUSDError::FailedToCreateDictionary => 65011,
            CsprUSDError::CannotMintZeroAmount => 65012,
            CsprUSDError::NotMasterMinter => 65013,
            CsprUSDError::NotBlacklister => 65014,
            CsprUSDError::CannotBurnZeroAmount => 65015,
            CsprUSDError::BurnExceedsBalance => 65016,
            CsprUSDError::CannotTransferZeroAmount => 65017,
            CsprUSDError::AlreadyBlacklisted => 65018,
            CsprUSDError::NotBlacklisted => 65019,
        }
    }
}

/// `r` is refused with exactly `refusal` where there is one, and succeeds
/// where there is none.
pub open spec fn refused_with<T>(r: Result<T, CsprUSDError>, refusal: Option<CsprUSDError>) -> bool {
    match refusal {
        Some(e) => r is Err && r->Err_0 == e,
        None => r is Ok,
    }
}

/// No two errors share a code.
pub proof fn lemma_codes_distinct(a: CsprUSDError, b: CsprUSDError)
    ensures
        a.spec_code() == b.spec_code() ==> a == b,
{
}

} // verus!
