//! Failures of the contest's instructions.

use vstd::prelude::*;
use vstd::std_specs::convert::FromSpecImpl;

verus! {

/// A violation of one of the contest's own rules.
#[derive(Debug, Clone, Copy, PartialEq, Eq, Structural)]
pub enum HateFunError {
    /// Combined fees exceed the maximum of 20%.
    FeesTooHigh,
    /// The creator's address is one of the two competing addresses.
    CreatorMustBeDifferent,
    /// The minimum increase lies outside 1% to 50%.
    InvalidMinimumIncrease,
    /// The initial threshold baseline is below 100,000 units.
    InitialSwapTooLow,
    /// The escrow holds less than the threshold a flush requires.
    InsufficientEscrowBalance,
    /// Fewer than three epochs have passed since the last flip.
    ClaimTooEarly,
    /// Someone other than the creator tried to close the contest.
    UnauthorizedClose,
    /// The contest has been flushed and can no longer be closed.
    BucketHasFlips,
    /// An escrow holds more than the minimum-persistence balance.
    EscrowsNotEmpty,
    /// The escrow account does not belong to this contest.
    InvalidEscrow,
    /// A checked computation left the range of its type.
    Overflow,
    /// The deposit is below the dust floor.
    DepositTooSmall,
    /// The deposit is zero.
    ZeroAmountDeposit,
}

impl HateFunError {
    /// The number under which the ledger reports this error.
    pub open spec fn spec_code(self) -> u32 {
        match self {
            HateFunError::FeesTooHigh => 0,
            HateFunError::CreatorMustBeDifferent => 1,
            HateFunError::InvalidMinimumIncrease => 2,
            HateFunError::InitialSwapTooLow => 3,
            HateFunError::InsufficientEscrowBalance => 4,
            HateFunError::ClaimTooEarly => 5,
            HateFunError::UnauthorizedClose => 6,
            HateFunError::BucketHasFlips => 7,
            HateFunError::EscrowsNotEmpty => 8,
            HateFunError::InvalidEscrow => 9,
            HateFunError::Overflow => 10,
            HateFunError::DepositTooSmall => 11,
            HateFunError::ZeroAmountDeposit => 12,
        }
    }

    /// The number under which the ledger reports this error.
    #[verifier::when_used_as_spec(spec_code)]
    pub fn code(self) -> (c: u32)
        ensures
            c == self.spec_code(),
    {
        match self {
            HateFunError::FeesTooHigh => 0,
            HateFunError::CreatorMustBeDifferent => 1,
            HateFunError::InvalidMinimumIncrease => 2,
            HateFunError::InitialSwapTooLow => 3,
            HateFunError::InsufficientEscrowBalance => 4,
            HateFunError::ClaimTooEarly => 5,
            HateFunError::UnauthorizedClose => 6,
            HateFunError::BucketHasFlips => 7,
            HateFunError::EscrowsNotEmpty => 8,
            HateFunError::InvalidEscrow => 9,
            HateFunError::Overflow => 10,
            HateFunError::DepositTooSmall => 11,
            HateFunError::ZeroAmountDeposit => 12,
        }
    }
}

/// Why an instruction was refused. Every refusal leaves all accounts as they were.
#[derive(Debug, Clone, Copy, PartialEq, Eq, Structural)]
pub enum InstructionError {
    /// The instruction's bytes are too short or name no known operation.
    InvalidInstructionData,
    /// The instruction came with the wrong number of accounts.
    NotEnoughAccountKeys,
    /// An account that had to sign did not.
    MissingRequiredSignature,
    /// An account's address is not the one derived for its role.
    InvalidSeeds,
    /// The contest record is not owned by this program.
    IllegalOwner,
    /// An account is not the one the contest record names.
    InvalidAccountData,
    /// The record account holds fewer bytes than a contest record.
    AccountDataTooSmall,
    /// The ledger did not supply its clock or its minimum-persistence balance.
    UnsupportedSysvar,
    /// One of the contest's own rules was violated.
    Custom(HateFunError),
}

impl From<HateFunError> for InstructionError {
    fn from(e: HateFunError) -> (r: InstructionError) {
        InstructionError::Custom(e)
    }
}

impl FromSpecImpl<HateFunError> for InstructionError {
    open spec fn obeys_from_spec() -> bool {
        true
    }

    open spec fn from_spec(e: HateFunError) -> InstructionError {
        InstructionError::Custom(e)
    }
}

} // verus!
