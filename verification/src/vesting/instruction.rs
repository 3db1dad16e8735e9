//! The operations on a vesting schedule, and the errors they fail with.

use vstd::prelude::*;
use crate::address::Address;
use crate::vesting::state::VestingType;

verus! {

/// One operation on a vesting schedule with its payload.
#[derive(Clone, Copy, Debug)]
pub enum VestingInstruction {
    /// Create a schedule. Signed by the authority that creates it.
    Initialize {
        start_timestamp: i64,
        end_timestamp: i64,
        total_amount: u64,
        vesting_type: VestingType,
    },
    /// Release what has vested to the beneficiary. Signed by the
    /// beneficiary.
    Release,
    /// Take back what the schedule still holds. Signed by the authority.
    Revoke,
    /// Hand the schedule to another beneficiary. Signed by the current one.
    UpdateBeneficiary { new_beneficiary: Address },
}

/// Why an operation on a vesting schedule was refused.
#[derive(Clone, Copy, Debug, PartialEq, Eq, Structural)]
pub enum VestingError {
    InvalidInstruction,
    NotRentExempt,
    AlreadyInitialized,
    NotInitialized,
    InvalidBeneficiary,
    InvalidAuthority,
    InvalidVestingSchedule,
    NoTokensToRelease,
    InvalidTokenAccount,
    InvalidRevocation,
}

} // verus!
