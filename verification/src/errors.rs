//! The typed rejections of the vesting engine. Every check is evaluated
//! before any mutation, and the first failing check aborts the whole
//! operation; no error is ever recovered internally.

use vstd::prelude::*;

verus! {

#[derive(Clone, Copy, Debug, PartialEq, Eq, Structural)]
pub enum VestingError {
    /// A vesting record cannot be populated twice.
    AlreadyInitialized,
    /// The vesting record has not been populated yet.
    NotInitialized,
    /// The custody holding must be owned by the vesting record itself.
    InvalidVestingTokenAuthority,
    /// The custody holding must not carry a delegate authority.
    InvalidVestingTokenDelegateAuthority,
    /// The custody holding must not carry a close authority.
    InvalidVestingTokenCloseAuthority,
    /// The source holding does not hold strictly more than the schedule total.
    InsufficientFunds,
    /// The supplied schedule list does not match the capacity fixed at
    /// initialization.
    InvalidScheduleLen,
    /// The schedule amounts do not aggregate within the 64-bit range.
    TotalAmountOverflow,
    /// The supplied destination holding is not the registered destination.
    InvalidDestination,
    /// No tranche has reached its release time yet.
    ReleaseTimeNotYetReached,
    /// The supplied authority does not own the registered destination holding.
    InvalidDestinationAuthority,
}

impl VestingError {
    /// A human-readable description of the rejection.
    pub fn message(&self) -> &'static str {
        match self {
            VestingError::AlreadyInitialized => "Cannot overwrite an existing vesting contract.",
            VestingError::NotInitialized => "The vesting account isn't initialized.",
            VestingError::InvalidVestingTokenAuthority => "The vesting token account should be owned by the vesting account.",
            VestingError::InvalidVestingTokenDelegateAuthority => "The vesting token account should not have a delegate authority",
            VestingError::InvalidVestingTokenCloseAuthority => "The vesting token account should not have a close authority",
            VestingError::InsufficientFunds => "The source token account has insufficient funds.",
            VestingError::InvalidScheduleLen => "The schedule vector should have len defined during initialize.",
            VestingError::TotalAmountOverflow => "Total amount overflows u64",
            VestingError::InvalidDestination => "Contract destination account does not matched provided account",
            VestingError::ReleaseTimeNotYetReached => "Vesting contract has not yet reached release time",
            VestingError::InvalidDestinationAuthority => "The current destination token account isn't owned by the provided owner",
        }
    }
}

} // verus!
