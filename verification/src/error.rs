//! The failures an operation of the vault can report.

use vstd::prelude::*;

verus! {

/// Why an operation was refused. A refused operation leaves the vault as it was.
#[derive(Copy, Clone, Debug, PartialEq, Eq, Structural, PartialOrd, Ord)]
pub enum Error {
    /// The vault has not been initialized.
    NotInitialized,
    /// The vault is already initialized.
    AlreadyInitialized,
    /// The caller is not authentic or lacks the role the operation asks for.
    Unauthorized,
    /// An amount must be greater than zero.
    InvalidAmount,
    /// A duration must be greater than zero.
    InvalidDuration,
    /// No lock has this id.
    LockNotFound,
    /// The lock's unlock instant has not been reached.
    LockStillActive,
    /// The lock has already been released.
    AlreadyClaimed,
    /// Fewer signers than the threshold have approved the emergency release.
    EmergencyNotApproved,
    /// No vesting schedule has this id.
    VestingNotFound,
    /// Nothing has vested beyond what was already claimed.
    NothingToClaim,
    /// The signer has already approved this emergency release.
    AlreadyApprovedEmergency,
}

impl Error {
    /// The numeric code of each failure, from 1 to 12 in declaration order.
    pub open spec fn code_of(self) -> u32 {
        match self {
            Error::NotInitialized => 1,
            Error::AlreadyInitialized => 2,
            Error::Unauthorized => 3,
            Error::InvalidAmount => 4,
            Error::InvalidDuration => 5,
            Error::LockNotFound => 6,
            Error::LockStillActive => 7,
            Error::AlreadyClaimed => 8,
            Error::EmergencyNotApproved => 9,
            Error::VestingNotFound => 10,
            Error::NothingToClaim => 11,
            Error::AlreadyApprovedEmergency => 12,
        }
    }

    /// The structured code that callers receive for this failure.
    pub fn code(&self) -> (c: u32)
        ensures
            c == self.code_of(),
            1 <= c <= 12,
    {
        match self {
            Error::NotInitialized => 1,
            Error::AlreadyInitialized => 2,
            Error::Unauthorized => 3,
            Error::InvalidAmount => 4,
            Error::InvalidDuration => 5,
            Error::LockNotFound => 6,
            Error::LockStillActive => 7,
            Error::AlreadyClaimed => 8,
            Error::EmergencyNotApproved => 9,
            Error::VestingNotFound => 10,
            Error::NothingToClaim => 11,
            Error::AlreadyApprovedEmergency => 12,
        }
    }
}

} // verus!
