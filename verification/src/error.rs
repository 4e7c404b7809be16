//! The error taxonomy every pool operation draws from.

use vstd::prelude::*;

verus! {

/// One named failure per way an operation can be refused. Every operation
/// either succeeds with a mutated record or returns exactly one of these;
/// no partial state change survives a failure.
#[derive(Clone, Copy, PartialEq, Eq, Structural, Debug)]
pub enum StakingError {
    /// The payload does not decode into a known operation, or the record
    /// is missing or malformed.
    InvalidInstruction,
    /// A newly created account lacks the minimum balance the host requires
    /// for persistence (checked at initialization only).
    NotRentExempt,
    /// A deposit or redemption amount is zero, or a redemption exceeds the
    /// outstanding claim supply.
    InsufficientFunds,
    /// The signer does not match the role the operation requires.
    Unauthorized,
    /// An authority acceptance was attempted with no outstanding proposal.
    AdminChangeFailed,
}

impl StakingError {
    /// The small-integer code surfaced to callers, in declaration order.
    pub open spec fn spec_code(self) -> u32 {
        match self {
            StakingError::InvalidInstruction => 0,
            StakingError::NotRentExempt => 1,
            StakingError::InsufficientFunds => 2,
            StakingError::Unauthorized => 3,
            StakingError::AdminChangeFailed => 4,
        }
    }

    /// The numeric error code this variant is reported as.
    pub fn code(&self) -> (c: u32)
        ensures
            c == self.spec_code(),
    {
        match self {
            StakingError::InvalidInstruction => 0,
            StakingError::NotRentExempt => 1,
            StakingError::InsufficientFunds => 2,
            StakingError::Unauthorized => 3,
            StakingError::AdminChangeFailed => 4,
        }
    }
}

} // verus!
