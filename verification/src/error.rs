//! The reasons for which an attempt is turned down.

use vstd::prelude::*;

verus! {

/// Why an attempt failed. Every failure ends the whole attempt.
#[derive(Clone, Copy, Debug, PartialEq, Eq, Structural)]
pub enum IssuanceError {
    /// The opcode or the payload is malformed.
    ParseError,
    /// The round is not in the registry.
    InvalidRound,
    /// The proof does not lead from the claimant's leaf to the round's root.
    ProofInvalid,
    /// A record for this claimant and round exists already.
    AlreadyIssued,
    /// An address that the caller supplied is not the one derived from the inputs.
    DerivationMismatch,
    /// An account that has to sign did not.
    AuthorizationMissing,
    /// A collaborator turned a call down; its code is passed on as it came.
    CollaboratorFailure(u64),
    /// The record's storage is too small for the payload.
    InsufficientCapacity,
    /// The caller passed fewer accounts than the operation reads.
    NotEnoughAccounts,
    /// An account is not owned by, or is not, the program that is expected.
    IncorrectProgram,
    /// A balance would exceed the range of 64 bits.
    ArithmeticOverflow,
    /// The authority holds less than it is asked to send.
    InsufficientFunds,
}

impl IssuanceError {
    /// The code that tells a reason from every other. A collaborator's
    /// own code is not part of it: it travels beside it, unchanged.
    pub open spec fn code_spec(self) -> u8 {
        match self {
            IssuanceError::ParseError => 1,
            IssuanceError::InvalidRound => 2,
            IssuanceError::ProofInvalid => 3,
            IssuanceError::AlreadyIssued => 4,
            IssuanceError::DerivationMismatch => 5,
            IssuanceError::AuthorizationMissing => 6,
            IssuanceError::CollaboratorFailure(_) => 7,
            IssuanceError::InsufficientCapacity => 8,
            IssuanceError::NotEnoughAccounts => 9,
            IssuanceError::IncorrectProgram => 10,
            IssuanceError::ArithmeticOverflow => 11,
            IssuanceError::InsufficientFunds => 12,
        }
    }

    /// The code of the reason.
    pub fn code(&self) -> (code: u8)
        ensures
            code == self.code_spec(),
    {
        match self {
            IssuanceError::ParseError => 1,
            IssuanceError::InvalidRound => 2,
            IssuanceError::ProofInvalid => 3,
            IssuanceError::AlreadyIssued => 4,
            IssuanceError::DerivationMismatch => 5,
            IssuanceError::AuthorizationMissing => 6,
            IssuanceError::CollaboratorFailure(_) => 7,
            IssuanceError::InsufficientCapacity => 8,
            IssuanceError::NotEnoughAccounts => 9,
            IssuanceError::IncorrectProgram => 10,
            IssuanceError::ArithmeticOverflow => 11,
            IssuanceError::InsufficientFunds => 12,
        }
    }
}

/// Every reason has a code of its own: two reasons with one code are the
/// same reason, up to the code that a collaborator gave.
pub proof fn law_codes_are_distinct(a: IssuanceError, b: IssuanceError)
    requires
        a.code_spec() == b.code_spec(),
    ensures
        a == b || (a is CollaboratorFailure && b is CollaboratorFailure),
{
}

} // verus!
