//! Why a call is turned down.

use solana_program::program_error::ProgramError;
use vstd::prelude::*;

verus! {

/// `ProgramError` of solana-program. Nothing is read from a value of it: the
/// gateway only carries it from where it arose to the caller.
#[verifier::external_type_specification]
#[verifier::external_body]
pub struct ExProgramError(ProgramError);

/// The reason a call fails.
#[derive(Debug, PartialEq, Eq)]
pub enum DispatchError {
    /// The instruction bytes are empty, name no known operation, or are too
    /// short to hold an amount.
    InvalidInstructionData,
    /// Fewer accounts were supplied than the operation names.
    NotEnoughAccountKeys,
    /// The mint account does not hold an initialized mint. The token
    /// library's error is kept as it came.
    MalformedMint(ProgramError),
    /// The request could not be built, or the token program turned it down.
    /// The error is kept as it came.
    Delegated(ProgramError),
}

/// A [`DispatchError`] without the detail that the token library adds.
#[derive(Debug, Clone, Copy, PartialEq, Eq, Structural)]
pub enum ErrorKind {
    InvalidInstructionData,
    NotEnoughAccountKeys,
    MalformedMint,
    Delegated,
}

impl DispatchError {
    /// Which of the four reasons this is.
    pub open spec fn spec_kind(&self) -> ErrorKind {
        match self {
            DispatchError::InvalidInstructionData => ErrorKind::InvalidInstructionData,
            DispatchError::NotEnoughAccountKeys => ErrorKind::NotEnoughAccountKeys,
            DispatchError::MalformedMint(_) => ErrorKind::MalformedMint,
            DispatchError::Delegated(_) => ErrorKind::Delegated,
        }
    }

    /// Which of the four reasons this is.
    #[verifier::when_used_as_spec(spec_kind)]
    pub fn kind(&self) -> (k: ErrorKind)
        ensures
            k == self.spec_kind(),
    {
        match self {
            DispatchError::InvalidInstructionData => ErrorKind::InvalidInstructionData,
            DispatchError::NotEnoughAccountKeys => ErrorKind::NotEnoughAccountKeys,
            DispatchError::MalformedMint(_) => ErrorKind::MalformedMint,
            DispatchError::Delegated(_) => ErrorKind::Delegated,
        }
    }
}

} // verus!
