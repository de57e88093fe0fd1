use vstd::prelude::*;

verus! {

/// Every way in which an instruction of this program fails.
#[derive(Debug, Clone, Copy, PartialEq, Eq, Structural)]
pub enum MintError {
    /// The instruction data is not the encoding of an operation.
    DecodingError,
    /// The system-program or token-program account is not the canonical one.
    InvalidProgramReference,
    /// Fewer accounts were supplied than the operation reads.
    NotEnoughAccountKeys,
    /// An account that had to sign the transaction did not.
    MissingRequiredSignature,
    /// A failure reported by the token program, carried through unchanged.
    CollaboratorError(u64),
}

/// Code of `MissingRequiredSignature` among the runtime's program errors.
pub const MISSING_REQUIRED_SIGNATURES_CODE: u64 = 0x8_0000_0000;

/// The error of this program that a program-error code reported by another
/// program stands for.
pub open spec fn error_of_code(code: u64) -> MintError {
    if code == MISSING_REQUIRED_SIGNATURES_CODE {
        MintError::MissingRequiredSignature
    } else {
        MintError::CollaboratorError(code)
    }
}

impl MintError {
    /// Classifies a program-error code reported by another program.
    pub fn from_code(code: u64) -> (r: MintError)
        ensures
            r == error_of_code(code),
    {
        if code == MISSING_REQUIRED_SIGNATURES_CODE {
            MintError::MissingRequiredSignature
        } else {
            MintError::CollaboratorError(code)
        }
    }
}

} // verus!
