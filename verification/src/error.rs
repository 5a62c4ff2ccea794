//! Errors of the arithmetic kernels.

use vstd::prelude::*;

verus! {

/// The ways a kernel can refuse its input.
#[derive(Debug)]
pub enum ArrowError {
    /// The operands do not fit together; the message says how.
    ComputeError(String),
    /// A valid slot of the divisor holds zero.
    DivideByZero,
}

/// Result of a kernel.
pub type Result<T> = std::result::Result<T, ArrowError>;

impl ArrowError {
    /// The error is the complaint about operands of different lengths.
    pub open spec fn is_length_mismatch(self) -> bool {
        &&& self is ComputeError
        &&& self->ComputeError_0@
            == "Cannot perform math operation on arrays of different length"@
    }
}

/// Builds the complaint about operands of different lengths.
pub(crate) fn length_mismatch() -> (e: ArrowError)
    ensures
        e.is_length_mismatch(),
{
    ArrowError::ComputeError(
        "Cannot perform math operation on arrays of different length".to_string(),
    )
}

} // verus!
