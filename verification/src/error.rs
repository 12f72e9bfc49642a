//! The ways in which a buffer can fail to be the layer it is read as.

use vstd::prelude::*;

verus! {

/// Why a buffer could not be decoded as the layer it was handed to.
#[derive(Debug, Clone, Copy, PartialEq, Eq, Structural)]
pub enum DecodeError {
    /// Fewer bytes remain than the next field of the layout occupies.
    Truncated,
    /// A header length or data offset announces fewer than five 32-bit words,
    /// less than the fixed part of the header it belongs to.
    HeaderLengthTooSmall,
    /// The version field is not that of the protocol being decoded.
    VersionMismatch,
}

impl DecodeError {
    /// A structural failure: the buffer is too short for the layout, or one of
    /// its length fields is below the minimum.
    pub open spec fn spec_is_structural(&self) -> bool {
        *self is Truncated || *self is HeaderLengthTooSmall
    }

    /// Whether the failure is structural.
    #[verifier::when_used_as_spec(spec_is_structural)]
    pub fn is_structural(&self) -> (structural: bool)
        ensures
            structural == self.spec_is_structural(),
    {
        match self {
            DecodeError::Truncated => true,
            DecodeError::HeaderLengthTooSmall => true,
            DecodeError::VersionMismatch => false,
        }
    }
}

} // verus!
