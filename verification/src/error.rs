//! The error taxonomy shared by the decision engines.

use vstd::prelude::*;

verus! {

/// Why an engine refused its input.
#[derive(Debug, Clone, Copy, PartialEq, Eq, Structural)]
pub enum AeonError {
    /// An argument is malformed or outside its domain.
    InvalidInput,
    /// An arithmetic step failed. No engine raises it today.
    MathError,
    /// Fewer observations were supplied than the engine needs.
    InsufficientData,
    /// The hash layer failed. No engine raises it today.
    CryptoError,
}

} // verus!
