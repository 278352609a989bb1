//! Error types shared by the codec, the mirror and the trigger engine.

use vstd::prelude::*;

verus! {

/// Errors reported by the library's own operations.
#[derive(Debug, Clone, Copy, PartialEq, Eq, Structural)]
pub enum CliError {
    /// Invalid address format.
    InvalidAddress,
    /// Failed to parse a response.
    ParseError,
    /// No result returned from a contract call.
    NoResult,
    /// Contract call failed.
    ContractCallFailed,
    /// Invalid contract method.
    InvalidMethod,
    /// Unsupported argument kind.
    ConversionError,
    /// The persistent store reported a failure.
    StoreFailed,
}

} // verus!
