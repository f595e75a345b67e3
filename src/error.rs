//! Errors of one invocation.

use vstd::prelude::*;
use chainlink_solana::v2::ReadError;

verus! {

/// Why an invocation failed. Each failure aborts the whole invocation.
#[derive(Debug)]
pub enum ProcessError {
    /// Fewer than two accounts were supplied.
    AccountMissing,
    /// The price feed could not be read; the provider's error, unchanged.
    OracleProviderError(ReadError),
    /// The state account's bytes do not hold a record.
    DeserializationError,
    /// The state account's buffer cannot receive the record.
    SerializationError,
}

} // verus!
