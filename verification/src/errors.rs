//! Error taxonomy of the registration core.
//!
//! Every component failure is mapped to one of these coarse causes; no
//! structured detail beyond the variant crosses the trust boundary.

use vstd::prelude::*;

verus! {

/// One failure cause, as coarse as the host is allowed to see it.
#[derive(Clone, Copy, PartialEq, Eq, Structural, Debug)]
pub enum RegError {
    /// A malformed or mis-sized input buffer.
    InvalidInput,
    /// Key generation, encryption or decryption failed, including an
    /// authentication-tag mismatch.
    CryptoFailure,
    /// A lifecycle-ordering violation: an operation needs a consensus seed
    /// that does not exist yet.
    SeedMissing,
    /// The supplied genesis seed does not match the sealed one.
    SeedMismatch,
    /// A sealed record that the operation needs is absent.
    NotFound,
    /// A persistence read or write error.
    SealingFailure,
    /// Hardware report or quote generation failed.
    AttestationFailure,
    /// A legacy-format sealed record could not be converted.
    MigrationFailure,
}

} // verus!
