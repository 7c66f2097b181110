//! The error taxonomy of the oracle core.

use vstd::prelude::*;

verus! {

/// Everything that can go wrong while mutating the registry or verifying a
/// price report. Every error aborts the whole operation: no partial state
/// change survives a failed call.
#[derive(Clone, Copy, Debug, PartialEq, Eq, Structural)]
pub enum ErrorCode {
    /// Fewer signatures were submitted than the registry's quorum demands.
    InsufficientSignatures,
    /// The oracle address is already registered.
    OracleAlreadyExists,
    /// The caller is not the registry's admin.
    UnauthorizedAdmin,
    /// The signature and recovery-id lists have different lengths.
    ArrayLengthMismatch,
    /// The registry's signer capacity is exhausted.
    MaxOraclesReached,
    /// A signature or recovery id was malformed; the whole batch is void.
    SignatureVerificationFailed,
    /// The full list was processed but too few entries matched registered
    /// signers.
    InsufficientValidSignatures,
}

} // verus!
