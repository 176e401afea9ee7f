//! Failure codes surfaced by every operation of the ledger.
//!
//! Each validation failure aborts the whole operation and is reported as one
//! of these codes; no failure is ever converted into a default value.

use vstd::prelude::*;

verus! {

/// Every way an operation of the platform can fail.
#[derive(Clone, Copy, Debug, PartialEq, Eq, Structural)]
pub enum YourFunError {
    /// The provided proof data is invalid or corrupted.
    InvalidProof,
    /// This wallet has already been verified as human.
    AlreadyVerified,
    /// The verification session has expired.
    SessionExpired,
    /// The caller is not authorized to perform this action.
    Unauthorized,
    /// The platform registry is currently paused.
    RegistryPaused,
    /// The challenge response does not match the expected value.
    ChallengeMismatch,
    /// The fingerprint data exceeds the maximum allowed length.
    FingerprintTooLong,
    /// The session is no longer active.
    SessionInactive,
    /// The interaction content hash is malformed.
    InvalidContentHash,
    /// The provided timestamp is in the future.
    FutureTimestamp,
    /// The maximum number of interactions per session has been reached.
    InteractionLimitReached,
    /// The verification level provided is out of valid range.
    InvalidVerificationLevel,
    /// The behavioral analysis score is below the minimum threshold.
    BehavioralScoreTooLow,
    /// The session duration exceeds the maximum allowed period.
    SessionDurationExceeded,
    /// The content hash must be exactly 32 bytes.
    ContentHashLengthInvalid,
    /// The companion personality identifier is invalid.
    InvalidPersonalityId,
    /// This human record has been revoked and cannot be reactivated.
    HumanRecordRevoked,
    /// The registry authority does not match the signer.
    AuthorityMismatch,
    /// Numerical overflow occurred during computation.
    NumericalOverflow,
}

} // verus!
