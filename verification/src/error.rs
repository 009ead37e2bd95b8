//! Failure taxonomy of the trust core.
//!
//! Every operation reports failure as a typed value scoped to the single
//! message or operation; none of these conditions is fatal to the process.

use vstd::prelude::*;

verus! {

/// Why a core operation was rejected.
#[derive(Debug, Clone, Copy, PartialEq, Eq, Structural)]
pub enum CoreError {
    /// Wrong field length or unparseable envelope; rejected before any
    /// processing.
    MalformedInput,
    /// Signature mismatch or AEAD tag mismatch; never surfaced as plaintext.
    AuthenticationFailed,
    /// A key-exchange timestamp outside the allowed skew window; a replay or
    /// clock-skew condition, distinct from an authentication failure.
    StaleTimestamp,
    /// Operation addressed to a peer absent from the registry; recoverable
    /// once the corresponding key exchange completes.
    PeerNotFound,
    /// Operation addressed to a room absent from the local room set;
    /// recoverable once the corresponding invite completes.
    RoomNotFound,
    /// An invite whose target is not the local peer; rejected before any
    /// decryption is attempted.
    NotAuthorized,
    /// The authenticated cipher refused the payload.
    EncryptionFailed,
    /// The wall clock could not report seconds since the epoch.
    ClockUnavailable,
}

} // verus!
