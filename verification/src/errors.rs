//! Typed errors of the sender lifecycle and of credential authentication.

use vstd::prelude::*;

verus! {

/// Failure reported by an upstream collaborator (a track, the transform
/// chain, or the encrypted writer), carried through the sender verbatim.
#[derive(Debug, Clone, PartialEq, Eq)]
pub struct UpstreamError {
    /// Description handed back by the collaborator.
    pub message: String,
}

/// Errors of the sender lifecycle.
#[derive(Debug, Clone, PartialEq, Eq)]
pub enum SenderError {
    /// The one-shot send signal was already consumed.
    AlreadySent,
    /// A replacement track's kind conflicts with the kind the transceiver
    /// negotiated.
    NegotiationMismatch,
    /// No codec could be resolved for the sender's current track.
    UnsupportedCodec,
    /// An upstream collaborator failed; the failure is propagated verbatim.
    Upstream(UpstreamError),
}

/// Errors of long-term credential authentication.
#[derive(Debug, Clone, Copy, PartialEq, Eq, Structural)]
pub enum AuthError {
    /// The username is not a decimal Unix timestamp.
    InvalidTimestamp,
    /// The time-windowed username lies in the past.
    Expired,
}

} // verus!
