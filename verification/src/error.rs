//! The error taxonomy of the client core.
//!
//! A transport failure, an explicit peer rejection, a protocol-invariant
//! violation, an insufficient quorum and a failed bootstrap rendezvous are
//! five distinct conditions and are kept apart, since each warrants a
//! different reaction from the caller.

use vstd::prelude::*;

verus! {

/// A transport or routing failure reported by the network layer.
///
/// In majority-style reductions such a failure is demoted to a non-vote; it
/// surfaces as the operation's error only when no rejection was seen and no
/// majority was reached.
#[derive(Clone, Copy, Debug, PartialEq, Eq, Structural)]
pub enum NetworkError {
    /// The peer could not be reached at all.
    PeerUnreachable,
    /// The peer was reached but never answered in time.
    Timeout,
}

/// An explicit negative application-level answer from a peer.
#[derive(Clone, Copy, Debug, PartialEq, Eq, Structural)]
pub enum Rejection {
    /// The peer already holds the data and refuses the duplicate.
    DataExists,
    /// The peer is at its storage limit.
    StorageFull,
    /// The payload failed the peer's validation.
    InvalidData,
}

/// The outcome surfaced to callers of the client operations.
#[derive(Clone, Copy, Debug, PartialEq, Eq, Structural)]
pub enum Error {
    /// A failure of the network layer itself, propagated unchanged.
    Network(NetworkError),
    /// A peer's explicit rejection, surfaced verbatim when no majority was
    /// reached and a rejection was observed.
    Protocol(Rejection),
    /// Syntactically valid responses of the wrong kind for the request sent:
    /// a protocol-invariant violation, distinct from a rejection and from a
    /// network error.
    UnexpectedResponses,
    /// Fewer than the required number of usable responses were obtained;
    /// carries the observed count and the required threshold.
    CouldNotVerifyTransfer { received: usize, required: usize },
    /// The bootstrap rendezvous never reached the required count of distinct
    /// connections before the event stream closed.
    SessionBootstrapFailure { connected: usize, required: usize },
}

} // verus!
