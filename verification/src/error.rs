use vstd::prelude::*;

verus! {

/// The failures a session call can surface. Every error is propagated to the
/// caller at once; there is no retry or partial-success path.
#[derive(Debug, Clone, PartialEq, Eq)]
pub enum TuyaError {
    /// A failure at the transport layer: connect refused, configuration
    /// failed, a write failed or was not fully drained, a read failed or
    /// timed out, or shutdown failed. Carries the underlying detail text.
    Transport(String),
    /// The reply read completed with zero bytes: the peer closed in an
    /// orderly way without sending anything. Distinct from a timeout, which
    /// surfaces as [`TuyaError::Transport`].
    BadTcpRead,
    /// A codec failure: an invalid protocol version or key at construction,
    /// an outbound message that cannot be encoded, or reply bytes that do
    /// not parse as well-formed frames.
    Codec,
}

impl TuyaError {
    /// A short label for the error kind, for callers that want to print it.
    pub fn describe(&self) -> (r: &'static str)
        ensures
            self is Transport ==> r@ == "transport failure"@,
            self is BadTcpRead ==> r@ == "empty tcp read"@,
            self is Codec ==> r@ == "codec failure"@,
    {
        match self {
            TuyaError::Transport(_) => "transport failure",
            TuyaError::BadTcpRead => "empty tcp read",
            TuyaError::Codec => "codec failure",
        }
    }
}

} // verus!
