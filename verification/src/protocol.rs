//! Plain-value shapes of the broker protocol: what a request expects back,
//! what a completion signal carries, and the stream descriptors the broker
//! authorizes.

use vstd::prelude::*;

verus! {

/// The response shape an outstanding broker request expects.
#[derive(Clone, Copy, PartialEq, Eq, Structural, Debug)]
pub enum ResponseKind {
    /// A session-established signal carrying the broker's session handle.
    SessionHandle,
    /// A bare completion acknowledgement; any payload is diagnostic only.
    Ack,
    /// A list of authorized stream descriptors.
    Streams,
}

/// One authorized video source returned by the broker.
#[derive(Clone, Debug)]
pub struct StreamDescriptor {
    /// Identifier used to bind the streaming connection to this source.
    pub node_id: u32,
    /// Broker-supplied metadata; opaque beyond presence checks.
    pub properties: Vec<(String, String)>,
}

/// What a broker completion signal carries, reduced to plain values.
#[derive(Debug)]
pub enum SignalPayload {
    /// The session-established signal's handle path.
    SessionHandle(String),
    /// A completion with no data the core extracts.
    Ack,
    /// The authorized stream list delivered at start completion.
    Streams(Vec<StreamDescriptor>),
}

} // verus!
