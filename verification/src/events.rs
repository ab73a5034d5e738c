//! Outbound events surfaced to the host application.
//!
//! Every notice the node sends to its host is one closed tagged variant;
//! the wire tag for each variant is fixed here, and the host renders the
//! payload at its own boundary.

use vstd::prelude::*;
use crate::hash::MessageId;
use crate::peers::PeerId;

verus! {

/// One notice delivered to the host application's notification sink.
#[derive(Debug)]
pub enum OutboundEvent {
    /// A peer appeared on the local network and is now tracked.
    PeerDiscovered(PeerId),
    /// A tracked peer went away.
    PeerExpired(PeerId),
    /// A gossip message arrived, with its content-addressed id.
    MessageReceived { from: PeerId, id: MessageId, text: String },
    /// A listening address was bound.
    Listening(String),
    /// A publish attempt failed, or the node stopped; the string says why.
    PublishError(String),
}

impl OutboundEvent {
    /// The wire tag under which this event reaches the host.
    pub open spec fn spec_tag(&self) -> Seq<char> {
        match self {
            OutboundEvent::PeerDiscovered(_) => "peer-discovered"@,
            OutboundEvent::PeerExpired(_) => "peer-expired"@,
            OutboundEvent::MessageReceived { .. } => "message-received"@,
            OutboundEvent::Listening(_) => "listening"@,
            OutboundEvent::PublishError(_) => "error"@,
        }
    }

    /// The wire tag under which this event reaches the host.
    pub fn tag(&self) -> (t: &'static str)
        ensures
            t@ == self.spec_tag(),
    {
        match self {
            OutboundEvent::PeerDiscovered(_) => "peer-discovered",
            OutboundEvent::PeerExpired(_) => "peer-expired",
            OutboundEvent::MessageReceived { .. } => "message-received",
            OutboundEvent::Listening(_) => "listening",
            OutboundEvent::PublishError(_) => "error",
        }
    }
}

} // verus!
