//! Core of a peer-to-peer gossip messaging node.
//!
//! The node keeps a topic subscription, an explicit set of peers found by
//! local-network discovery, and a record of message ids already seen; it
//! publishes text messages to the subscribed topic and surfaces inbound
//! protocol activity as tagged outbound events.  All decisions — what a
//! publish returns, how the peer set changes, when the event loop stops —
//! are made here on plain values; binding sockets, driving transports and
//! delivering events to the host application stay outside.

pub mod bridge;
pub mod events;
pub mod hash;
pub mod node;
pub mod peers;
pub mod runtime;
pub mod validate;
