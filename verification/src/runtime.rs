//! The event loop's decision function.
//!
//! The loop itself multiplexes three input sources — the operator console,
//! the protocol event stream, and the notification bridge — and performs
//! one decision per input, to completion, before the next.  Every decision
//! is made here: what the node does, which outbound events the host gets,
//! and whether the loop keeps running.  A failed publish or a duplicate
//! message never stops the loop; an explicit shutdown or the end of the
//! protocol stream always does, with a final report.

use vstd::prelude::*;
use crate::events::OutboundEvent;
use crate::hash::text_message_id;
use crate::node::{Node, NodeState, NodeView, PublishError};
use crate::peers::PeerId;

verus! {

/// One notice from the protocol stack.
#[derive(Debug)]
pub enum ProtocolEvent {
    /// Local-network discovery found a peer.
    Discovered(PeerId),
    /// A discovered peer went away.
    Expired(PeerId),
    /// A gossip message arrived on the subscribed topic.
    Message { from: PeerId, text: String },
    /// A listening address was bound.
    AddressBound(String),
}

/// One input the event loop woke up on.
#[derive(Debug)]
pub enum LoopInput {
    /// A line typed on the operator console: publish it.
    ConsoleLine(String),
    /// A publish command read from the notification bridge.
    Command(String),
    /// The bridge reported this many commands dropped before the loop
    /// caught up.
    CommandsLagged(u64),
    /// A notice from the protocol stack.
    Protocol(ProtocolEvent),
    /// The host asked the node to stop.
    Shutdown,
    /// The protocol event stream ended; the string says why.
    StreamClosed(String),
}

/// What one loop iteration decided.
pub struct StepOutcome {
    /// The outbound events to deliver to the host, in order.
    pub events: Vec<OutboundEvent>,
    /// Whether the loop keeps running.
    pub running: bool,
}

/// How a publish attempt changes the seen-id record and what it reports:
/// with no tracked peer the message is accepted locally and a `NoPeers`
/// report goes out; a transport failure changes nothing and is reported;
/// a delivered publish is silent.
pub open spec fn publish_outcome_ok(
    pre: NodeView,
    text: Seq<char>,
    transport_ok: bool,
    post_seen: Set<crate::hash::MessageId>,
    events: Seq<OutboundEvent>,
) -> bool {
    if pre.peers.is_empty() {
        &&& post_seen == pre.seen.insert(text_message_id(text))
        &&& events.len() == 1
        &&& events[0] matches OutboundEvent::PublishError(m) && m@
            == PublishError::NoPeers.spec_describe()
    } else if !transport_ok {
        &&& post_seen == pre.seen
        &&& events.len() == 1
        &&& events[0] matches OutboundEvent::PublishError(m) && m@
            == PublishError::Transport.spec_describe()
    } else {
        &&& post_seen == pre.seen.insert(text_message_id(text))
        &&& events.len() == 0
    }
}

/// How one protocol notice changes the node and what the host is told:
/// peer lifecycle notices update the explicit-peer set and are reported;
/// a fresh message is recorded and delivered, a duplicate is dropped
/// silently; a bound address is recorded and reported.
pub open spec fn protocol_outcome_ok(
    pre: NodeView,
    pe: ProtocolEvent,
    post: NodeView,
    events: Seq<OutboundEvent>,
) -> bool {
    match pe {
        ProtocolEvent::Discovered(p) => {
            &&& post.peers == pre.peers.insert(p)
            &&& post.seen == pre.seen
            &&& post.listen_addrs == pre.listen_addrs
            &&& events.len() == 1
            &&& events[0] matches OutboundEvent::PeerDiscovered(q) && q == p
        },
        ProtocolEvent::Expired(p) => {
            &&& post.peers == pre.peers.remove(p)
            &&& post.seen == pre.seen
            &&& post.listen_addrs == pre.listen_addrs
            &&& events.len() == 1
            &&& events[0] matches OutboundEvent::PeerExpired(q) && q == p
        },
        ProtocolEvent::Message { from, text } => {
            &&& post.peers == pre.peers
            &&& post.listen_addrs == pre.listen_addrs
            &&& if pre.seen.contains(text_message_id(text@)) {
                &&& post.seen == pre.seen
                &&& events.len() == 0
            } else {
                &&& post.seen == pre.seen.insert(text_message_id(text@))
                &&& events.len() == 1
                &&& events[0] matches OutboundEvent::MessageReceived { from: f, id, text: t }
                    && f == from && id == text_message_id(text@) && t@ == text@
            }
        },
        ProtocolEvent::AddressBound(a) => {
            &&& post.peers == pre.peers
            &&& post.seen == pre.seen
            &&& post.listen_addrs == pre.listen_addrs.push(a@)
            &&& events.len() == 1
            &&& events[0] matches OutboundEvent::Listening(b) && b@ == a@
        },
    }
}

/// Publish `text` and turn a failure into a report for the host; a
/// failure never escalates.
fn publish_and_report(node: &mut Node, text: &str, transport_ok: bool) -> (events: Vec<
    OutboundEvent,
>)
    requires
        old(node).wf(),
        old(node)@.state == NodeState::Listening,
    ensures
        final(node).wf(),
        final(node)@.state == old(node)@.state,
        final(node)@.topic == old(node)@.topic,
        final(node)@.peers == old(node)@.peers,
        final(node)@.listen_addrs == old(node)@.listen_addrs,
        publish_outcome_ok(old(node)@, text@, transport_ok, final(node)@.seen, events@),
{
    let mut events: Vec<OutboundEvent> = Vec::new();
    match node.publish(text, transport_ok) {
        Ok(_) => {},
        Err(e) => {
            let m = e.describe();
            events.push(OutboundEvent::PublishError(m.to_owned()));
        },
    }
    events
}

/// Decide one iteration of the event loop.
///
/// Console lines and bridge commands are published; a gap reported by the
/// bridge is tolerated silently; protocol notices update the node and are
/// surfaced; `Shutdown` and a closed protocol stream stop the node and the
/// loop, with a final report.  No input stops the loop but those two.
pub fn step(node: &mut Node, input: LoopInput, transport_ok: bool) -> (out: StepOutcome)
    requires
        old(node).wf(),
        old(node)@.state == NodeState::Listening,
    ensures
        final(node).wf(),
        final(node)@.topic == old(node)@.topic,
        out.running == !(input matches LoopInput::Shutdown || input
            matches LoopInput::StreamClosed(_)),
        out.running ==> final(node)@.state == NodeState::Listening,
        !out.running ==> final(node)@.state == NodeState::Stopped,
        input matches LoopInput::ConsoleLine(t) ==> {
            &&& final(node)@.peers == old(node)@.peers
            &&& final(node)@.listen_addrs == old(node)@.listen_addrs
            &&& publish_outcome_ok(old(node)@, t@, transport_ok, final(node)@.seen, out.events@)
        },
        input matches LoopInput::Command(t) ==> {
            &&& final(node)@.peers == old(node)@.peers
            &&& final(node)@.listen_addrs == old(node)@.listen_addrs
            &&& publish_outcome_ok(old(node)@, t@, transport_ok, final(node)@.seen, out.events@)
        },
        input matches LoopInput::CommandsLagged(_) ==> {
            &&& final(node)@ == old(node)@
            &&& out.events@.len() == 0
        },
        input matches LoopInput::Protocol(pe) ==> protocol_outcome_ok(
            old(node)@,
            pe,
            final(node)@,
            out.events@,
        ),
        input matches LoopInput::Shutdown ==> {
            &&& final(node)@.peers == old(node)@.peers
            &&& final(node)@.seen == old(node)@.seen
            &&& final(node)@.listen_addrs == old(node)@.listen_addrs
            &&& out.events@.len() == 1
            &&& out.events@[0] matches OutboundEvent::PublishError(m) && m@ == "node stopped"@
        },
        input matches LoopInput::StreamClosed(why) ==> {
            &&& final(node)@.peers == old(node)@.peers
            &&& final(node)@.seen == old(node)@.seen
            &&& final(node)@.listen_addrs == old(node)@.listen_addrs
            &&& out.events@.len() == 1
            &&& out.events@[0] matches OutboundEvent::PublishError(m) && m@ == why@
        },
{
    match input {
        LoopInput::ConsoleLine(t) => {
            let events = publish_and_report(node, t.as_str(), transport_ok);
            StepOutcome { events, running: true }
        },
        LoopInput::Command(t) => {
            let events = publish_and_report(node, t.as_str(), transport_ok);
            StepOutcome { events, running: true }
        },
        LoopInput::CommandsLagged(_) => {
            StepOutcome { events: Vec::new(), running: true }
        },
        LoopInput::Protocol(pe) => {
            let mut events: Vec<OutboundEvent> = Vec::new();
            match pe {
                ProtocolEvent::Discovered(p) => {
                    node.peer_discovered(p);
                    events.push(OutboundEvent::PeerDiscovered(p));
                },
                ProtocolEvent::Expired(p) => {
                    node.peer_expired(p);
                    events.push(OutboundEvent::PeerExpired(p));
                },
                ProtocolEvent::Message { from, text } => {
                    match node.accept_inbound(text.as_str()) {
                        Some(id) => {
                            events.push(OutboundEvent::MessageReceived { from, id, text });
                        },
                        None => {},
                    }
                },
                ProtocolEvent::AddressBound(a) => {
                    let shown = a.clone();
                    node.address_bound(a);
                    events.push(OutboundEvent::Listening(shown));
                },
            }
            StepOutcome { events, running: true }
        },
        LoopInput::Shutdown => {
            node.shutdown();
            let mut events: Vec<OutboundEvent> = Vec::new();
            events.push(OutboundEvent::PublishError("node stopped".to_owned()));
            StepOutcome { events, running: false }
        },
        LoopInput::StreamClosed(why) => {
            node.shutdown();
            let mut events: Vec<OutboundEvent> = Vec::new();
            events.push(OutboundEvent::PublishError(why));
            StepOutcome { events, running: false }
        },
    }
}

} // verus!
