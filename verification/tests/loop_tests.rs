use gossip_node::events::OutboundEvent;
use gossip_node::hash::message_id_for_text;
use gossip_node::node::{Node, NodeState, PublishError};
use gossip_node::peers::PeerId;
use gossip_node::runtime::{step, LoopInput, ProtocolEvent};

fn peer(raw: u64) -> PeerId {
    PeerId { raw }
}

fn listening_node() -> Node {
    let mut n = Node::new();
    let r = n.start("test-net".to_owned(), true, true, true);
    assert!(r.is_ok());
    n
}

#[test]
fn publish_with_no_peers_surfaces_a_report_and_continues() {
    // publish against an empty explicit-peer set: the loop surfaces the
    // no-peers condition as an outbound error event and keeps running.
    let mut n = listening_node();
    let out = step(&mut n, LoopInput::Command("hi".to_owned()), true);
    assert!(out.running);
    assert!(n.is_listening());
    assert_eq!(out.events.len(), 1);
    match &out.events[0] {
        OutboundEvent::PublishError(m) => {
            assert_eq!(m, PublishError::NoPeers.describe());
            assert_eq!(out.events[0].tag(), "error");
        }
        other => panic!("expected an error report, got {:?}", other),
    }
}

#[test]
fn delivered_publish_is_silent() {
    let mut n = listening_node();
    n.peer_discovered(peer(9));
    let out = step(&mut n, LoopInput::ConsoleLine("hello".to_owned()), true);
    assert!(out.running);
    assert!(out.events.is_empty());
    assert!(n.has_seen(message_id_for_text("hello")));
}

#[test]
fn transport_failure_is_reported_not_fatal() {
    let mut n = listening_node();
    n.peer_discovered(peer(9));
    let out = step(&mut n, LoopInput::Command("hello".to_owned()), false);
    assert!(out.running);
    assert_eq!(out.events.len(), 1);
    match &out.events[0] {
        OutboundEvent::PublishError(m) => {
            assert_eq!(m, PublishError::Transport.describe())
        }
        other => panic!("expected an error report, got {:?}", other),
    }
    assert!(n.is_listening());
}

#[test]
fn discovery_and_expiry_are_surfaced() {
    let mut n = listening_node();
    let out = step(
        &mut n,
        LoopInput::Protocol(ProtocolEvent::Discovered(peer(3))),
        true,
    );
    assert!(out.running);
    assert_eq!(out.events.len(), 1);
    match &out.events[0] {
        OutboundEvent::PeerDiscovered(p) => {
            assert_eq!(*p, peer(3));
            assert_eq!(out.events[0].tag(), "peer-discovered");
        }
        other => panic!("expected a discovery event, got {:?}", other),
    }
    assert!(n.is_tracking(peer(3)));

    let out = step(
        &mut n,
        LoopInput::Protocol(ProtocolEvent::Expired(peer(3))),
        true,
    );
    assert_eq!(out.events.len(), 1);
    match &out.events[0] {
        OutboundEvent::PeerExpired(p) => {
            assert_eq!(*p, peer(3));
            assert_eq!(out.events[0].tag(), "peer-expired");
        }
        other => panic!("expected an expiry event, got {:?}", other),
    }
    assert!(!n.is_tracking(peer(3)));
}

#[test]
fn received_message_reaches_the_sink_with_its_content_id() {
    // two nodes on the same network: after B discovers A, a message
    // published by A and delivered to B surfaces as a message-received
    // event with the same text and the matching content-addressed id.
    let mut a = listening_node();
    let mut b = listening_node();
    let a_id = peer(1);

    // B's discovery layer reports A
    let out = step(
        &mut b,
        LoopInput::Protocol(ProtocolEvent::Discovered(a_id)),
        true,
    );
    assert!(out.running);

    // A's discovery layer reports B, then A publishes
    a.peer_discovered(peer(2));
    let published = a.publish("hello", true).expect("publish should reach the peer");

    // the network hands A's payload to B
    let out = step(
        &mut b,
        LoopInput::Protocol(ProtocolEvent::Message {
            from: a_id,
            text: "hello".to_owned(),
        }),
        true,
    );
    assert!(out.running);
    assert_eq!(out.events.len(), 1);
    match &out.events[0] {
        OutboundEvent::MessageReceived { from, id, text } => {
            assert_eq!(*from, a_id);
            assert_eq!(text, "hello");
            assert_eq!(*id, published);
            assert_eq!(*id, message_id_for_text("hello"));
            assert_eq!(out.events[0].tag(), "message-received");
        }
        other => panic!("expected a received message, got {:?}", other),
    }
}

#[test]
fn duplicate_message_is_dropped_silently() {
    let mut n = listening_node();
    let input = |text: &str| {
        LoopInput::Protocol(ProtocolEvent::Message {
            from: peer(4),
            text: text.to_owned(),
        })
    };
    let out = step(&mut n, input("once"), true);
    assert_eq!(out.events.len(), 1);
    let out = step(&mut n, input("once"), true);
    assert!(out.running);
    assert!(out.events.is_empty());
}

#[test]
fn bound_address_is_reported() {
    let mut n = listening_node();
    let out = step(
        &mut n,
        LoopInput::Protocol(ProtocolEvent::AddressBound("/ip4/0.0.0.0/tcp/40001".to_owned())),
        true,
    );
    assert_eq!(out.events.len(), 1);
    match &out.events[0] {
        OutboundEvent::Listening(addr) => {
            assert_eq!(addr, "/ip4/0.0.0.0/tcp/40001");
            assert_eq!(out.events[0].tag(), "listening");
        }
        other => panic!("expected a listening event, got {:?}", other),
    }
    assert_eq!(n.listen_addr_count(), 1);
}

#[test]
fn command_lag_is_tolerated_silently() {
    let mut n = listening_node();
    let out = step(&mut n, LoopInput::CommandsLagged(3), true);
    assert!(out.running);
    assert!(out.events.is_empty());
    assert!(n.is_listening());
}

#[test]
fn shutdown_stops_the_loop_with_a_final_report() {
    let mut n = listening_node();
    let out = step(&mut n, LoopInput::Shutdown, true);
    assert!(!out.running);
    assert_eq!(n.node_state(), NodeState::Stopped);
    assert_eq!(out.events.len(), 1);
    match &out.events[0] {
        OutboundEvent::PublishError(m) => assert_eq!(m, "node stopped"),
        other => panic!("expected a final report, got {:?}", other),
    }
}

#[test]
fn closed_stream_stops_the_loop_with_the_reason() {
    let mut n = listening_node();
    let out = step(
        &mut n,
        LoopInput::StreamClosed("transport failed".to_owned()),
        true,
    );
    assert!(!out.running);
    assert_eq!(n.node_state(), NodeState::Stopped);
    assert_eq!(out.events.len(), 1);
    match &out.events[0] {
        OutboundEvent::PublishError(m) => assert_eq!(m, "transport failed"),
        other => panic!("expected a final report, got {:?}", other),
    }
}
