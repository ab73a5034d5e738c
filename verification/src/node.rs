//! The overlay node: topic subscription, listening addresses, the
//! explicit-peer set, and the record of message ids already seen.
//!
//! The node owns the protocol-facing decisions.  What the transports did —
//! whether a listener could be bound, whether the security handshake could
//! be negotiated, whether the gossip layer's send queue accepted a payload —
//! reaches it as plain boolean outcomes, and every result the node returns
//! is fixed by its state and those outcomes.

use vstd::prelude::*;
use crate::hash::{MessageId, text_message_id, message_id_for_text};
use crate::peers::{PeerId, PeerSet};

verus! {

broadcast use vstd::set::group_set_axioms;

/// Lifecycle of the node: started at most once, stopped for good.
#[derive(Clone, Copy, Debug, PartialEq, Eq, Structural)]
pub enum NodeState {
    Uninitialized,
    Listening,
    Stopped,
}

/// Why the node could not begin listening.
#[derive(Clone, Copy, Debug, PartialEq, Eq, Structural)]
pub enum StartError {
    /// No listener could be bound on either transport.
    TransportBind,
    /// The security / multiplexing negotiation could not be constructed.
    HandshakeConfig,
}

/// Why a publish attempt did not reach the network.
#[derive(Clone, Copy, Debug, PartialEq, Eq, Structural)]
pub enum PublishError {
    /// The node has not started (or has already stopped).
    NotStarted,
    /// No subscribed peer is presently reachable; the message was still
    /// accepted locally.
    NoPeers,
    /// The transport layer did not accept the payload.
    Transport,
}

impl PublishError {
    /// The human-readable reason reported to the host.
    pub open spec fn spec_describe(&self) -> Seq<char> {
        match self {
            PublishError::NotStarted => "publish failed: node not started"@,
            PublishError::NoPeers => "publish failed: no reachable peers"@,
            PublishError::Transport => "publish failed: transport error"@,
        }
    }

    /// The human-readable reason reported to the host.
    pub fn describe(&self) -> (m: &'static str)
        ensures
            m@ == self.spec_describe(),
    {
        match self {
            PublishError::NotStarted => "publish failed: node not started",
            PublishError::NoPeers => "publish failed: no reachable peers",
            PublishError::Transport => "publish failed: transport error",
        }
    }
}

/// The record of message ids already seen, used to drop duplicates.
pub struct SeenIds {
    ids: Vec<MessageId>,
}

impl View for SeenIds {
    type V = Set<MessageId>;

    closed spec fn view(&self) -> Set<MessageId> {
        self.ids@.to_set()
    }
}

impl SeenIds {
    /// The backing list holds each id at most once.
    pub closed spec fn wf(&self) -> bool {
        self.ids@.no_duplicates()
    }

    /// An empty record.
    pub fn new() -> (s: Self)
        ensures
            s.wf(),
            s@ == Set::<MessageId>::empty(),
    {
        let s = SeenIds { ids: Vec::new() };
        proof {
            assert(s.ids@.to_set() =~= Set::<MessageId>::empty());
        }
        s
    }

    /// Whether `id` was already seen.
    pub fn contains(&self, id: MessageId) -> (r: bool)
        ensures
            r == self@.contains(id),
    {
        let mut i: usize = 0;
        while i < self.ids.len()
            invariant
                i <= self.ids@.len(),
                forall|j: int| 0 <= j < i ==> self.ids@[j] != id,
            decreases self.ids@.len() - i,
        {
            if self.ids[i] == id {
                proof {
                    assert(self.ids@.contains(id));
                }
                return true;
            }
            i = i + 1;
        }
        proof {
            assert(!self.ids@.contains(id));
        }
        false
    }

    /// Record `id` as seen; recording a known id is a no-op.
    pub fn insert(&mut self, id: MessageId)
        requires
            old(self).wf(),
        ensures
            final(self).wf(),
            final(self)@ == old(self)@.insert(id),
    {
        if self.contains(id) {
            proof {
                assert(old(self)@.insert(id) =~= old(self)@);
            }
        } else {
            self.ids.push(id);
            proof {
                let pre = old(self).ids@;
                assert(!pre.contains(id));
                assert forall|x: MessageId| self.ids@.contains(x) <==> (pre.contains(x) || x
                    == id) by {
                    if pre.contains(x) {
                        let j = choose|j: int| 0 <= j < pre.len() && pre[j] == x;
                        assert(self.ids@[j] == x);
                    }
                    if x == id {
                        assert(self.ids@[pre.len() as int] == x);
                    }
                    if self.ids@.contains(x) {
                        let j = choose|j: int| 0 <= j < self.ids@.len() && self.ids@[j] == x;
                        if j < pre.len() {
                            assert(pre[j] == x);
                        } else {
                            assert(x == id);
                        }
                    }
                }
                assert(self@ =~= old(self)@.insert(id));
            }
        }
    }
}

/// The abstract state of a node, as the contracts see it.
pub struct NodeView {
    pub state: NodeState,
    pub topic: Option<Seq<char>>,
    pub peers: Set<PeerId>,
    pub seen: Set<MessageId>,
    pub listen_addrs: Seq<Seq<char>>,
}

/// A gossip overlay node.
pub struct Node {
    state: NodeState,
    topic: Option<String>,
    peers: PeerSet,
    seen: SeenIds,
    listen_addrs: Vec<String>,
}

impl View for Node {
    type V = NodeView;

    closed spec fn view(&self) -> NodeView {
        NodeView {
            state: self.state,
            topic: match self.topic {
                Some(t) => Some(t@),
                None => None,
            },
            peers: self.peers@,
            seen: self.seen@,
            listen_addrs: self.listen_addrs@.map_values(|s: String| s@),
        }
    }
}

impl Node {
    /// The backing collections hold no duplicates.
    pub closed spec fn wf(&self) -> bool {
        self.peers.wf() && self.seen.wf()
    }

    /// The tracked-peer set is always finite.
    pub proof fn lemma_peers_finite(&self)
        ensures
            self@.peers.finite(),
    {
        self.peers.lemma_finite();
    }

    /// A fresh node: not yet started, tracking nothing, having seen
    /// nothing.
    pub fn new() -> (n: Self)
        ensures
            n.wf(),
            n@.state == NodeState::Uninitialized,
            n@.topic is None,
            n@.peers == Set::<PeerId>::empty(),
            n@.seen == Set::<MessageId>::empty(),
            n@.listen_addrs == Seq::<Seq<char>>::empty(),
    {
        let n = Node {
            state: NodeState::Uninitialized,
            topic: None,
            peers: PeerSet::new(),
            seen: SeenIds::new(),
            listen_addrs: Vec::new(),
        };
        proof {
            assert(n.listen_addrs@.map_values(|s: String| s@) =~= Seq::<Seq<char>>::empty());
        }
        n
    }

    /// Begin listening and subscribe to `topic`.
    ///
    /// The caller reports what the transports did: whether the
    /// reliable-transport and the datagram-transport listeners could be
    /// bound, and whether the security/multiplexing negotiation could be
    /// constructed.  Starting fails with `HandshakeConfig` when the
    /// negotiation could not be built, with `TransportBind` when no
    /// listener at all was bound; otherwise the node is subscribed and
    /// listening.
    pub fn start(
        &mut self,
        topic: String,
        reliable_bound: bool,
        datagram_bound: bool,
        handshake_ok: bool,
    ) -> (r: Result<(), StartError>)
        requires
            old(self).wf(),
            old(self)@.state == NodeState::Uninitialized,
        ensures
            final(self).wf(),
            final(self)@.peers == old(self)@.peers,
            final(self)@.seen == old(self)@.seen,
            final(self)@.listen_addrs == old(self)@.listen_addrs,
            !handshake_ok ==> r == Err::<(), StartError>(StartError::HandshakeConfig)
                && final(self)@.state == old(self)@.state && final(self)@.topic == old(
                self,
            )@.topic,
            handshake_ok && !reliable_bound && !datagram_bound ==> r == Err::<(), StartError>(
                StartError::TransportBind,
            ) && final(self)@.state == old(self)@.state && final(self)@.topic == old(
                self,
            )@.topic,
            handshake_ok && (reliable_bound || datagram_bound) ==> r == Ok::<(), StartError>(())
                && final(self)@.state == NodeState::Listening && final(self)@.topic == Some(
                topic@,
            ),
    {
        if !handshake_ok {
            return Err(StartError::HandshakeConfig);
        }
        if !reliable_bound && !datagram_bound {
            return Err(StartError::TransportBind);
        }
        self.state = NodeState::Listening;
        self.topic = Some(topic);
        Ok(())
    }

    /// Publish a text message to the subscribed topic.
    ///
    /// The message id is the content hash of the text's bytes.  Before the
    /// node listens (or after it stopped) nothing is sent and the call
    /// fails with `NotStarted`.  With no tracked peer the message is still
    /// accepted locally (its id becomes seen) but the observable outcome is
    /// `NoPeers`.  Otherwise the caller reports whether the transport
    /// accepted the payload: on success the id is returned and recorded,
    /// on transport failure nothing is recorded.
    pub fn publish(&mut self, text: &str, transport_ok: bool) -> (r: Result<
        MessageId,
        PublishError,
    >)
        requires
            old(self).wf(),
        ensures
            final(self).wf(),
            final(self)@.state == old(self)@.state,
            final(self)@.topic == old(self)@.topic,
            final(self)@.peers == old(self)@.peers,
            final(self)@.listen_addrs == old(self)@.listen_addrs,
            old(self)@.state != NodeState::Listening ==> r == Err::<MessageId, PublishError>(
                PublishError::NotStarted,
            ) && final(self)@.seen == old(self)@.seen,
            old(self)@.state == NodeState::Listening && old(self)@.peers.is_empty() ==> r
                == Err::<MessageId, PublishError>(PublishError::NoPeers) && final(self)@.seen
                == old(self)@.seen.insert(text_message_id(text@)),
            old(self)@.state == NodeState::Listening && !old(self)@.peers.is_empty()
                && !transport_ok ==> r == Err::<MessageId, PublishError>(PublishError::Transport)
                && final(self)@.seen == old(self)@.seen,
            old(self)@.state == NodeState::Listening && !old(self)@.peers.is_empty()
                && transport_ok ==> r == Ok::<MessageId, PublishError>(text_message_id(text@))
                && final(self)@.seen == old(self)@.seen.insert(text_message_id(text@)),
    {
        if self.state != NodeState::Listening {
            return Err(PublishError::NotStarted);
        }
        let id = message_id_for_text(text);
        if self.peers.is_empty() {
            self.seen.insert(id);
            return Err(PublishError::NoPeers);
        }
        if !transport_ok {
            return Err(PublishError::Transport);
        }
        self.seen.insert(id);
        Ok(id)
    }

    /// Take in one gossip message from the network.
    ///
    /// A message whose content-addressed id was already seen is a
    /// duplicate and is dropped silently; a fresh one is recorded and its
    /// id returned for delivery.  A node that is not listening takes in
    /// nothing.
    pub fn accept_inbound(&mut self, text: &str) -> (r: Option<MessageId>)
        requires
            old(self).wf(),
        ensures
            final(self).wf(),
            final(self)@.state == old(self)@.state,
            final(self)@.topic == old(self)@.topic,
            final(self)@.peers == old(self)@.peers,
            final(self)@.listen_addrs == old(self)@.listen_addrs,
            old(self)@.state != NodeState::Listening ==> r is None && final(self)@.seen == old(
                self,
            )@.seen,
            old(self)@.state == NodeState::Listening && old(self)@.seen.contains(
                text_message_id(text@),
            ) ==> r is None && final(self)@.seen == old(self)@.seen,
            old(self)@.state == NodeState::Listening && !old(self)@.seen.contains(
                text_message_id(text@),
            ) ==> r == Some(text_message_id(text@)) && final(self)@.seen == old(
                self,
            )@.seen.insert(text_message_id(text@)),
    {
        if self.state != NodeState::Listening {
            return None;
        }
        let id = message_id_for_text(text);
        if self.seen.contains(id) {
            return None;
        }
        self.seen.insert(id);
        Some(id)
    }

    /// Track a peer reported discovered on the local network.
    pub fn peer_discovered(&mut self, p: PeerId)
        requires
            old(self).wf(),
        ensures
            final(self).wf(),
            final(self)@.state == old(self)@.state,
            final(self)@.topic == old(self)@.topic,
            final(self)@.seen == old(self)@.seen,
            final(self)@.listen_addrs == old(self)@.listen_addrs,
            final(self)@.peers == old(self)@.peers.insert(p),
    {
        self.peers.discover(p);
    }

    /// Stop tracking a peer reported expired.
    pub fn peer_expired(&mut self, p: PeerId)
        requires
            old(self).wf(),
        ensures
            final(self).wf(),
            final(self)@.state == old(self)@.state,
            final(self)@.topic == old(self)@.topic,
            final(self)@.seen == old(self)@.seen,
            final(self)@.listen_addrs == old(self)@.listen_addrs,
            final(self)@.peers == old(self)@.peers.remove(p),
    {
        self.peers.expire(p);
    }

    /// Record a newly bound listening address.
    pub fn address_bound(&mut self, addr: String)
        requires
            old(self).wf(),
        ensures
            final(self).wf(),
            final(self)@.state == old(self)@.state,
            final(self)@.topic == old(self)@.topic,
            final(self)@.peers == old(self)@.peers,
            final(self)@.seen == old(self)@.seen,
            final(self)@.listen_addrs == old(self)@.listen_addrs.push(addr@),
    {
        let ghost a = addr@;
        self.listen_addrs.push(addr);
        proof {
            assert(self.listen_addrs@.map_values(|s: String| s@) =~= old(
                self,
            ).listen_addrs@.map_values(|s: String| s@).push(a));
        }
    }

    /// Stop the node for good; no transition leads out of `Stopped`.
    pub fn shutdown(&mut self)
        requires
            old(self).wf(),
        ensures
            final(self).wf(),
            final(self)@.state == NodeState::Stopped,
            final(self)@.topic == old(self)@.topic,
            final(self)@.peers == old(self)@.peers,
            final(self)@.seen == old(self)@.seen,
            final(self)@.listen_addrs == old(self)@.listen_addrs,
    {
        self.state = NodeState::Stopped;
    }

    /// The node's lifecycle state.
    pub fn node_state(&self) -> (s: NodeState)
        ensures
            s == self@.state,
    {
        self.state
    }

    /// Whether the node is presently listening.
    pub fn is_listening(&self) -> (r: bool)
        ensures
            r == (self@.state == NodeState::Listening),
    {
        self.state == NodeState::Listening
    }

    /// How many peers are explicitly tracked.
    pub fn peer_count(&self) -> (n: usize)
        requires
            self.wf(),
        ensures
            n == self@.peers.len(),
    {
        self.peers.len()
    }

    /// Whether a peer is explicitly tracked.
    pub fn is_tracking(&self, p: PeerId) -> (r: bool)
        ensures
            r == self@.peers.contains(p),
    {
        self.peers.contains(p)
    }

    /// Whether a message id was already seen.
    pub fn has_seen(&self, id: MessageId) -> (r: bool)
        ensures
            r == self@.seen.contains(id),
    {
        self.seen.contains(id)
    }

    /// How many listening addresses were bound.
    pub fn listen_addr_count(&self) -> (n: usize)
        ensures
            n == self@.listen_addrs.len(),
    {
        self.listen_addrs.len()
    }
}

} // verus!
