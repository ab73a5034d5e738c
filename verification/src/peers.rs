//! The explicit-peer set kept by local-network discovery.
//!
//! A peer is tracked exactly while its most recent discovery has not been
//! followed by an expiry.  Discovering an already tracked peer and expiring
//! a peer never seen are both benign no-ops.

use vstd::prelude::*;

verus! {

broadcast use vstd::set::group_set_axioms;

/// Stable identifier of a peer, derived from its public key.
#[derive(Clone, Copy, Debug, PartialEq, Eq, Structural)]
pub struct PeerId {
    pub raw: u64,
}

/// One peer-lifecycle notice from the discovery layer.
#[derive(Clone, Copy, Debug, PartialEq, Eq, Structural)]
pub enum PeerEvent {
    Discover(PeerId),
    Expire(PeerId),
}

/// The set of explicitly tracked peers.
pub struct PeerSet {
    ids: Vec<PeerId>,
}

impl View for PeerSet {
    type V = Set<PeerId>;

    closed spec fn view(&self) -> Set<PeerId> {
        self.ids@.to_set()
    }
}

/// How one discovery notice changes a tracked-peer set.
pub open spec fn apply_peer_event(s: Set<PeerId>, e: PeerEvent) -> Set<PeerId> {
    match e {
        PeerEvent::Discover(p) => s.insert(p),
        PeerEvent::Expire(p) => s.remove(p),
    }
}

/// The tracked-peer set after replaying a sequence of discovery notices
/// from an empty set.
pub open spec fn tracked_after(events: Seq<PeerEvent>) -> Set<PeerId>
    decreases events.len(),
{
    if events.len() == 0 {
        Set::empty()
    } else {
        apply_peer_event(tracked_after(events.drop_last()), events.last())
    }
}

/// Whether the latest event naming `p` in `events` is a discovery,
/// i.e. `p` was discovered and not expired since.
pub open spec fn latest_discover_pending(events: Seq<PeerEvent>, p: PeerId) -> bool
    decreases events.len(),
{
    if events.len() == 0 {
        false
    } else {
        match events.last() {
            PeerEvent::Discover(q) => q == p || latest_discover_pending(events.drop_last(), p),
            PeerEvent::Expire(q) => q != p && latest_discover_pending(events.drop_last(), p),
        }
    }
}

/// For every sequence of discovery notices, the tracked-peer set after
/// replaying it equals the set of peers whose latest discovery has not
/// been followed by an expiry.
pub proof fn lemma_tracked_matches_history(events: Seq<PeerEvent>)
    ensures
        tracked_after(events) =~= (Set::new(|p: PeerId| latest_discover_pending(events, p))),
    decreases events.len(),
{
    if events.len() > 0 {
        lemma_tracked_matches_history(events.drop_last());
    }
}

/// Discovering an already tracked peer changes neither the set nor its
/// cardinality.
pub proof fn lemma_discover_idempotent(s: Set<PeerId>, p: PeerId)
    requires
        s.finite(),
        s.contains(p),
    ensures
        s.insert(p) =~= s,
        s.insert(p).len() == s.len(),
{
    assert(s.insert(p) =~= s);
}

/// Expiring a peer that is not tracked changes neither the set nor its
/// cardinality.
pub proof fn lemma_expire_unknown_noop(s: Set<PeerId>, p: PeerId)
    requires
        s.finite(),
        !s.contains(p),
    ensures
        s.remove(p) =~= s,
        s.remove(p).len() == s.len(),
{
    assert(s.remove(p) =~= s);
}

impl PeerSet {
    /// The backing list holds each tracked peer exactly once.
    pub closed spec fn wf(&self) -> bool {
        self.ids@.no_duplicates()
    }

    /// A tracked-peer set is always finite.
    pub proof fn lemma_finite(&self)
        ensures
            self@.finite(),
    {
        self.ids@.lemma_cardinality_of_set();
    }

    /// An empty set: nothing has been discovered yet.
    pub fn new() -> (s: Self)
        ensures
            s.wf(),
            s@ == Set::<PeerId>::empty(),
    {
        let s = PeerSet { ids: Vec::new() };
        proof {
            assert(s.ids@.to_set() =~= Set::<PeerId>::empty());
        }
        s
    }

    /// Index of `p` in the backing list, if tracked.
    fn position_of(&self, p: PeerId) -> (r: Option<usize>)
        ensures
            match r {
                Some(j) => j < self.ids@.len() && self.ids@[j as int] == p,
                None => !self@.contains(p),
            },
    {
        let mut i: usize = 0;
        while i < self.ids.len()
            invariant
                i <= self.ids@.len(),
                forall|j: int| 0 <= j < i ==> self.ids@[j] != p,
            decreases self.ids@.len() - i,
        {
            if self.ids[i] == p {
                return Some(i);
            }
            i = i + 1;
        }
        proof {
            assert(!self.ids@.contains(p));
        }
        None
    }

    /// Whether `p` is currently tracked.
    pub fn contains(&self, p: PeerId) -> (r: bool)
        ensures
            r == self@.contains(p),
    {
        match self.position_of(p) {
            Some(_) => {
                proof {
                    assert(self.ids@.contains(p));
                }
                true
            },
            None => false,
        }
    }

    /// How many peers are tracked.
    pub fn len(&self) -> (n: usize)
        requires
            self.wf(),
        ensures
            n == self@.len(),
    {
        proof {
            self.ids@.unique_seq_to_set();
        }
        self.ids.len()
    }

    /// Whether no peer is tracked at all.
    pub fn is_empty(&self) -> (r: bool)
        requires
            self.wf(),
        ensures
            r == self@.is_empty(),
    {
        proof {
            if self.ids@.len() == 0 {
                assert(self@ =~= Set::<PeerId>::empty());
            } else {
                assert(self@.contains(self.ids@[0]));
            }
        }
        self.ids.len() == 0
    }

    /// Track a newly discovered peer; tracking one already present is a
    /// no-op.
    pub fn discover(&mut self, p: PeerId)
        requires
            old(self).wf(),
        ensures
            final(self).wf(),
            final(self)@ == old(self)@.insert(p),
    {
        match self.position_of(p) {
            Some(_) => {
                proof {
                    assert(self.ids@.contains(p));
                    assert(old(self)@.insert(p) =~= old(self)@);
                }
            },
            None => {
                self.ids.push(p);
                proof {
                    let pre = old(self).ids@;
                    assert(!pre.contains(p));
                    assert forall|x: PeerId| self.ids@.contains(x) <==> (pre.contains(x) || x
                        == p) by {
                        if pre.contains(x) {
                            let j = choose|j: int| 0 <= j < pre.len() && pre[j] == x;
                            assert(self.ids@[j] == x);
                        }
                        if x == p {
                            assert(self.ids@[pre.len() as int] == x);
                        }
                        if self.ids@.contains(x) {
                            let j = choose|j: int|
                                0 <= j < self.ids@.len() && self.ids@[j] == x;
                            if j < pre.len() {
                                assert(pre[j] == x);
                            } else {
                                assert(x == p);
                            }
                        }
                    }
                    assert(self@ =~= old(self)@.insert(p));
                }
            },
        }
    }

    /// Stop tracking an expired peer; expiring one never tracked is a
    /// no-op.
    pub fn expire(&mut self, p: PeerId)
        requires
            old(self).wf(),
        ensures
            final(self).wf(),
            final(self)@ == old(self)@.remove(p),
    {
        match self.position_of(p) {
            Some(j) => {
                self.ids.remove(j);
                proof {
                    lemma_remove_unique_keeps_rest(old(self).ids@, j as int);
                    assert(self@ =~= old(self)@.remove(p));
                }
            },
            None => {
                proof {
                    assert(old(self)@.remove(p) =~= old(self)@);
                }
            },
        }
    }

    /// Apply one discovery notice.
    pub fn apply(&mut self, e: PeerEvent)
        requires
            old(self).wf(),
        ensures
            final(self).wf(),
            final(self)@ == apply_peer_event(old(self)@, e),
    {
        match e {
            PeerEvent::Discover(p) => self.discover(p),
            PeerEvent::Expire(p) => self.expire(p),
        }
    }
}

/// Removing index `j` from a duplicate-free list drops exactly the element
/// at `j` from the induced set, and keeps the list duplicate-free.
proof fn lemma_remove_unique_keeps_rest(s: Seq<PeerId>, j: int)
    requires
        s.no_duplicates(),
        0 <= j < s.len(),
    ensures
        s.remove(j).no_duplicates(),
        s.remove(j).to_set() =~= s.to_set().remove(s[j]),
{
    let t = s.remove(j);
    s.remove_ensures(j);
    assert forall|x: PeerId| t.contains(x) <==> (s.contains(x) && x != s[j]) by {
        if t.contains(x) {
            let i = choose|i: int| 0 <= i < t.len() && t[i] == x;
            if i < j {
                assert(s[i] == x);
            } else {
                assert(s[i + 1] == x);
            }
        }
        if s.contains(x) && x != s[j] {
            let i = choose|i: int| 0 <= i < s.len() && s[i] == x;
            if i < j {
                assert(t[i] == x);
            } else {
                assert(t[i - 1] == x);
            }
        }
    }
}

/// Rebuild the tracked-peer set by replaying a sequence of discovery
/// notices from an empty set.
pub fn replay_peer_events(events: &Vec<PeerEvent>) -> (s: PeerSet)
    ensures
        s.wf(),
        s@ == tracked_after(events@),
{
    let mut s = PeerSet::new();
    proof {
        assert(events@.take(0) =~= Seq::<PeerEvent>::empty());
    }
    let mut i: usize = 0;
    while i < events.len()
        invariant
            i <= events@.len(),
            s.wf(),
            s@ == tracked_after(events@.take(i as int)),
        decreases events@.len() - i,
    {
        s.apply(events[i]);
        proof {
            assert(events@.take(i + 1).drop_last() =~= events@.take(i as int));
            assert(events@.take(i + 1).last() == events@[i as int]);
        }
        i = i + 1;
    }
    proof {
        assert(events@.take(events@.len() as int) =~= events@);
    }
    s
}

} // verus!
