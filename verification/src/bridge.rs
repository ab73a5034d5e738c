//! The notification bridge: a bounded broadcast buffer for inbound
//! publish commands.
//!
//! Producers append commands; when the buffer is full the oldest unread
//! command is dropped, never the newest.  Each consumer keeps its own
//! cursor: a slow consumer observes a gap (`Lagged`) rather than blocking
//! the producers, and then continues with the oldest command still held.

use vstd::prelude::*;

verus! {

/// How many commands the bridge holds before dropping the oldest.
pub const BRIDGE_CAPACITY: usize = 100;

/// The bounded broadcast buffer, oldest command first.
pub struct Bridge {
    slots: Vec<String>,
    first_seq: u64,
    capacity: usize,
}

/// What one receive attempt yielded.
#[derive(Debug)]
pub enum RecvOutcome {
    /// Nothing new is queued.
    Empty,
    /// The consumer fell behind and this many commands were dropped
    /// before it caught up.
    Lagged(u64),
    /// The next queued command.
    Msg(String),
}

/// One consumer's position in the bridge's command stream.
pub struct Receiver {
    cursor: u64,
}

impl Receiver {
    /// The sequence number of the next command this consumer will read.
    pub closed spec fn spec_cursor(&self) -> u64 {
        self.cursor
    }

    /// The sequence number of the next command this consumer will read.
    pub fn cursor(&self) -> (c: u64)
        ensures
            c == self.spec_cursor(),
    {
        self.cursor
    }
}

impl View for Bridge {
    type V = Seq<Seq<char>>;

    closed spec fn view(&self) -> Seq<Seq<char>> {
        self.slots@.map_values(|s: String| s@)
    }
}

impl Bridge {
    /// The buffer never exceeds its capacity and sequence numbers cannot
    /// run out.
    pub closed spec fn wf(&self) -> bool {
        &&& 1 <= self.capacity
        &&& self.slots@.len() <= self.capacity
        &&& self.first_seq + self.slots@.len() <= u64::MAX
    }

    /// The sequence number of the oldest command still held.
    pub closed spec fn spec_first_seq(&self) -> u64 {
        self.first_seq
    }

    /// The capacity the bridge was created with.
    pub closed spec fn spec_capacity(&self) -> usize {
        self.capacity
    }

    /// The sequence number the next sent command will get.
    pub open spec fn next_seq(&self) -> int {
        self.spec_first_seq() + self@.len()
    }

    /// An empty bridge holding at most `capacity` commands.
    pub fn new(capacity: usize) -> (b: Self)
        requires
            1 <= capacity,
        ensures
            b.wf(),
            b@ == Seq::<Seq<char>>::empty(),
            b.spec_first_seq() == 0,
            b.spec_capacity() == capacity,
    {
        let b = Bridge { slots: Vec::new(), first_seq: 0, capacity };
        proof {
            assert(b.slots@.map_values(|s: String| s@) =~= Seq::<Seq<char>>::empty());
        }
        b
    }

    /// An empty bridge with the node's fixed command capacity.
    pub fn with_default_capacity() -> (b: Self)
        ensures
            b.wf(),
            b@ == Seq::<Seq<char>>::empty(),
            b.spec_first_seq() == 0,
            b.spec_capacity() == BRIDGE_CAPACITY,
    {
        Bridge::new(BRIDGE_CAPACITY)
    }

    /// The capacity the bridge was created with.
    pub fn capacity(&self) -> (c: usize)
        ensures
            c == self.spec_capacity(),
    {
        self.capacity
    }

    /// How many commands are currently held.
    pub fn queued(&self) -> (n: usize)
        ensures
            n == self@.len(),
    {
        self.slots.len()
    }

    /// The sequence number of the oldest command still held.
    pub fn first_seq(&self) -> (s: u64)
        ensures
            s == self.spec_first_seq(),
    {
        self.first_seq
    }

    /// A consumer that will read every command sent from now on.
    pub fn subscribe(&self) -> (rx: Receiver)
        requires
            self.wf(),
        ensures
            rx.spec_cursor() == self.next_seq(),
    {
        Receiver { cursor: self.first_seq + self.slots.len() as u64 }
    }

    /// Queue a command.  A full buffer drops its oldest unread command to
    /// make room; the new command is always kept.
    pub fn send(&mut self, cmd: String)
        requires
            old(self).wf(),
            old(self).spec_first_seq() + old(self)@.len() < u64::MAX,
        ensures
            final(self).wf(),
            final(self).spec_capacity() == old(self).spec_capacity(),
            old(self)@.len() < old(self).spec_capacity() ==> {
                &&& final(self)@ == old(self)@.push(cmd@)
                &&& final(self).spec_first_seq() == old(self).spec_first_seq()
            },
            old(self)@.len() == old(self).spec_capacity() ==> {
                &&& final(self)@ == old(self)@.drop_first().push(cmd@)
                &&& final(self).spec_first_seq() == old(self).spec_first_seq() + 1
            },
    {
        let ghost pre = self.slots@.map_values(|s: String| s@);
        let ghost c = cmd@;
        if self.slots.len() == self.capacity {
            self.slots.remove(0);
            self.first_seq = self.first_seq + 1;
            self.slots.push(cmd);
            proof {
                assert(self.slots@.map_values(|s: String| s@) =~= pre.drop_first().push(c));
            }
        } else {
            self.slots.push(cmd);
            proof {
                assert(self.slots@.map_values(|s: String| s@) =~= pre.push(c));
            }
        }
    }

    /// Read the next command for one consumer.
    ///
    /// A consumer whose cursor fell behind the oldest held command learns
    /// how many it missed and is moved to the oldest one still held;
    /// otherwise it gets the command at its cursor, or `Empty` when it has
    /// read everything.
    pub fn recv(&self, rx: &mut Receiver) -> (r: RecvOutcome)
        requires
            self.wf(),
            old(rx).spec_cursor() <= self.next_seq(),
        ensures
            old(rx).spec_cursor() < self.spec_first_seq() ==> {
                &&& r matches RecvOutcome::Lagged(n) && n == self.spec_first_seq() - old(
                    rx,
                ).spec_cursor()
                &&& final(rx).spec_cursor() == self.spec_first_seq()
            },
            old(rx).spec_cursor() == self.next_seq() && old(rx).spec_cursor()
                >= self.spec_first_seq() ==> {
                &&& r is Empty
                &&& final(rx).spec_cursor() == old(rx).spec_cursor()
            },
            self.spec_first_seq() <= old(rx).spec_cursor() < self.next_seq() ==> {
                &&& r matches RecvOutcome::Msg(m) && m@ == self@[old(rx).spec_cursor()
                    - self.spec_first_seq()]
                &&& final(rx).spec_cursor() == old(rx).spec_cursor() + 1
            },
    {
        if rx.cursor < self.first_seq {
            let missed = self.first_seq - rx.cursor;
            rx.cursor = self.first_seq;
            return RecvOutcome::Lagged(missed);
        }
        let idx = rx.cursor - self.first_seq;
        if idx >= self.slots.len() as u64 {
            return RecvOutcome::Empty;
        }
        let m = self.slots[idx as usize].clone();
        rx.cursor = rx.cursor + 1;
        RecvOutcome::Msg(m)
    }
}

} // verus!
