//! The event bus: a bounded-history broadcast. One producer side is
//! shared by the listener and the management interface; any number of
//! subscribers read independently, each through its own cursor. A slow
//! subscriber that falls behind the retained history observes a gap and
//! skips forward; it is never a brake on the producer and never loses
//! its subscription. A closed bus ends every subscription once its
//! retained messages are drained.

use vstd::prelude::*;

use crate::message::Message;
use crate::message::MessageV;

verus! {

/// Abstract state of the bus: the retained window of the message
/// history, with `start` the sequence number of its oldest entry.
#[verifier::ext_equal]
pub ghost struct BusV {
    pub capacity: nat,
    pub start: nat,
    pub retained: Seq<MessageV>,
    pub closed: bool,
}

impl BusV {
    /// The sequence number the next published message will get.
    pub open spec fn next_seq(self) -> nat {
        self.start + self.retained.len()
    }

    /// The retained window never outgrows the capacity.
    pub open spec fn wf(self) -> bool {
        &&& self.capacity >= 1
        &&& self.retained.len() <= self.capacity
    }
}

/// What publishing `m` does to the bus: nothing on a closed bus;
/// otherwise `m` is appended to the retained window, evicting the
/// oldest entry when the window is full.
pub open spec fn publish_spec(b: BusV, m: MessageV) -> BusV {
    if b.closed {
        b
    } else if b.retained.len() < b.capacity {
        BusV { capacity: b.capacity, start: b.start, retained: b.retained.push(m), closed: false }
    } else {
        BusV {
            capacity: b.capacity,
            start: b.start + 1,
            retained: b.retained.drop_first().push(m),
            closed: false,
        }
    }
}

/// Where a subscriber's cursor stands after one receive attempt: a
/// lagged cursor snaps forward to the oldest retained message, a cursor
/// with unread messages advances past one, a drained cursor stays.
pub open spec fn recv_cursor_spec(b: BusV, c: nat) -> nat {
    if c < b.start {
        b.start
    } else if c < b.next_seq() {
        (c + 1) as nat
    } else {
        c
    }
}

/// Abstract value of a [`RecvOutcome`].
pub ghost enum RecvOutcomeV {
    Item(MessageV),
    Lagged(nat),
    Empty,
    Closed,
}

/// What one receive attempt reports: the gap for a lagged cursor, the
/// next unread message otherwise, and for a drained cursor either the
/// end of the bus or that nothing is pending yet.
pub open spec fn recv_out_spec(b: BusV, c: nat) -> RecvOutcomeV {
    if c < b.start {
        RecvOutcomeV::Lagged((b.start - c) as nat)
    } else if c < b.next_seq() {
        RecvOutcomeV::Item(b.retained[c - b.start])
    } else if b.closed {
        RecvOutcomeV::Closed
    } else {
        RecvOutcomeV::Empty
    }
}

/// What one receive attempt reports.
#[derive(Debug, PartialEq)]
pub enum RecvOutcome {
    /// The next unread message.
    Item(Message),
    /// The subscriber fell behind and this many messages were skipped;
    /// the subscription continues at the oldest retained message.
    Lagged(u64),
    /// Nothing unread yet; the bus is still open.
    Empty,
    /// The bus is closed and fully drained; the subscription ends.
    Closed,
}

impl View for RecvOutcome {
    type V = RecvOutcomeV;

    open spec fn view(&self) -> RecvOutcomeV {
        match *self {
            RecvOutcome::Item(m) => RecvOutcomeV::Item(m@),
            RecvOutcome::Lagged(n) => RecvOutcomeV::Lagged(n as nat),
            RecvOutcome::Empty => RecvOutcomeV::Empty,
            RecvOutcome::Closed => RecvOutcomeV::Closed,
        }
    }
}

/// A subscriber's private read position on the bus.
pub struct Cursor {
    next: u64,
}

impl View for Cursor {
    type V = nat;

    closed spec fn view(&self) -> nat {
        self.next as nat
    }
}

/// The bus itself: the retained window as a queue, oldest first.
pub struct Bus {
    queue: Vec<Message>,
    start: u64,
    capacity: usize,
    closed: bool,
}

impl View for Bus {
    type V = BusV;

    closed spec fn view(&self) -> BusV {
        BusV {
            capacity: self.capacity as nat,
            start: self.start as nat,
            retained: self.queue@.map_values(|m: Message| m@),
            closed: self.closed,
        }
    }
}

impl Bus {
    /// The representation is well-formed; sequence numbers stay within
    /// the machine's counter width.
    pub open spec fn wf(&self) -> bool {
        &&& self@.wf()
        &&& self@.next_seq() <= u64::MAX
    }

    /// Creates an open bus retaining at most `capacity` messages.
    pub fn new(capacity: usize) -> (b: Bus)
        requires
            capacity >= 1,
        ensures
            b.wf(),
            b@ == (BusV {
                capacity: capacity as nat,
                start: 0,
                retained: Seq::<MessageV>::empty(),
                closed: false,
            }),
    {
        let b = Bus { queue: Vec::new(), start: 0, capacity, closed: false };
        proof {
            assert(b@.retained =~= Seq::<MessageV>::empty());
            assert(b@ =~= (BusV {
                capacity: capacity as nat,
                start: 0,
                retained: Seq::<MessageV>::empty(),
                closed: false,
            }));
        }
        b
    }

    /// Publishes `msg`: delivery is fire-and-forget, so a message
    /// published on a closed bus is silently dropped and reported as
    /// not accepted. The bound on the sequence counter is a machine
    /// limit.
    pub fn publish(&mut self, msg: Message) -> (accepted: bool)
        requires
            old(self).wf(),
            old(self)@.next_seq() < u64::MAX,
        ensures
            final(self).wf(),
            final(self)@ == publish_spec(old(self)@, msg@),
            accepted == !old(self)@.closed,
    {
        if self.closed {
            return false;
        }
        if self.queue.len() == self.capacity {
            self.queue.remove(0);
            self.start = self.start + 1;
        }
        self.queue.push(msg);
        proof {
            assert(final(self)@.retained =~= publish_spec(old(self)@, msg@).retained);
            assert(final(self)@ =~= publish_spec(old(self)@, msg@));
        }
        true
    }

    /// Closes the bus: no further message is accepted, and every
    /// subscription ends once it has drained the retained messages.
    pub fn close(&mut self)
        requires
            old(self).wf(),
        ensures
            final(self).wf(),
            final(self)@ == (BusV { closed: true, ..old(self)@ }),
    {
        self.closed = true;
    }

    /// Subscribes: the new cursor sees only messages published after
    /// this point; the bus replays no history of its own.
    pub fn subscribe(&self) -> (c: Cursor)
        requires
            self.wf(),
        ensures
            c@ == self@.next_seq(),
    {
        Cursor { next: self.start + self.queue.len() as u64 }
    }

    /// How many messages the bus currently retains.
    pub fn len(&self) -> (n: usize)
        ensures
            n == self@.retained.len(),
    {
        self.queue.len()
    }

    /// The sequence number the next published message will get; it
    /// stays below the counter width while it does not reach it.
    pub fn next_seq(&self) -> (n: u64)
        requires
            self.wf(),
        ensures
            n == self@.next_seq(),
    {
        self.start + self.queue.len() as u64
    }

    /// Whether the bus has been closed.
    pub fn is_closed(&self) -> (c: bool)
        ensures
            c == self@.closed,
    {
        self.closed
    }

    /// One receive attempt for the subscriber at `cursor`.
    pub fn recv(&self, cursor: &mut Cursor) -> (out: RecvOutcome)
        requires
            self.wf(),
            old(cursor)@ <= self@.next_seq(),
        ensures
            final(cursor)@ == recv_cursor_spec(self@, old(cursor)@),
            out@ == recv_out_spec(self@, old(cursor)@),
            final(cursor)@ <= self@.next_seq(),
    {
        if cursor.next < self.start {
            let skipped = self.start - cursor.next;
            cursor.next = self.start;
            RecvOutcome::Lagged(skipped)
        } else {
            let pos = cursor.next - self.start;
            if pos < self.queue.len() as u64 {
                let msg = self.queue[pos as usize].clone();
                cursor.next = cursor.next + 1;
                RecvOutcome::Item(msg)
            } else if self.closed {
                RecvOutcome::Closed
            } else {
                RecvOutcome::Empty
            }
        }
    }
}

/// A gap is recoverable, never fatal: a subscriber that fell behind
/// observes the gap, snaps forward to the oldest retained message, and
/// its very next receive attempt yields that message whenever the bus
/// retains any. The subscription itself never ends on a gap.
pub proof fn lemma_lag_is_recoverable(b: BusV, c: nat)
    requires
        b.wf(),
        c < b.start,
    ensures
        recv_out_spec(b, c) == RecvOutcomeV::Lagged((b.start - c) as nat),
        recv_cursor_spec(b, c) == b.start,
        b.retained.len() > 0 ==> recv_out_spec(b, recv_cursor_spec(b, c))
            == RecvOutcomeV::Item(b.retained[0]),
{
}

/// A caught-up subscriber observes a publication without resubscribing:
/// its next receive attempt after the publication yields exactly the
/// published message.
pub proof fn lemma_publish_then_recv(b: BusV, m: MessageV, c: nat)
    requires
        b.wf(),
        !b.closed,
        c == b.next_seq(),
    ensures
        recv_out_spec(publish_spec(b, m), c) == RecvOutcomeV::Item(m),
        recv_cursor_spec(publish_spec(b, m), c) == c + 1,
{
}

/// The bus replays no history: a subscriber that joins an open bus has
/// nothing to read until something is published afterwards.
pub proof fn lemma_no_replay(b: BusV)
    requires
        b.wf(),
        !b.closed,
    ensures
        recv_out_spec(b, b.next_seq()) == RecvOutcomeV::Empty,
        recv_cursor_spec(b, b.next_seq()) == b.next_seq(),
{
}

} // verus!
