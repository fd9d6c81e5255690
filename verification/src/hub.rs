//! The bounded, lossy, multi-consumer broadcast hub.
//!
//! Every registry mutation publishes one message here; each subscriber reads
//! the publish-ordered log through its own cursor. A subscriber that falls
//! more than the hub's capacity behind loses the oldest messages it had not
//! read and is told how many were skipped; no subscriber's slowness blocks
//! publishing or delivery to anyone else.

use vstd::prelude::*;

use crate::types::ServerMessage;

verus! {

/// The shared broadcast point. It retains the most recent messages up to its
/// capacity; its mathematical content is the full log of every message ever
/// published, in publish order.
pub struct BroadcastHub {
    capacity: usize,
    buffer: Vec<ServerMessage>,
    published: usize,
    history: Ghost<Seq<ServerMessage>>,
}

/// One session's independent read handle: a cursor into the hub's log.
/// It observes only messages published after it was created.
pub struct Subscriber {
    next: usize,
}

/// What one receive attempt yields.
pub enum RecvOutcome<'a> {
    /// The next unread message, in publish order.
    Received(&'a ServerMessage),
    /// The subscriber fell behind: this many of its unread messages were
    /// discarded. Delivery resumes from the next surviving message.
    Lagged(usize),
    /// Every published message has been seen; a live system would wait here.
    Empty,
}

impl Subscriber {
    /// The position of this subscriber's cursor in the hub's log: the number
    /// of published messages it has accounted for (read or skipped).
    pub closed spec fn pos(&self) -> nat {
        self.next as nat
    }
}

impl BroadcastHub {
    /// Every message ever published, in publish order.
    pub closed spec fn log(&self) -> Seq<ServerMessage> {
        self.history@
    }

    /// The per-subscriber buffer capacity the hub was created with.
    pub closed spec fn cap(&self) -> nat {
        self.capacity as nat
    }

    /// The log position of the oldest message still retained: everything
    /// before it has been discarded to keep the buffer bounded.
    pub open spec fn first_retained(&self) -> int {
        if self.log().len() <= self.cap() {
            0
        } else {
            self.log().len() - self.cap()
        }
    }

    /// The retained window is exactly the tail of the log, up to capacity.
    pub closed spec fn wf(&self) -> bool {
        &&& self.capacity >= 1
        &&& self.published == self.history@.len()
        &&& self.buffer@.len() == self.history@.len() - self.first_retained()
        &&& self.buffer@ == self.history@.subrange(
            self.first_retained(),
            self.history@.len() as int,
        )
    }

    /// A hub with an empty log and the given per-subscriber capacity.
    pub fn new(capacity: usize) -> (r: BroadcastHub)
        requires
            capacity >= 1,
        ensures
            r.wf(),
            r.log() == Seq::<ServerMessage>::empty(),
            r.cap() == capacity,
    {
        let r = BroadcastHub {
            capacity,
            buffer: Vec::new(),
            published: 0,
            history: Ghost(Seq::empty()),
        };
        proof {
            assert(r.buffer@ =~= r.history@.subrange(r.first_retained(), r.history@.len() as int));
        }
        r
    }

    /// The number of messages published so far.
    pub fn published_count(&self) -> (r: usize)
        requires
            self.wf(),
        ensures
            r == self.log().len(),
    {
        self.published
    }

    /// Append one message to the log. The publisher never blocks and never
    /// observes subscriber-side congestion; if the retained window is full,
    /// the oldest retained message is discarded.
    pub fn publish(&mut self, m: ServerMessage)
        requires
            old(self).wf(),
            old(self).log().len() < usize::MAX,
        ensures
            final(self).wf(),
            final(self).log() == old(self).log().push(m),
            final(self).cap() == old(self).cap(),
    {
        let ghost m0 = m;
        let ghost h = self.history@;
        self.buffer.push(m);
        self.history = Ghost(h.push(m0));
        self.published = self.published + 1;
        if self.buffer.len() > self.capacity {
            self.buffer.remove(0);
        }
        proof {
            assert(self.buffer@ =~= self.history@.subrange(
                self.first_retained(),
                self.history@.len() as int,
            ));
        }
    }

    /// A new independent read handle, positioned at the end of the log: it
    /// receives only messages published after this call, with no replay of
    /// history.
    pub fn subscribe(&self) -> (r: Subscriber)
        requires
            self.wf(),
        ensures
            r.pos() == self.log().len(),
    {
        Subscriber { next: self.published }
    }

    /// One receive attempt for `sub`: the next unread retained message, a lag
    /// notice counting the messages discarded before it could read them, or
    /// nothing outstanding. Lag never tears the subscription down; after a
    /// lag notice, delivery resumes from the oldest surviving message.
    pub fn recv<'a>(&'a self, sub: &mut Subscriber) -> (r: RecvOutcome<'a>)
        requires
            self.wf(),
            old(sub).pos() <= self.log().len(),
        ensures
            final(sub).pos() <= self.log().len(),
            old(sub).pos() < self.first_retained() ==> {
                &&& r matches RecvOutcome::Lagged(k)
                    && k == self.first_retained() - old(sub).pos()
                &&& final(sub).pos() == self.first_retained()
            },
            self.first_retained() <= old(sub).pos() && old(sub).pos() < self.log().len() ==> {
                &&& r matches RecvOutcome::Received(m)
                    && *m == self.log()[old(sub).pos() as int]
                &&& final(sub).pos() == old(sub).pos() + 1
            },
            old(sub).pos() == self.log().len() ==> {
                &&& r is Empty
                &&& final(sub).pos() == old(sub).pos()
            },
    {
        let oldest = self.published - self.buffer.len();
        if sub.next < oldest {
            let skipped = oldest - sub.next;
            sub.next = oldest;
            RecvOutcome::Lagged(skipped)
        } else if sub.next < self.published {
            let idx = sub.next - oldest;
            sub.next = sub.next + 1;
            RecvOutcome::Received(&self.buffer[idx])
        } else {
            RecvOutcome::Empty
        }
    }
}

} // verus!
