//! The bounded per-connection outbound queue and its discipline.
//!
//! On threaded platforms every connection owns one small queue between the
//! caller's `send` and the background task that writes to the transport. Its
//! rules are verified here: sends are accepted in call order and handed to
//! the transport in that same order, a full queue accepts nothing until the
//! task drains an entry, and once the receiving side is gone every send fails
//! with an "already closed" error.

use crate::error::Error;
use vstd::prelude::*;

verus! {

/// The outbound queue of one connection, with a ghost record of everything
/// it has accepted and everything it has handed to the transport.
pub struct SendQueue {
    items: Vec<String>,
    capacity: usize,
    closed: bool,
    accepted: Ghost<Seq<Seq<char>>>,
    delivered: Ghost<Seq<Seq<char>>>,
}

impl SendQueue {
    /// The messages waiting in the queue, oldest first.
    pub closed spec fn pending(self) -> Seq<Seq<char>> {
        self.items@.map(|i: int, s: String| s@)
    }

    /// Every message the queue ever accepted, in the order of the `send`
    /// calls that queued them.
    pub closed spec fn accepted(self) -> Seq<Seq<char>> {
        self.accepted@
    }

    /// Every message already handed to the transport side, oldest first.
    pub closed spec fn delivered(self) -> Seq<Seq<char>> {
        self.delivered@
    }

    /// The fixed bound on how many messages may wait at once.
    pub closed spec fn capacity(self) -> usize {
        self.capacity
    }

    /// Whether the receiving side is gone, so the connection has ended.
    pub closed spec fn is_closed(self) -> bool {
        self.closed
    }

    /// Queue consistency: what was accepted is exactly what was delivered
    /// followed by what still waits, and no more waits than the bound allows.
    pub closed spec fn wf(self) -> bool {
        &&& self.delivered@ + self.pending() == self.accepted@
        &&& self.items@.len() <= self.capacity
        &&& self.capacity >= 1
    }

    /// Whether a send would be accepted right now: the receiving side is
    /// still there and the bound leaves room.
    pub open spec fn can_accept(self) -> bool {
        !self.is_closed() && self.pending().len() < self.capacity()
    }

    /// An empty queue that may hold up to `capacity` messages at once.
    pub fn new(capacity: usize) -> (q: Self)
        requires
            capacity >= 1,
        ensures
            q.wf(),
            q.capacity() == capacity,
            !q.is_closed(),
            q.pending() == Seq::<Seq<char>>::empty(),
            q.accepted() == Seq::<Seq<char>>::empty(),
            q.delivered() == Seq::<Seq<char>>::empty(),
    {
        let q = SendQueue {
            items: Vec::new(),
            capacity,
            closed: false,
            accepted: Ghost(Seq::empty()),
            delivered: Ghost(Seq::empty()),
        };
        proof {
            assert(q.pending() =~= Seq::<Seq<char>>::empty());
            assert(q.delivered@ + q.pending() =~= q.accepted@);
        }
        q
    }

    /// How many messages wait right now.
    pub fn len(&self) -> (n: usize)
        ensures
            n == self.pending().len(),
    {
        self.items.len()
    }

    /// Queues `msg` for the transport. Fails with `AlreadyClosed` once the
    /// receiving side is gone, and with `SendQueueFull`, handing the message
    /// back, while the queue is at its bound; a caller that must not lose the
    /// message waits for the background task to drain an entry and sends
    /// again.
    pub fn send(&mut self, msg: String) -> (r: Result<(), Error>)
        requires
            old(self).wf(),
        ensures
            final(self).wf(),
            final(self).capacity() == old(self).capacity(),
            final(self).is_closed() == old(self).is_closed(),
            final(self).delivered() == old(self).delivered(),
            r is Ok <==> old(self).can_accept(),
            old(self).can_accept() ==> {
                &&& final(self).pending() == old(self).pending().push(msg@)
                &&& final(self).accepted() == old(self).accepted().push(msg@)
            },
            old(self).is_closed() ==> r == Err::<(), Error>(Error::AlreadyClosed)
                && *final(self) == *old(self),
            !old(self).is_closed() && !old(self).can_accept() ==> r == Err::<(), Error>(
                Error::SendQueueFull(msg),
            ) && *final(self) == *old(self),
    {
        if self.closed {
            Err(Error::AlreadyClosed)
        } else if self.items.len() >= self.capacity {
            Err(Error::SendQueueFull(msg))
        } else {
            proof {
                self.accepted@ = self.accepted@.push(msg@);
            }
            let ghost pre = self.items@;
            self.items.push(msg);
            proof {
                assert(self.items@ =~= pre.push(msg));
                assert(self.pending() =~= old(self).pending().push(msg@));
                assert(self.delivered@ + self.pending() =~= self.accepted@);
            }
            Ok(())
        }
    }

    /// Hands the oldest waiting message to the transport side, or `None`
    /// when nothing waits.
    pub fn recv(&mut self) -> (r: Option<String>)
        requires
            old(self).wf(),
        ensures
            final(self).wf(),
            final(self).capacity() == old(self).capacity(),
            final(self).is_closed() == old(self).is_closed(),
            final(self).accepted() == old(self).accepted(),
            old(self).pending().len() == 0 ==> r is None && *final(self) == *old(self),
            old(self).pending().len() > 0 ==> {
                &&& r matches Some(m) && m@ == old(self).pending()[0]
                &&& final(self).pending() == old(self).pending().drop_first()
                &&& final(self).delivered() == old(self).delivered().push(
                    old(self).pending()[0],
                )
            },
    {
        if self.items.len() == 0 {
            None
        } else {
            let ghost pre = self.items@;
            let m = self.items.remove(0);
            proof {
                self.delivered@ = self.delivered@.push(m@);
                assert(self.items@ =~= pre.drop_first());
                assert(self.pending() =~= old(self).pending().drop_first());
                assert(self.delivered@ + self.pending() =~= self.accepted@);
            }
            Some(m)
        }
    }

    /// The receiving side is gone: the connection ended, and every later
    /// send fails with `AlreadyClosed`.
    pub fn close(&mut self)
        requires
            old(self).wf(),
        ensures
            final(self).wf(),
            final(self).is_closed(),
            final(self).capacity() == old(self).capacity(),
            final(self).pending() == old(self).pending(),
            final(self).accepted() == old(self).accepted(),
            final(self).delivered() == old(self).delivered(),
    {
        self.closed = true;
    }
}

/// Ordering law: whatever state a queue has reached, the messages handed to
/// the transport are exactly the first accepted messages, in the order of
/// the `send` calls that queued them — no reordering, no loss, no
/// duplication before the queue itself is dropped.
pub proof fn lemma_fifo_order(q: SendQueue)
    requires
        q.wf(),
    ensures
        q.delivered() == q.accepted().take(q.delivered().len() as int),
        q.accepted() == q.delivered() + q.pending(),
{
    assert(q.delivered() =~= (q.delivered() + q.pending()).take(q.delivered().len() as int));
}

/// Backpressure law: a queue at its bound accepts nothing more, and a queue
/// below its bound whose receiving side still lives accepts the next send —
/// so a send that found the queue full succeeds as soon as the background
/// task drains one entry.
pub proof fn lemma_backpressure(q: SendQueue)
    requires
        q.wf(),
    ensures
        q.pending().len() == q.capacity() ==> !q.can_accept(),
        !q.is_closed() && q.pending().len() < q.capacity() ==> q.can_accept(),
{
}

} // verus!
