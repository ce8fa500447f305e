//! The event channel, modelled as an unbounded FIFO queue of records.
//!
//! The delivery loop runs it behind an asynchronous multi-producer channel;
//! the queue here carries the channel's ordering contract: sends append,
//! receives take from the front, so a producer's records are drained in
//! emission order.

use vstd::prelude::*;

use crate::event::LogEvent;

verus! {

/// An unbounded FIFO queue of records.
pub struct EventQueue {
    items: Vec<LogEvent>,
}

impl View for EventQueue {
    type V = Seq<LogEvent>;

    closed spec fn view(&self) -> Seq<LogEvent> {
        self.items@
    }
}

impl EventQueue {
    /// The empty queue.
    pub fn new() -> (r: EventQueue)
        ensures
            r@ == Seq::<LogEvent>::empty(),
    {
        let r = EventQueue { items: Vec::new() };
        proof {
            assert(r@ =~= Seq::<LogEvent>::empty());
        }
        r
    }

    /// Number of queued records.
    pub fn len(&self) -> (n: usize)
        ensures
            n == self@.len(),
    {
        self.items.len()
    }

    /// Whether the queue holds no record.
    pub fn is_empty(&self) -> (b: bool)
        ensures
            b == (self@.len() == 0),
    {
        self.items.len() == 0
    }

    /// Enqueues one record at the back.
    pub fn send(&mut self, event: LogEvent)
        ensures
            final(self)@ == old(self)@.push(event),
    {
        self.items.push(event);
    }

    /// Dequeues the oldest record, if any.
    pub fn recv(&mut self) -> (r: Option<LogEvent>)
        ensures
            old(self)@.len() == 0 ==> r is None && final(self)@ == old(self)@,
            old(self)@.len() > 0 ==> r == Some(old(self)@[0]) && final(self)@ == old(
                self,
            )@.drop_first(),
    {
        if self.items.len() == 0 {
            None
        } else {
            let e = self.items.remove(0);
            proof {
                assert(self@ =~= old(self)@.drop_first());
            }
            Some(e)
        }
    }

    /// Drains up to `limit` records from the front into `buf`, appending
    /// in queue order; returns how many were moved.
    pub fn recv_many(&mut self, buf: &mut Vec<LogEvent>, limit: usize) -> (n: usize)
        ensures
            n == if limit <= old(self)@.len() {
                limit as int
            } else {
                old(self)@.len() as int
            },
            final(buf)@ == old(buf)@ + old(self)@.subrange(0, n as int),
            final(self)@ == old(self)@.subrange(n as int, old(self)@.len() as int),
    {
        let mut n: usize = 0;
        while n < limit && self.items.len() > 0
            invariant
                n <= limit,
                n <= old(self)@.len(),
                n < limit ==> n == old(self)@.len() - self@.len(),
                n == limit ==> self@ == old(self)@.subrange(n as int, old(self)@.len() as int),
                self@ == old(self)@.subrange(
                    (old(self)@.len() - self@.len()) as int,
                    old(self)@.len() as int,
                ),
                buf@ == old(buf)@ + old(self)@.subrange(0, (old(self)@.len() - self@.len()) as int),
            decreases limit - n,
        {
            let e = self.items.remove(0);
            buf.push(e);
            n += 1;
            proof {
                let total = old(self)@.len() as int;
                let done = total - self@.len();
                assert(self@ =~= old(self)@.subrange(done, total));
                assert(buf@ =~= old(buf)@ + old(self)@.subrange(0, done));
            }
        }
        proof {
            let total = old(self)@.len() as int;
            if n < limit {
                assert(self@.len() == 0);
                assert(n == total);
            }
            assert(self@ =~= old(self)@.subrange(n as int, total));
        }
        n
    }
}

/// The queue contents after enqueuing `es`, one by one in order, onto `q`.
pub open spec fn spec_enqueue_all(q: Seq<LogEvent>, es: Seq<LogEvent>) -> Seq<LogEvent>
    decreases es.len(),
{
    if es.len() == 0 {
        q
    } else {
        spec_enqueue_all(q.push(es[0]), es.drop_first())
    }
}

/// Enqueuing appends: the queue holds its old contents followed by `es`.
pub proof fn lemma_enqueue_all(q: Seq<LogEvent>, es: Seq<LogEvent>)
    ensures
        spec_enqueue_all(q, es) == q + es,
    decreases es.len(),
{
    if es.len() == 0 {
        assert(q + es =~= q);
    } else {
        lemma_enqueue_all(q.push(es[0]), es.drop_first());
        assert(q.push(es[0]) + es.drop_first() =~= q + es);
    }
}

/// Law: enqueuing N records from one producer onto an empty queue yields a
/// queue holding exactly those N records in their original order, so
/// draining returns them in emission order.
pub proof fn lemma_fifo_order(es: Seq<LogEvent>)
    ensures
        spec_enqueue_all(Seq::empty(), es) == es,
{
    lemma_enqueue_all(Seq::empty(), es);
    assert(Seq::empty() + es =~= es);
}

} // verus!
