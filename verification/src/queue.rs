//! The handoff queue: the ordered, in-process conduit between the receiver
//! and the forwarding worker, and the FIFO law that governs it.

use vstd::prelude::*;
use vstd::utf8::valid_utf8;
use crate::msg::Message;

verus! {

/// The single synchronization point between the two pipeline stages: an
/// ordered, unbounded sequence of messages. It owns no business logic,
/// only the queue discipline: strict first-in, first-out. Its view is the
/// sequence of waiting payloads, oldest first.
pub struct HandoffQueue {
    items: Vec<Message>,
}

impl View for HandoffQueue {
    type V = Seq<Seq<u8>>;

    closed spec fn view(&self) -> Seq<Seq<u8>> {
        self.items@.map_values(|m: Message| m@)
    }
}

impl HandoffQueue {
    /// Every waiting payload is a well-formed message.
    pub open spec fn wf(&self) -> bool {
        forall|k: int| 0 <= k < self@.len() ==> valid_utf8(#[trigger] self@[k])
    }

    /// An empty queue.
    pub fn new() -> (q: HandoffQueue)
        ensures
            q@ == Seq::<Seq<u8>>::empty(),
            q.wf(),
    {
        let q = HandoffQueue { items: Vec::new() };
        proof {
            assert(q@ =~= Seq::<Seq<u8>>::empty());
        }
        q
    }

    /// How many messages are waiting.
    pub fn len(&self) -> (n: usize)
        ensures
            n == self@.len(),
    {
        self.items.len()
    }

    /// Whether nothing is waiting.
    pub fn is_empty(&self) -> (e: bool)
        ensures
            e == (self@.len() == 0),
    {
        self.items.len() == 0
    }

    /// Appends a message at the tail. Never blocks and never fails: the
    /// queue is unbounded, so the receiver is never held back.
    pub fn enqueue(&mut self, m: Message)
        requires
            old(self).wf(),
            m.wf(),
        ensures
            final(self)@ == old(self)@.push(m@),
            final(self).wf(),
    {
        self.items.push(m);
        proof {
            assert(self@ =~= old(self)@.push(m@));
        }
    }

    /// Appends a message at the tail only while fewer than `capacity`
    /// messages wait: the building block of a bounded queue. Returns
    /// whether the message was taken; a refused message leaves the queue
    /// untouched, and what the producer does then — wait and offer it
    /// again (backpressure), or shed it and count the loss — is the
    /// producer's explicit choice, never this queue's.
    pub fn try_enqueue(&mut self, m: Message, capacity: usize) -> (accepted: bool)
        requires
            old(self).wf(),
            m.wf(),
        ensures
            final(self).wf(),
            accepted == (old(self)@.len() < capacity),
            accepted ==> final(self)@ == old(self)@.push(m@),
            !accepted ==> final(self)@ == old(self)@,
    {
        if self.items.len() < capacity {
            self.enqueue(m);
            true
        } else {
            false
        }
    }

    /// Removes and returns the oldest waiting message.
    pub fn dequeue(&mut self) -> (m: Message)
        requires
            old(self).wf(),
            old(self)@.len() > 0,
        ensures
            m@ == old(self)@[0],
            m.wf(),
            final(self)@ == old(self)@.drop_first(),
            final(self).wf(),
    {
        let m = self.items.remove(0);
        proof {
            assert(self@ =~= old(self)@.drop_first());
            assert(valid_utf8(old(self)@[0]));
        }
        m
    }
}

/// One event in a queue's history: a payload arriving at the tail, or the
/// worker taking one departure from the head.
pub enum QueueEvent {
    Arrive { payload: Seq<u8> },
    Depart,
}

/// A queue history's outcome: what still waits, and what has departed to
/// the worker, in departure order.
#[verifier::ext_equal]
pub struct QueueTrace {
    pub waiting: Seq<Seq<u8>>,
    pub departed: Seq<Seq<u8>>,
}

/// The empty starting point of a queue history.
pub open spec fn initial_trace() -> QueueTrace {
    QueueTrace { waiting: Seq::empty(), departed: Seq::empty() }
}

/// What one event does to a trace: an arrival appends at the tail — the
/// same discipline `HandoffQueue::enqueue` promises — and a departure, when
/// anything waits, moves the head — as `HandoffQueue::dequeue` promises. A
/// departure from an empty queue is the worker blocking: nothing changes.
pub open spec fn queue_step(t: QueueTrace, e: QueueEvent) -> QueueTrace {
    match e {
        QueueEvent::Arrive { payload } => QueueTrace {
            waiting: t.waiting.push(payload),
            departed: t.departed,
        },
        QueueEvent::Depart => if t.waiting.len() > 0 {
            QueueTrace {
                waiting: t.waiting.drop_first(),
                departed: t.departed.push(t.waiting[0]),
            }
        } else {
            t
        },
    }
}

/// A whole history of events, applied in order.
pub open spec fn queue_run(t: QueueTrace, h: Seq<QueueEvent>) -> QueueTrace
    decreases h.len(),
{
    if h.len() == 0 {
        t
    } else {
        queue_run(queue_step(t, h[0]), h.drop_first())
    }
}

/// The payloads that arrive over a history, in arrival order.
pub open spec fn arrivals(h: Seq<QueueEvent>) -> Seq<Seq<u8>>
    decreases h.len(),
{
    if h.len() == 0 {
        Seq::empty()
    } else {
        match h[0] {
            QueueEvent::Arrive { payload } => seq![payload] + arrivals(h.drop_first()),
            QueueEvent::Depart => arrivals(h.drop_first()),
        }
    }
}

/// Conservation under any interleaving: after any history, the departures
/// followed by what still waits are exactly the earlier state's payloads
/// followed by every arrival, in arrival order. Nothing is dropped,
/// duplicated or reordered by any timing of the two stages.
pub proof fn lemma_fifo_conservation(t: QueueTrace, h: Seq<QueueEvent>)
    ensures
        queue_run(t, h).departed + queue_run(t, h).waiting =~= t.departed + t.waiting + arrivals(
            h,
        ),
    decreases h.len(),
{
    if h.len() == 0 {
        assert(t.departed + t.waiting + arrivals(h) =~= t.departed + t.waiting);
    } else {
        let t1 = queue_step(t, h[0]);
        lemma_fifo_conservation(t1, h.drop_first());
        match h[0] {
            QueueEvent::Arrive { payload } => {
                assert(t1.departed + t1.waiting + arrivals(h.drop_first()) =~= t.departed
                    + t.waiting + arrivals(h));
            },
            QueueEvent::Depart => {
                if t.waiting.len() > 0 {
                    assert(t1.departed + t1.waiting + arrivals(h.drop_first()) =~= t.departed
                        + t.waiting + arrivals(h));
                } else {
                    assert(t1.departed + t1.waiting + arrivals(h.drop_first()) =~= t.departed
                        + t.waiting + arrivals(h));
                }
            },
        }
    }
}

/// The FIFO law: starting from an empty queue, whatever the interleaving
/// of arrivals and departures, the departure order is exactly the arrival
/// order — the departures are a prefix of the arrivals.
pub proof fn lemma_fifo_order(h: Seq<QueueEvent>)
    ensures
        queue_run(initial_trace(), h).departed =~= arrivals(h).take(
            queue_run(initial_trace(), h).departed.len() as int,
        ),
        queue_run(initial_trace(), h).departed.len() + queue_run(initial_trace(), h).waiting.len()
            == arrivals(h).len(),
{
    let t0 = initial_trace();
    lemma_fifo_conservation(t0, h);
    let end = queue_run(t0, h);
    assert(end.departed + end.waiting =~= arrivals(h));
    assert(end.departed =~= arrivals(h).take(end.departed.len() as int));
}

} // verus!
