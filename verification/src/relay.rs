//! The relay: the receiver's enqueue side, the forwarding worker's push
//! discipline, and the sink's delivered list, in one model — with the
//! in-order delivery and isolation laws proved over it.
//!
//! The process around the library performs the actual socket reads and
//! sink pushes; it reports each outcome here, and this module decides what
//! the pipeline's state becomes. Every decision is verified.

use vstd::prelude::*;
use vstd::utf8::valid_utf8;
use crate::decode::decode_datagram;
use crate::decode::truncated_spec;
use crate::decode::MAX_DATAGRAM_BYTES;
use crate::errors::PipelineError;
use crate::msg::Message;
use crate::queue::HandoffQueue;
use crate::worker::WorkerState;

verus! {

/// The outcome of one push attempt against the sink, as the process
/// observed it: accepted durably, failed in a way worth retrying (dropped
/// connection, transient network error), or failed terminally (bad
/// credentials, missing destination).
#[derive(Clone, Copy, Debug, PartialEq, Eq, Structural)]
pub enum PushOutcome {
    Delivered,
    FailedRetryable,
    FailedFatal,
}

/// What to do when a packet does not decode: the reference policy treats
/// it as fatal to the whole pipeline; the hardened policy logs and drops
/// the one packet and carries on.
#[derive(Clone, Copy, Debug, PartialEq, Eq, Structural)]
pub enum DecodePolicy {
    Fatal,
    DropAndContinue,
}

/// The relay's whole state, as contracts speak of it: the worker's
/// lifecycle state, the payloads waiting in the handoff queue (oldest
/// first), the payload dequeued and in flight towards the sink, if any,
/// and the payloads the sink has accepted, in delivery order.
#[verifier::ext_equal]
pub struct RelayView {
    pub state: WorkerState,
    pub queue: Seq<Seq<u8>>,
    pub pending: Option<Seq<u8>>,
    pub sink: Seq<Seq<u8>>,
}

/// A well-formed relay state: every payload anywhere in it is valid
/// UTF-8, a message is in flight exactly while the worker forwards (or
/// after a terminal failure, when the in-flight message is the one that
/// was lost), and the worker forwards only with a message in flight.
pub open spec fn view_wf(v: RelayView) -> bool {
    &&& forall|k: int| 0 <= k < v.queue.len() ==> valid_utf8(#[trigger] v.queue[k])
    &&& forall|k: int| 0 <= k < v.sink.len() ==> valid_utf8(#[trigger] v.sink[k])
    &&& match v.pending {
        Some(p) => valid_utf8(p),
        None => true,
    }
    &&& (v.state is Forwarding ==> v.pending is Some)
    &&& (v.pending is Some ==> v.state is Forwarding || v.state is Failed)
}

/// The state right after a successful downstream connect: worker ready,
/// nothing queued, nothing in flight, nothing delivered.
pub open spec fn relay_init() -> RelayView {
    RelayView {
        state: WorkerState::Ready,
        queue: Seq::empty(),
        pending: None,
        sink: Seq::empty(),
    }
}

/// What one packet arrival does: the kept (truncated) bytes are enqueued
/// when they decode; otherwise the packet is dropped or the pipeline
/// fails, as the decode policy says. The sink and the in-flight message
/// are never touched by an arrival.
pub open spec fn receive_step(v: RelayView, packet: Seq<u8>, policy: DecodePolicy) -> RelayView {
    if valid_utf8(truncated_spec(packet)) {
        RelayView {
            state: v.state,
            queue: v.queue.push(truncated_spec(packet)),
            pending: v.pending,
            sink: v.sink,
        }
    } else {
        match policy {
            DecodePolicy::Fatal => RelayView {
                state: WorkerState::Failed,
                queue: v.queue,
                pending: v.pending,
                sink: v.sink,
            },
            DecodePolicy::DropAndContinue => v,
        }
    }
}

/// What the worker's dequeue does: the oldest waiting payload leaves the
/// queue and becomes the in-flight message of exactly one push attempt.
pub open spec fn begin_push_step(v: RelayView) -> RelayView
    recommends
        v.state is Ready,
        v.queue.len() > 0,
{
    if v.queue.len() > 0 {
        RelayView {
            state: WorkerState::Forwarding,
            queue: v.queue.drop_first(),
            pending: Some(v.queue[0]),
            sink: v.sink,
        }
    } else {
        v
    }
}

/// What the push's outcome does: on success the in-flight message is
/// appended to the sink, exactly once, and the worker returns to waiting;
/// on a retryable failure nothing changes — the message stays in flight
/// for the re-attempt, never silently dropped; on a terminal failure the
/// worker fails, the undelivered message still in hand.
pub open spec fn finish_push_step(v: RelayView, outcome: PushOutcome) -> RelayView
    recommends
        v.state is Forwarding,
        v.pending is Some,
{
    match outcome {
        PushOutcome::Delivered => match v.pending {
            Some(p) => RelayView {
                state: WorkerState::Ready,
                queue: v.queue,
                pending: None,
                sink: v.sink.push(p),
            },
            None => v,
        },
        PushOutcome::FailedRetryable => v,
        PushOutcome::FailedFatal => RelayView {
            state: WorkerState::Failed,
            queue: v.queue,
            pending: v.pending,
            sink: v.sink,
        },
    }
}

/// The in-process side of the pipeline: one receiver enqueuing, one
/// worker forwarding, one sink accepting — with the concrete socket and
/// sink I/O performed outside and their outcomes reported in.
pub struct Relay {
    state: WorkerState,
    queue: HandoffQueue,
    pending: Option<Message>,
    delivered: Vec<Message>,
}

impl View for Relay {
    type V = RelayView;

    closed spec fn view(&self) -> RelayView {
        RelayView {
            state: self.state,
            queue: self.queue@,
            pending: match self.pending {
                Some(m) => Some(m@),
                None => None,
            },
            sink: self.delivered@.map_values(|m: Message| m@),
        }
    }
}

impl Relay {
    /// The invariant the methods keep.
    pub open spec fn wf(&self) -> bool {
        view_wf(self@)
    }

    /// Creates the relay once the worker's downstream connection attempt
    /// has resolved. Fails fast: a relay exists — and so packets can be
    /// accepted at all — exactly when the connection was established, and
    /// on a failed connect the error is the startup-fatal connection
    /// error.
    pub fn start(connect_ok: bool) -> (r: Result<Relay, PipelineError>)
        ensures
            connect_ok <==> r is Ok,
            (r matches Ok(rl) ==> rl@ == relay_init() && rl.wf()),
            (r matches Err(e) ==> e == PipelineError::Connection),
    {
        if connect_ok {
            let rl = Relay {
                state: WorkerState::Ready,
                queue: HandoffQueue::new(),
                pending: None,
                delivered: Vec::new(),
            };
            proof {
                assert(rl@ =~= relay_init());
            }
            Ok(rl)
        } else {
            Err(PipelineError::Connection)
        }
    }

    /// The worker's lifecycle state.
    pub fn state(&self) -> (s: WorkerState)
        ensures
            s == self@.state,
    {
        self.state
    }

    /// How many messages wait in the handoff queue.
    pub fn queue_len(&self) -> (n: usize)
        ensures
            n == self@.queue.len(),
    {
        self.queue.len()
    }

    /// The messages the sink has accepted, in delivery order.
    pub fn delivered(&self) -> (r: &Vec<Message>)
        ensures
            r@.map_values(|m: Message| m@) == self@.sink,
    {
        &self.delivered
    }

    /// One packet arrival: decode (with truncation to the buffer size) and
    /// enqueue. Returns whether the packet was accepted; a packet that
    /// does not decode is dropped or fails the pipeline, as the policy
    /// says, and is an error exactly under the fatal policy.
    pub fn receive(&mut self, packet: &[u8], policy: DecodePolicy) -> (r: Result<
        bool,
        PipelineError,
    >)
        requires
            old(self).wf(),
            !(old(self)@.state is Failed),
        ensures
            final(self).wf(),
            final(self)@ == receive_step(old(self)@, packet@, policy),
            (r matches Ok(accepted) ==> accepted == valid_utf8(truncated_spec(packet@))),
            r is Err <==> (!valid_utf8(truncated_spec(packet@)) && policy is Fatal),
            (r matches Err(e) ==> e == PipelineError::Decode),
    {
        match decode_datagram(packet) {
            Ok(m) => {
                self.queue.enqueue(m);
                proof {
                    assert(self@ =~= receive_step(old(self)@, packet@, policy));
                }
                Ok(true)
            },
            Err(e) => {
                match policy {
                    DecodePolicy::Fatal => {
                        self.state = WorkerState::Failed;
                        proof {
                            assert(self@ =~= receive_step(old(self)@, packet@, policy));
                        }
                        Err(e)
                    },
                    DecodePolicy::DropAndContinue => {
                        proof {
                            assert(self@ =~= receive_step(old(self)@, packet@, policy));
                        }
                        Ok(false)
                    },
                }
            },
        }
    }

    /// The worker dequeues the oldest waiting message and opens one push
    /// attempt for it.
    pub fn begin_push(&mut self)
        requires
            old(self).wf(),
            old(self)@.state is Ready,
            old(self)@.queue.len() > 0,
        ensures
            final(self).wf(),
            final(self)@ == begin_push_step(old(self)@),
    {
        let m = self.queue.dequeue();
        self.pending = Some(m);
        self.state = WorkerState::Forwarding;
        proof {
            assert(self@ =~= begin_push_step(old(self)@));
        }
    }

    /// The payload of the message in flight, for the process to hand to
    /// the sink.
    pub fn pending_payload(&self) -> (r: Option<&Vec<u8>>)
        ensures
            r is Some <==> self@.pending is Some,
            (r matches Some(b) ==> self@.pending matches Some(p) && b@ == p),
    {
        match &self.pending {
            Some(m) => Some(m.as_bytes()),
            None => None,
        }
    }

    /// Resolves the push in flight with the outcome the sink reported.
    /// Success appends the message to the sink's list, exactly once; a
    /// retryable failure keeps the same message in flight for the next
    /// attempt; a terminal failure fails the worker and is the only
    /// erroneous outcome.
    pub fn finish_push(&mut self, outcome: PushOutcome) -> (r: Result<(), PipelineError>)
        requires
            old(self).wf(),
            old(self)@.state is Forwarding,
        ensures
            final(self).wf(),
            final(self)@ == finish_push_step(old(self)@, outcome),
            r is Ok <==> !(outcome is FailedFatal),
            (r matches Err(e) ==> e == (PipelineError::Sink { retryable: false })),
    {
        match outcome {
            PushOutcome::Delivered => {
                let m = self.pending.take().unwrap();
                self.delivered.push(m);
                self.state = WorkerState::Ready;
                proof {
                    assert(self@ =~= finish_push_step(old(self)@, outcome));
                }
                Ok(())
            },
            PushOutcome::FailedRetryable => {
                proof {
                    assert(self@ =~= finish_push_step(old(self)@, outcome));
                }
                Ok(())
            },
            PushOutcome::FailedFatal => {
                self.state = WorkerState::Failed;
                proof {
                    assert(self@ =~= finish_push_step(old(self)@, outcome));
                }
                Err(PipelineError::Sink { retryable: false })
            },
        }
    }

    /// The worker running undisturbed until nothing is left: resolves any
    /// push in flight and then dequeues and pushes, one message at a
    /// time, with every push succeeding — the executable counterpart of
    /// `drain`, which the in-order delivery law speaks of.
    pub fn forward_until_empty(&mut self)
        requires
            old(self).wf(),
            old(self)@.state is Ready || old(self)@.state is Forwarding,
        ensures
            final(self).wf(),
            final(self)@ == drain(old(self)@),
    {
        loop
            invariant
                self.wf(),
                self@.state is Ready || self@.state is Forwarding,
                drain(self@) == drain(old(self)@),
            ensures
                self.wf(),
                drain(self@) == drain(old(self)@),
                self@.state is Ready,
                self@.pending is None,
                self@.queue.len() == 0,
            decreases 2 * self@.queue.len() + pending_seq(self@).len(),
        {
            let s = self.state();
            match s {
                WorkerState::Forwarding => {
                    let _ = self.finish_push(PushOutcome::Delivered);
                },
                _ => {
                    if self.queue_len() > 0 {
                        self.begin_push();
                    } else {
                        break;
                    }
                },
            }
        }
        proof {
            assert(drain(self@) == self@);
        }
    }
}

/// A whole burst of arrivals, in order.
pub open spec fn receive_all(v: RelayView, packets: Seq<Seq<u8>>, policy: DecodePolicy) -> RelayView
    decreases packets.len(),
{
    if packets.len() == 0 {
        v
    } else {
        receive_all(receive_step(v, packets[0], policy), packets.drop_first(), policy)
    }
}

/// The in-flight message as a sequence: one payload or none.
pub open spec fn pending_seq(v: RelayView) -> Seq<Seq<u8>> {
    match v.pending {
        Some(p) => seq![p],
        None => Seq::empty(),
    }
}

/// The worker running undisturbed: it resolves any push in flight and
/// then dequeues and delivers, one message at a time, every push
/// succeeding, until nothing waits.
pub open spec fn drain(v: RelayView) -> RelayView
    decreases 2 * v.queue.len() + pending_seq(v).len(),
{
    if v.pending is Some {
        drain(finish_push_step(v, PushOutcome::Delivered))
    } else if v.queue.len() > 0 {
        drain(begin_push_step(v))
    } else {
        v
    }
}

/// Arrivals of well-formed packets only grow the queue, in arrival order:
/// after a burst of packets, each within the buffer size and valid UTF-8,
/// the queue holds what it held followed by those packets exactly, and
/// neither the sink, nor the in-flight message, nor the worker's state
/// has moved.
pub proof fn lemma_receive_all_valid(v: RelayView, packets: Seq<Seq<u8>>, policy: DecodePolicy)
    requires
        forall|k: int|
            0 <= k < packets.len() ==> (#[trigger] packets[k]).len() <= MAX_DATAGRAM_BYTES
                && valid_utf8(packets[k]),
    ensures
        receive_all(v, packets, policy).queue =~= v.queue + packets,
        receive_all(v, packets, policy).sink == v.sink,
        receive_all(v, packets, policy).pending == v.pending,
        receive_all(v, packets, policy).state == v.state,
    decreases packets.len(),
{
    if packets.len() == 0 {
        assert(v.queue + packets =~= v.queue);
    } else {
        let p0 = packets[0];
        assert(truncated_spec(p0) == p0);
        let v1 = receive_step(v, p0, policy);
        assert(forall|k: int|
            0 <= k < packets.drop_first().len() ==> #[trigger] packets.drop_first()[k] == packets[
                k + 1
            ]);
        lemma_receive_all_valid(v1, packets.drop_first(), policy);
        assert(v1.queue + packets.drop_first() =~= v.queue + packets);
    }
}

/// Draining delivers everything, in order: the sink ends holding what it
/// held, then the message that was in flight, then the queue's payloads
/// oldest first — and nothing remains queued or in flight.
pub proof fn lemma_drain_delivers_in_order(v: RelayView)
    ensures
        drain(v).sink =~= v.sink + pending_seq(v) + v.queue,
        drain(v).queue.len() == 0,
        drain(v).pending is None,
    decreases 2 * v.queue.len() + pending_seq(v).len(),
{
    if v.pending is Some {
        let v1 = finish_push_step(v, PushOutcome::Delivered);
        lemma_drain_delivers_in_order(v1);
        assert(v1.sink + pending_seq(v1) + v1.queue =~= v.sink + pending_seq(v) + v.queue);
    } else if v.queue.len() > 0 {
        let v1 = begin_push_step(v);
        lemma_drain_delivers_in_order(v1);
        assert(v1.sink + pending_seq(v1) + v1.queue =~= v.sink + pending_seq(v) + v.queue);
    } else {
        assert(v.sink + pending_seq(v) + v.queue =~= v.sink);
    }
}

/// In-order delivery, end to end: for any sequence of packets, each
/// within the buffer size and valid UTF-8, received in order into a
/// freshly started relay and then drained by the worker with every push
/// succeeding, the sink receives exactly those payloads, in that order —
/// no drop, no duplicate, no reorder — whatever the decode policy.
pub proof fn lemma_in_order_delivery(packets: Seq<Seq<u8>>, policy: DecodePolicy)
    requires
        forall|k: int|
            0 <= k < packets.len() ==> (#[trigger] packets[k]).len() <= MAX_DATAGRAM_BYTES
                && valid_utf8(packets[k]),
    ensures
        drain(receive_all(relay_init(), packets, policy)).sink =~= packets,
{
    lemma_receive_all_valid(relay_init(), packets, policy);
    let v1 = receive_all(relay_init(), packets, policy);
    lemma_drain_delivers_in_order(v1);
    assert(v1.sink + pending_seq(v1) + v1.queue =~= packets);
}

/// Isolation under the drop policy: a packet that does not decode leaves
/// the relay exactly as it was, so the handling of everything that
/// follows — any further burst of packets — is the same as if the bad
/// packet had never arrived.
pub proof fn lemma_drop_policy_isolation(v: RelayView, bad: Seq<u8>, rest: Seq<Seq<u8>>)
    requires
        !valid_utf8(truncated_spec(bad)),
    ensures
        receive_step(v, bad, DecodePolicy::DropAndContinue) == v,
        receive_all(receive_step(v, bad, DecodePolicy::DropAndContinue), rest,
            DecodePolicy::DropAndContinue) == receive_all(v, rest, DecodePolicy::DropAndContinue),
{
}

/// A retryable push failure loses nothing: the relay is unchanged, the
/// same message stays in flight, and a later successful attempt delivers
/// it exactly as an undisturbed first attempt would have — once, with no
/// duplicate of anything already delivered.
pub proof fn lemma_retry_preserves_message(v: RelayView)
    requires
        v.state is Forwarding,
        v.pending is Some,
    ensures
        finish_push_step(v, PushOutcome::FailedRetryable) == v,
        finish_push_step(finish_push_step(v, PushOutcome::FailedRetryable), PushOutcome::Delivered)
            == finish_push_step(v, PushOutcome::Delivered),
{
}

} // verus!
