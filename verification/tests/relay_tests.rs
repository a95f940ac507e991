use feed_relay::errors::PipelineError;
use feed_relay::relay::DecodePolicy;
use feed_relay::relay::PushOutcome;
use feed_relay::relay::Relay;
use feed_relay::worker::WorkerState;

#[test]
fn three_datagrams_arrive_in_order_with_no_gaps() {
    let mut relay = Relay::start(true).unwrap();
    for packet in [b"A", b"B", b"C"] {
        assert_eq!(relay.receive(packet, DecodePolicy::DropAndContinue).unwrap(), true);
    }
    relay.forward_until_empty();
    let delivered = relay.delivered();
    assert_eq!(delivered.len(), 3);
    assert_eq!(delivered[0].as_bytes().as_slice(), b"A");
    assert_eq!(delivered[1].as_bytes().as_slice(), b"B");
    assert_eq!(delivered[2].as_bytes().as_slice(), b"C");
    assert_eq!(relay.queue_len(), 0);
}

#[test]
fn unreachable_sink_fails_before_anything_starts() {
    let r = Relay::start(false);
    assert_eq!(r.err().unwrap(), PipelineError::Connection);
}

#[test]
fn fatal_decode_policy_fails_the_pipeline() {
    let mut relay = Relay::start(true).unwrap();
    let r = relay.receive(&[0xff], DecodePolicy::Fatal);
    assert_eq!(r.unwrap_err(), PipelineError::Decode);
    assert_eq!(relay.state(), WorkerState::Failed);
}

#[test]
fn dropped_bad_packet_does_not_affect_later_packets() {
    let mut relay = Relay::start(true).unwrap();
    assert_eq!(relay.receive(b"good one", DecodePolicy::DropAndContinue).unwrap(), true);
    assert_eq!(relay.receive(&[0xc0, 0x80], DecodePolicy::DropAndContinue).unwrap(), false);
    assert_eq!(relay.receive(b"good two", DecodePolicy::DropAndContinue).unwrap(), true);
    relay.forward_until_empty();
    let delivered = relay.delivered();
    assert_eq!(delivered.len(), 2);
    assert_eq!(delivered[0].as_bytes().as_slice(), b"good one");
    assert_eq!(delivered[1].as_bytes().as_slice(), b"good two");
}

#[test]
fn retryable_push_failure_keeps_the_message_and_delivers_it_once() {
    let mut relay = Relay::start(true).unwrap();
    assert_eq!(relay.receive(b"A", DecodePolicy::DropAndContinue).unwrap(), true);
    assert_eq!(relay.receive(b"B", DecodePolicy::DropAndContinue).unwrap(), true);

    // the first message goes through
    relay.begin_push();
    relay.finish_push(PushOutcome::Delivered).unwrap();

    // the connection dies while the second is in flight; the worker keeps
    // the message through every failed attempt
    relay.begin_push();
    assert_eq!(relay.pending_payload().unwrap().as_slice(), b"B");
    relay.finish_push(PushOutcome::FailedRetryable).unwrap();
    assert_eq!(relay.state(), WorkerState::Forwarding);
    assert_eq!(relay.pending_payload().unwrap().as_slice(), b"B");
    relay.finish_push(PushOutcome::FailedRetryable).unwrap();
    assert_eq!(relay.pending_payload().unwrap().as_slice(), b"B");

    // the connection comes back and the retry lands: delivered once, and
    // the first message was not delivered again
    relay.finish_push(PushOutcome::Delivered).unwrap();
    let delivered = relay.delivered();
    assert_eq!(delivered.len(), 2);
    assert_eq!(delivered[0].as_bytes().as_slice(), b"A");
    assert_eq!(delivered[1].as_bytes().as_slice(), b"B");
}

#[test]
fn fatal_push_failure_fails_the_worker() {
    let mut relay = Relay::start(true).unwrap();
    assert_eq!(relay.receive(b"A", DecodePolicy::DropAndContinue).unwrap(), true);
    relay.begin_push();
    let r = relay.finish_push(PushOutcome::FailedFatal);
    assert_eq!(r.unwrap_err(), PipelineError::Sink { retryable: false });
    assert_eq!(relay.state(), WorkerState::Failed);
    // the undelivered message was not silently counted as delivered
    assert_eq!(relay.delivered().len(), 0);
}

#[test]
fn oversized_packet_is_relayed_truncated() {
    let mut relay = Relay::start(true).unwrap();
    let packet = vec![b'x'; 5000];
    assert_eq!(relay.receive(&packet, DecodePolicy::DropAndContinue).unwrap(), true);
    relay.forward_until_empty();
    let delivered = relay.delivered();
    assert_eq!(delivered.len(), 1);
    assert_eq!(delivered[0].len(), feed_relay::decode::MAX_DATAGRAM_BYTES);
}
