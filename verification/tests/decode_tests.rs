use feed_relay::decode::decode_datagram;
use feed_relay::decode::is_valid_utf8;
use feed_relay::decode::truncate_to_buffer;
use feed_relay::decode::MAX_DATAGRAM_BYTES;
use feed_relay::errors::PipelineError;

#[test]
fn ascii_packet_decodes() {
    let m = decode_datagram(b"hello").unwrap();
    assert_eq!(m.as_bytes().as_slice(), b"hello");
    assert_eq!(m.len(), 5);
}

#[test]
fn empty_packet_decodes_to_empty_message() {
    let m = decode_datagram(b"").unwrap();
    assert_eq!(m.len(), 0);
}

#[test]
fn multibyte_utf8_decodes() {
    // two-byte, three-byte and four-byte scalars
    let packet = "h\u{e9}llo \u{20ac} \u{1f600}".as_bytes();
    let m = decode_datagram(packet).unwrap();
    assert_eq!(m.as_bytes().as_slice(), packet);
}

#[test]
fn invalid_byte_is_rejected() {
    assert_eq!(decode_datagram(&[0xff]).unwrap_err(), PipelineError::Decode);
}

#[test]
fn cut_off_sequence_is_rejected() {
    // a two-byte leading byte with no continuation
    assert_eq!(decode_datagram(&[0xc3]).unwrap_err(), PipelineError::Decode);
}

#[test]
fn overlong_encoding_is_rejected() {
    assert_eq!(decode_datagram(&[0xc0, 0x80]).unwrap_err(), PipelineError::Decode);
}

#[test]
fn surrogate_encoding_is_rejected() {
    assert_eq!(decode_datagram(&[0xed, 0xa0, 0x80]).unwrap_err(), PipelineError::Decode);
}

#[test]
fn out_of_range_scalar_is_rejected() {
    assert_eq!(decode_datagram(&[0xf4, 0x90, 0x80, 0x80]).unwrap_err(), PipelineError::Decode);
}

#[test]
fn validator_agrees_with_std() {
    let cases: Vec<Vec<u8>> = vec![
        b"".to_vec(),
        b"plain ascii".to_vec(),
        "h\u{e9}llo \u{20ac} \u{1f600}".as_bytes().to_vec(),
        vec![0xff],
        vec![0xc3],
        vec![0xc3, 0xa9],
        vec![0xc0, 0x80],
        vec![0xe2, 0x82],
        vec![0xe2, 0x82, 0xac],
        vec![0xed, 0xa0, 0x80],
        vec![0xf0, 0x9f, 0x98, 0x80],
        vec![0xf4, 0x90, 0x80, 0x80],
        vec![0xf8, 0x80, 0x80, 0x80],
        vec![0x80],
        vec![0x41, 0xc3, 0xa9, 0xf0, 0x9f, 0x98, 0x80, 0x7f],
    ];
    for c in cases {
        assert_eq!(
            is_valid_utf8(&c),
            std::str::from_utf8(&c).is_ok(),
            "disagreement on {:?}",
            c
        );
    }
}

#[test]
fn short_packet_is_kept_whole() {
    let kept = truncate_to_buffer(b"abc");
    assert_eq!(kept.as_slice(), b"abc");
}

#[test]
fn oversized_packet_is_truncated_to_buffer_size() {
    let packet = vec![b'a'; MAX_DATAGRAM_BYTES + 1000];
    let kept = truncate_to_buffer(&packet);
    assert_eq!(kept.len(), MAX_DATAGRAM_BYTES);
    assert!(kept.iter().all(|&b| b == b'a'));
    let m = decode_datagram(&packet).unwrap();
    assert_eq!(m.len(), MAX_DATAGRAM_BYTES);
}

#[test]
fn truncation_can_cut_a_scalar_and_then_rejects() {
    // the three-byte euro sign straddles the buffer boundary: the kept
    // bytes end in a bare leading byte, so the packet no longer decodes
    let mut packet = vec![b'a'; MAX_DATAGRAM_BYTES - 1];
    packet.extend_from_slice("\u{20ac}".as_bytes());
    assert!(packet.len() > MAX_DATAGRAM_BYTES);
    assert_eq!(decode_datagram(&packet).unwrap_err(), PipelineError::Decode);
}
