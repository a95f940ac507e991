//! The receiver's per-packet logic: truncation to the fixed buffer size and
//! UTF-8 validation of the received bytes.

use vstd::prelude::*;
use vstd::utf8::*;
use crate::errors::PipelineError;
use crate::msg::Message;

verus! {

/// The fixed receive buffer size: a datagram's payload is read up to this
/// many bytes, and anything beyond is cut off.
pub const MAX_DATAGRAM_BYTES: usize = 2048;

/// The bytes the receiver keeps from a packet: the whole payload when it
/// fits the buffer, its first `MAX_DATAGRAM_BYTES` bytes otherwise.
pub open spec fn truncated_spec(packet: Seq<u8>) -> Seq<u8> {
    if packet.len() <= MAX_DATAGRAM_BYTES {
        packet
    } else {
        packet.take(MAX_DATAGRAM_BYTES as int)
    }
}

/// Classifies the bytes of `bytes` starting at `i` as the beginning of a
/// well-formed UTF-8 scalar encoding or not: returns the width in bytes of
/// the first scalar's encoding, or 0 when no well-formed encoding starts
/// there.
fn check_first_scalar(bytes: &[u8], i: usize) -> (w: usize)
    requires
        i < bytes@.len(),
    ensures
        w == 0 ==> !valid_first_scalar(bytes@.subrange(i as int, bytes@.len() as int)),
        w != 0 ==> valid_first_scalar(bytes@.subrange(i as int, bytes@.len() as int))
            && w == length_of_first_scalar(bytes@.subrange(i as int, bytes@.len() as int))
            && i + w <= bytes@.len(),
{
    let n = bytes.len();
    let ghost suffix = bytes@.subrange(i as int, bytes@.len() as int);
    proof {
        assert(suffix.len() == n - i);
        assert(suffix[0] == bytes@[i as int]);
    }
    let avail = n - i;
    let b0 = bytes[i];
    if b0 <= 0x7f {
        proof {
            assert(b0 & 0x7f <= 0x7f) by (bit_vector);
            assert(valid_first_scalar(suffix));
        }
        1
    } else if 0xc0 <= b0 && b0 <= 0xdf {
        if avail < 2 {
            proof {
                assert(!valid_first_scalar(suffix));
            }
            0
        } else {
            let b1 = bytes[i + 1];
            proof {
                assert(suffix[1] == bytes@[i + 1]);
            }
            if !(0x80 <= b1 && b1 <= 0xbf) {
                proof {
                    assert(!valid_first_scalar(suffix));
                }
                0
            } else {
                let cp: u32 = (((b0 & 0x1f) as u32) << 6) | ((b1 & 0x3f) as u32);
                proof {
                    assert(cp == decode_first_codepoint(suffix));
                }
                if cp < 0x80 {
                    proof {
                        assert(!valid_first_scalar(suffix));
                    }
                    0
                } else {
                    proof {
                        assert((((b0 & 0x1f) as u32) << 6) | ((b1 & 0x3f) as u32)
                            < 0xd800) by (bit_vector);
                        assert(valid_first_scalar(suffix));
                    }
                    2
                }
            }
        }
    } else if 0xe0 <= b0 && b0 <= 0xef {
        if avail < 3 {
            proof {
                assert(!valid_first_scalar(suffix));
            }
            0
        } else {
            let b1 = bytes[i + 1];
            let b2 = bytes[i + 2];
            proof {
                assert(suffix[1] == bytes@[i + 1]);
                assert(suffix[2] == bytes@[i + 2]);
            }
            if !(0x80 <= b1 && b1 <= 0xbf) || !(0x80 <= b2 && b2 <= 0xbf) {
                proof {
                    assert(!valid_first_scalar(suffix));
                }
                0
            } else {
                let cp: u32 = (((b0 & 0x0f) as u32) << 12) | (((b1 & 0x3f) as u32) << 6)
                    | ((b2 & 0x3f) as u32);
                proof {
                    assert(cp == decode_first_codepoint(suffix));
                }
                if cp < 0x800 || (0xd800 <= cp && cp <= 0xdfff) {
                    proof {
                        assert(!valid_first_scalar(suffix));
                    }
                    0
                } else {
                    proof {
                        assert(valid_first_scalar(suffix));
                    }
                    3
                }
            }
        }
    } else if 0xf0 <= b0 && b0 <= 0xf7 {
        if avail < 4 {
            proof {
                assert(!valid_first_scalar(suffix));
            }
            0
        } else {
            let b1 = bytes[i + 1];
            let b2 = bytes[i + 2];
            let b3 = bytes[i + 3];
            proof {
                assert(suffix[1] == bytes@[i + 1]);
                assert(suffix[2] == bytes@[i + 2]);
                assert(suffix[3] == bytes@[i + 3]);
            }
            if !(0x80 <= b1 && b1 <= 0xbf) || !(0x80 <= b2 && b2 <= 0xbf)
                || !(0x80 <= b3 && b3 <= 0xbf) {
                proof {
                    assert(!valid_first_scalar(suffix));
                }
                0
            } else {
                let cp: u32 = (((b0 & 0x07) as u32) << 18) | (((b1 & 0x3f) as u32) << 12)
                    | (((b2 & 0x3f) as u32) << 6) | ((b3 & 0x3f) as u32);
                proof {
                    assert(cp == decode_first_codepoint(suffix));
                }
                if cp < 0x10000 || cp > 0x10ffff {
                    proof {
                        assert(!valid_first_scalar(suffix));
                    }
                    0
                } else {
                    proof {
                        assert(valid_first_scalar(suffix));
                    }
                    4
                }
            }
        }
    } else {
        proof {
            assert(!valid_first_scalar(suffix));
        }
        0
    }
}

/// Decides whether the given bytes are a valid UTF-8 encoding, scalar by
/// scalar from the front.
pub fn is_valid_utf8(bytes: &[u8]) -> (r: bool)
    ensures
        r == valid_utf8(bytes@),
{
    let n = bytes.len();
    let mut i: usize = 0;
    proof {
        assert(bytes@.subrange(0, 0) =~= Seq::<u8>::empty());
    }
    while i < n
        invariant
            i <= n,
            n == bytes@.len(),
            partial_valid_utf8(bytes@, i as int),
        decreases n - i,
    {
        let w = check_first_scalar(bytes, i);
        if w == 0 {
            proof {
                assert(!valid_utf8(bytes@.subrange(i as int, bytes@.len() as int)));
                partial_valid_partial_invalid_utf8(bytes@, i as int);
            }
            return false;
        }
        proof {
            partial_valid_utf8_extend(bytes@, i as int);
        }
        i = i + w;
    }
    proof {
        assert(bytes@.subrange(0, n as int) =~= bytes@);
    }
    true
}

/// Turns a received packet into the payload the receiver keeps: the packet
/// itself when it fits the buffer, its first `MAX_DATAGRAM_BYTES` bytes
/// otherwise.
pub fn truncate_to_buffer(packet: &[u8]) -> (r: Vec<u8>)
    ensures
        r@ == truncated_spec(packet@),
{
    let n = packet.len();
    let keep = if n <= MAX_DATAGRAM_BYTES {
        n
    } else {
        MAX_DATAGRAM_BYTES
    };
    let mut out: Vec<u8> = Vec::new();
    let mut j: usize = 0;
    while j < keep
        invariant
            j <= keep,
            keep <= packet@.len(),
            keep == truncated_spec(packet@).len(),
            out@ == packet@.subrange(0, j as int),
        decreases keep - j,
    {
        out.push(packet[j]);
        proof {
            assert(out@ =~= packet@.subrange(0, j + 1));
        }
        j = j + 1;
    }
    proof {
        assert(out@ =~= truncated_spec(packet@));
    }
    out
}

/// Decodes one received packet: truncates it to the buffer size and checks
/// that the kept bytes are valid UTF-8. Returns the message exactly when
/// the kept bytes decode; otherwise reports the decode failure.
pub fn decode_datagram(packet: &[u8]) -> (r: Result<Message, PipelineError>)
    ensures
        r is Ok <==> valid_utf8(truncated_spec(packet@)),
        (r matches Ok(m) ==> m@ == truncated_spec(packet@) && m.wf()),
        (r matches Err(e) ==> e == PipelineError::Decode),
{
    let payload = truncate_to_buffer(packet);
    if is_valid_utf8(payload.as_slice()) {
        Ok(Message::new(payload))
    } else {
        Err(PipelineError::Decode)
    }
}

/// What the receiver keeps is decided by the first `MAX_DATAGRAM_BYTES`
/// bytes alone: two packets at least that long that agree on those bytes
/// are truncated to the same payload, whatever follows in either.
pub proof fn lemma_truncation_deterministic(a: Seq<u8>, b: Seq<u8>)
    requires
        a.len() >= MAX_DATAGRAM_BYTES,
        b.len() >= MAX_DATAGRAM_BYTES,
        a.take(MAX_DATAGRAM_BYTES as int) =~= b.take(MAX_DATAGRAM_BYTES as int),
    ensures
        truncated_spec(a) == truncated_spec(b),
        truncated_spec(a).len() == MAX_DATAGRAM_BYTES,
{
    assert(truncated_spec(a) =~= a.take(MAX_DATAGRAM_BYTES as int));
    assert(truncated_spec(b) =~= b.take(MAX_DATAGRAM_BYTES as int));
}

} // verus!
