//! The message type: the decoded payload of exactly one received datagram.

use vstd::prelude::*;
use vstd::utf8::valid_utf8;

verus! {

/// An immutable payload originating from exactly one received packet.
///
/// A `Message` is the decoded bytes of one datagram — never a merge or a
/// split across packets — and is well formed only when those bytes are a
/// valid UTF-8 encoding. Its view is the byte sequence it carries.
#[derive(Debug)]
pub struct Message {
    bytes: Vec<u8>,
}

impl View for Message {
    type V = Seq<u8>;

    closed spec fn view(&self) -> Seq<u8> {
        self.bytes@
    }
}

impl Message {
    /// The invariant every `Message` carries: its bytes are valid UTF-8.
    pub open spec fn wf(&self) -> bool {
        valid_utf8(self@)
    }

    /// Wraps already-validated bytes as a message.
    pub fn new(bytes: Vec<u8>) -> (m: Message)
        requires
            valid_utf8(bytes@),
        ensures
            m@ == bytes@,
            m.wf(),
    {
        Message { bytes }
    }

    /// The payload bytes.
    pub fn as_bytes(&self) -> (r: &Vec<u8>)
        ensures
            r@ == self@,
    {
        &self.bytes
    }

    /// Consumes the message and hands its payload back.
    pub fn into_bytes(self) -> (r: Vec<u8>)
        ensures
            r@ == self@,
    {
        self.bytes
    }

    /// The payload length in bytes.
    pub fn len(&self) -> (n: usize)
        ensures
            n == self@.len(),
    {
        self.bytes.len()
    }
}

} // verus!
