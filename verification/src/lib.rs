//! A verified model of a datagram relay pipeline: a receiver decodes UDP
//! payloads into messages, an in-process FIFO queue hands them to a
//! forwarding worker, and the worker pushes each message, in order, to a
//! downstream sink.
//!
//! The modules here hold the logic of that pipeline — decoding and
//! truncation, the queue discipline, the error policy, and the worker's
//! state machine — each function with a contract checked by Verus. The
//! surrounding process (socket reads, threads, the concrete sink client)
//! lives outside the library and calls into it with plain values.

pub mod config;
pub mod decode;
pub mod errors;
pub mod msg;
pub mod queue;
pub mod relay;
pub mod worker;
