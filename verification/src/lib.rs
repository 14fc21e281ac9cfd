//! Transport and dispatch core of a single-host key-value service.
//!
//! The library covers the wire codec for framed messages, the framed
//! send/receive discipline over a stream socket, the bounded FIFO ring
//! buffer that hands accepted connections to workers, the per-request
//! dispatch of a worker, and the event-loop decisions for accepting
//! connections and shutting down.  The storage backend is an external
//! collaborator and is represented only by its interface stubs.

use vstd::prelude::*;

pub mod client;
pub mod codec;
pub mod connection;
pub mod events;
pub mod ringbuffer;
pub mod worker;

verus! {

/// Errors of the transport core.
///
/// `MalformedFrame` and `MalformedKey` are decode-time structural
/// violations, fatal to the current message only.  `PeerClosed` reports a
/// clean disconnect seen as a zero-byte read.  `TransportError` carries the
/// raw OS error code of an unexpected I/O failure.
#[derive(Clone, Copy, PartialEq, Eq, Structural, Debug)]
pub enum KVError {
    MalformedFrame,
    MalformedKey,
    PeerClosed,
    TransportError(i32),
}

} // verus!
