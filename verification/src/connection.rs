//! One connection over a stream socket: framed send and receive.
//!
//! A frame on the wire is an 8-byte little-endian length prefix followed
//! by that many bytes of encoded message.  Sending loops until every byte
//! was accepted; receiving loops until every byte arrived.  A zero-byte
//! read is a clean disconnect and is reported as `PeerClosed`, distinct
//! from any other transport failure.

use vstd::bytes::*;
use vstd::prelude::*;

use crate::codec::{spec_decode_msg, spec_encode_msg, KVMsg};
use crate::KVError;

verus! {

/// Size of the frame length prefix on the wire.
pub const FRAME_PREFIX_LEN: usize = 8;

/// One endpoint of a stream connection: the raw descriptor of the socket
/// and a maximum-transmission-unit hint.
///
/// A connection has exactly one owner at any instant; it is moved, never
/// shared, so no locking guards the descriptor.  The surrounding program
/// opens the descriptor and releases it when the connection is done.
pub struct KVConnection {
    pub fd: i32,
    pub mtu: usize,
}

/// Relies on nix::sys::socket::send: hands the transport the bytes of
/// `buf` from position `from` on and returns how many it accepted, at
/// most as many as were handed over; on failure returns the raw OS error.
#[verifier::external_body]
fn sock_send(fd: i32, buf: &Vec<u8>, from: usize) -> (r: Result<usize, i32>)
    requires
        from < buf@.len(),
    ensures
        r matches Ok(n) ==> n <= buf@.len() - from,
{
    match nix::sys::socket::send(fd, &buf[from..], nix::sys::socket::MsgFlags::empty()) {
        Ok(n) => Ok(n),
        Err(e) => Err(e as i32),
    }
}

/// Relies on nix::sys::socket::recv: fills `buf` from position `from` on
/// with bytes from the transport and returns how many arrived, at most as
/// many as fit; zero only at end of stream.  On failure returns the raw
/// OS error.  The buffer keeps its length.
#[verifier::external_body]
fn sock_recv(fd: i32, buf: &mut Vec<u8>, from: usize) -> (r: Result<usize, i32>)
    requires
        from < old(buf)@.len(),
    ensures
        final(buf)@.len() == old(buf)@.len(),
        r matches Ok(n) ==> n <= final(buf)@.len() - from,
{
    match nix::sys::socket::recv(fd, &mut buf[from..], nix::sys::socket::MsgFlags::empty()) {
        Ok(n) => Ok(n),
        Err(e) => Err(e as i32),
    }
}

/// Sends every byte of `buf`, retrying partial writes until the transport
/// has accepted the whole buffer.  A write that accepts zero bytes, or
/// any write error, aborts with `TransportError`; a zero-byte write is
/// reported with code 0.
fn send_all(fd: i32, buf: &Vec<u8>) -> (r: Result<(), KVError>)
    ensures
        r matches Err(e) ==> e is TransportError,
{
    let mut sent: usize = 0;
    while sent < buf.len()
        invariant
            sent <= buf@.len(),
        decreases buf@.len() - sent,
    {
        match sock_send(fd, buf, sent) {
            Ok(n) => {
                if n == 0 {
                    return Err(KVError::TransportError(0));
                }
                sent = sent + n;
            },
            Err(e) => {
                return Err(KVError::TransportError(e));
            },
        }
    }
    Ok(())
}

/// Receives exactly `n` bytes, retrying partial reads until the buffer is
/// full.  A zero-byte read is a peer disconnect, reported as
/// `PeerClosed`; any read error is reported as `TransportError`.
fn recv_exact(fd: i32, n: usize) -> (r: Result<Vec<u8>, KVError>)
    ensures
        r matches Ok(b) ==> b@.len() == n,
        r matches Err(e) ==> (e is PeerClosed || e is TransportError),
{
    let mut buf: Vec<u8> = vec![0u8; n];
    let mut got: usize = 0;
    while got < n
        invariant
            got <= n,
            buf@.len() == n,
        decreases n - got,
    {
        match sock_recv(fd, &mut buf, got) {
            Ok(k) => {
                if k == 0 {
                    return Err(KVError::PeerClosed);
                }
                got = got + k;
            },
            Err(e) => {
                return Err(KVError::TransportError(e));
            },
        }
    }
    Ok(buf)
}

impl KVConnection {
    /// Sends one complete message: the little-endian frame length prefix,
    /// looping until all its bytes are accepted, then the encoded
    /// message, looping likewise.  Either the whole call succeeds or it
    /// fails with `TransportError` before completion; bytes may already
    /// have reached the peer's kernel buffer in the failing case, which
    /// is inherent to stream sockets.
    pub fn send_kvmsg(&mut self, msg: KVMsg) -> (r: Result<(), KVError>)
        ensures
            *final(self) == *old(self),
            r matches Err(e) ==> e is TransportError,
    {
        let body: Vec<u8> = msg.to_bytes();
        let prefix: Vec<u8> = u64_to_le_bytes(body.len() as u64);
        match send_all(self.fd, &prefix) {
            Ok(()) => {},
            Err(e) => {
                return Err(e);
            },
        }
        send_all(self.fd, &body)
    }

    /// Receives one complete message: exactly the frame length prefix,
    /// then exactly the declared number of bytes, then decodes them.  A
    /// disconnect at any point surfaces as `PeerClosed`, a read failure
    /// as `TransportError`, and a frame that does not decode as
    /// `MalformedFrame` — never a panic and never a partial message.
    pub fn recv_kvmsg(&mut self) -> (r: Result<KVMsg, KVError>)
        ensures
            *final(self) == *old(self),
            r matches Ok(m) ==> spec_decode_msg(spec_encode_msg(m@)) == Some(m@),
            r matches Err(e) ==> (e is PeerClosed || e is TransportError || e is MalformedFrame),
    {
        let prefix: Vec<u8> = match recv_exact(self.fd, FRAME_PREFIX_LEN) {
            Ok(b) => b,
            Err(e) => {
                return Err(e);
            },
        };
        let frame_len64: u64 = u64_from_le_bytes(prefix.as_slice());
        if frame_len64 > usize::MAX as u64 {
            return Err(KVError::MalformedFrame);
        }
        let frame: Vec<u8> = match recv_exact(self.fd, frame_len64 as usize) {
            Ok(b) => b,
            Err(e) => {
                return Err(e);
            },
        };
        match KVMsg::from_bytes(frame.as_slice()) {
            Ok(m) => {
                proof {
                    crate::codec::lemma_msg_round_trip(m@);
                }
                Ok(m)
            },
            Err(_) => Err(KVError::MalformedFrame),
        }
    }
}

} // verus!
