//! Client side of the protocol: forming requests and exchanging them.
//!
//! Each operation sends one request frame and waits for exactly one reply
//! frame on the same connection; the protocol is synchronous per
//! connection.  The surrounding program opens the socket and hands its
//! descriptor over as a [`KVConnection`].

use vstd::prelude::*;

use crate::codec::{spec_encode_key, KVKey, KVMsg, KVMsgType};
use crate::connection::KVConnection;
use crate::KVError;

verus! {

/// The payload of a GET or DELETE request: the encoded key.
pub fn build_key_payload(key: &KVKey) -> (r: Vec<u8>)
    requires
        key.wf(),
    ensures
        r@ == spec_encode_key(key@),
{
    key.to_bytes()
}

/// The payload of a SET request: the encoded key followed by the raw
/// value bytes.
pub fn build_set_payload(key: &KVKey, value: &Vec<u8>) -> (r: Vec<u8>)
    requires
        key.wf(),
    ensures
        r@ == spec_encode_key(key@) + value@,
{
    let mut bytes: Vec<u8> = key.to_bytes();
    let mut tail: Vec<u8> = vstd::slice::slice_to_vec(value.as_slice());
    bytes.append(&mut tail);
    bytes
}

/// Sends one request of the given kind and payload and returns the
/// payload of the single reply frame.
fn exchange(connection: &mut KVConnection, kind: KVMsgType, payload: Vec<u8>) -> (r: Result<
    Vec<u8>,
    KVError,
>)
    ensures
        *final(connection) == *old(connection),
        r matches Err(e) ==> (e is PeerClosed || e is TransportError || e is MalformedFrame),
{
    let msg = KVMsg::new(kind, payload);
    match connection.send_kvmsg(msg) {
        Ok(u) => {},
        Err(e) => {
            return Err(e);
        },
    }
    match connection.recv_kvmsg() {
        Ok(reply) => Ok(reply.msg),
        Err(e) => Err(e),
    }
}

/// One GET exchange: sends a GET request carrying the encoded key and
/// returns the reply's payload.
pub fn kvc_get(connection: &mut KVConnection, key: &KVKey) -> (r: Result<Vec<u8>, KVError>)
    requires
        key.wf(),
    ensures
        *final(connection) == *old(connection),
        r matches Err(e) ==> (e is PeerClosed || e is TransportError || e is MalformedFrame),
{
    exchange(connection, KVMsgType::Get, build_key_payload(key))
}

/// One SET exchange: sends a SET request carrying the encoded key and the
/// value bytes and returns the reply's payload.
pub fn kvc_set(connection: &mut KVConnection, key: &KVKey, value: &Vec<u8>) -> (r: Result<
    Vec<u8>,
    KVError,
>)
    requires
        key.wf(),
    ensures
        *final(connection) == *old(connection),
        r matches Err(e) ==> (e is PeerClosed || e is TransportError || e is MalformedFrame),
{
    exchange(connection, KVMsgType::SetOp, build_set_payload(key, value))
}

/// One DELETE exchange: sends a DELETE request carrying the encoded key
/// and returns the reply's payload.
pub fn kvc_delete(connection: &mut KVConnection, key: &KVKey) -> (r: Result<Vec<u8>, KVError>)
    requires
        key.wf(),
    ensures
        *final(connection) == *old(connection),
        r matches Err(e) ==> (e is PeerClosed || e is TransportError || e is MalformedFrame),
{
    exchange(connection, KVMsgType::Delete, build_key_payload(key))
}

} // verus!
