//! Per-request work of a worker thread: receive, dispatch, reply.
//!
//! A worker pulls one connection at a time from the hand-off buffer and
//! serves it to completion.  The unbounded session loop — serve requests
//! until the peer disconnects — is driven by the surrounding program,
//! which cannot be bounded here; each full receive/dispatch/reply cycle
//! is [`serve_one`].  The storage backend is an external collaborator;
//! its stub interface acknowledges each request kind with a fixed body.

use vstd::prelude::*;

use crate::codec::{KVMsg, KVMsgType};
use crate::connection::KVConnection;
use crate::KVError;

verus! {

/// Get a value from the log of the backend collaborator.
pub fn log_get() {
}

/// Set a key-value pair in the log of the backend collaborator.
pub fn log_set() {
}

/// Delete a key-value pair from the log of the backend collaborator.
pub fn log_del() {
}

/// The reply kind owed to a request kind; reply kinds themselves are
/// answered with nothing.
pub open spec fn spec_reply_kind(k: KVMsgType) -> Option<KVMsgType> {
    match k {
        KVMsgType::Get => Some(KVMsgType::GetReturn),
        KVMsgType::SetOp => Some(KVMsgType::SetReturn),
        KVMsgType::Delete => Some(KVMsgType::DeleteReturn),
        _ => None,
    }
}

/// Executable counterpart of [`spec_reply_kind`].
pub fn reply_kind_for(k: KVMsgType) -> (r: Option<KVMsgType>)
    ensures
        r == spec_reply_kind(k),
{
    match k {
        KVMsgType::Get => Some(KVMsgType::GetReturn),
        KVMsgType::SetOp => Some(KVMsgType::SetReturn),
        KVMsgType::Delete => Some(KVMsgType::DeleteReturn),
        _ => None,
    }
}

/// The acknowledgement body of the backend stub for a request kind, as
/// ASCII bytes: "good get!", "good set!" or "good del!".
pub open spec fn spec_ack_body(k: KVMsgType) -> Seq<u8> {
    match k {
        KVMsgType::Get => seq![103u8, 111u8, 111u8, 100u8, 32u8, 103u8, 101u8, 116u8, 33u8],
        KVMsgType::SetOp => seq![103u8, 111u8, 111u8, 100u8, 32u8, 115u8, 101u8, 116u8, 33u8],
        KVMsgType::Delete => seq![103u8, 111u8, 111u8, 100u8, 32u8, 100u8, 101u8, 108u8, 33u8],
        _ => Seq::empty(),
    }
}

/// Executable counterpart of [`spec_ack_body`].
pub fn ack_body_for(k: KVMsgType) -> (r: Vec<u8>)
    ensures
        r@ == spec_ack_body(k),
{
    let mut body: Vec<u8> = Vec::new();
    match k {
        KVMsgType::Get => {
            body.push(103u8);
            body.push(111u8);
            body.push(111u8);
            body.push(100u8);
            body.push(32u8);
            body.push(103u8);
            body.push(101u8);
            body.push(116u8);
            body.push(33u8);
        },
        KVMsgType::SetOp => {
            body.push(103u8);
            body.push(111u8);
            body.push(111u8);
            body.push(100u8);
            body.push(32u8);
            body.push(115u8);
            body.push(101u8);
            body.push(116u8);
            body.push(33u8);
        },
        KVMsgType::Delete => {
            body.push(103u8);
            body.push(111u8);
            body.push(111u8);
            body.push(100u8);
            body.push(32u8);
            body.push(100u8);
            body.push(101u8);
            body.push(108u8);
            body.push(33u8);
        },
        _ => {},
    }
    proof {
        assert(body@ =~= spec_ack_body(k));
    }
    body
}

/// Builds the reply owed to a request: the matching reply kind carrying
/// the backend stub's acknowledgement, stamped with the current time; a
/// message that is no request is owed nothing.
pub fn build_reply(req: &KVMsg) -> (r: Option<KVMsg>)
    ensures
        match r {
            Some(rep) => spec_reply_kind(req.msgtype) == Some(rep.msgtype) && rep.msg@
                == spec_ack_body(req.msgtype),
            None => spec_reply_kind(req.msgtype) is None,
        },
{
    match reply_kind_for(req.msgtype) {
        Some(k) => Some(KVMsg::new(k, ack_body_for(req.msgtype))),
        None => None,
    }
}

/// Dispatches one received message: a request kind is answered with its
/// reply on the same connection; any other kind is dropped without a
/// reply.  A send failure ends the connection, never the worker.
pub fn handle_request(conn: &mut KVConnection, req: &KVMsg) -> (r: Result<(), KVError>)
    ensures
        *final(conn) == *old(conn),
        r matches Err(e) ==> e is TransportError,
        spec_reply_kind(req.msgtype) is None ==> (r matches Ok(u)),
{
    match build_reply(req) {
        Some(reply) => conn.send_kvmsg(reply),
        None => Ok(()),
    }
}

/// One full cycle of a worker's inner loop: receive one message and
/// dispatch it.  A malformed frame drops that message silently and the
/// cycle counts as served; a disconnect or transport failure is passed
/// up and ends the connection.
pub fn serve_one(conn: &mut KVConnection) -> (r: Result<(), KVError>)
    ensures
        *final(conn) == *old(conn),
        r matches Err(e) ==> (e is PeerClosed || e is TransportError),
{
    let req: KVMsg = match conn.recv_kvmsg() {
        Ok(m) => m,
        Err(KVError::MalformedFrame) => {
            return Ok(());
        },
        Err(KVError::PeerClosed) => {
            return Err(KVError::PeerClosed);
        },
        Err(KVError::TransportError(code)) => {
            return Err(KVError::TransportError(code));
        },
        Err(KVError::MalformedKey) => {
            proof {
                assert(false);
            }
            return Ok(());
        },
    };
    handle_request(conn, &req)
}

} // verus!
