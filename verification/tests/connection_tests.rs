use kvcore::client::{build_key_payload, build_set_payload, kvc_delete, kvc_get, kvc_set};
use kvcore::codec::{KVKey, KVMsg, KVMsgType};
use kvcore::connection::KVConnection;
use kvcore::worker::serve_one;
use kvcore::KVError;

use nix::fcntl::{fcntl, FcntlArg};
use nix::sys::socket::{socketpair, AddressFamily, SockFlag, SockType};

/// A connected pair of stream sockets as raw descriptors.  The duplicates
/// outlive the originals, which close when this function returns.
fn conn_pair() -> (KVConnection, KVConnection) {
    let (a, b) = socketpair(AddressFamily::Unix, SockType::Stream, None, SockFlag::empty())
        .expect("socketpair failed");
    let fa = fcntl(&a, FcntlArg::F_DUPFD(3)).expect("dup failed");
    let fb = fcntl(&b, FcntlArg::F_DUPFD(3)).expect("dup failed");
    (KVConnection { fd: fa, mtu: 1024 }, KVConnection { fd: fb, mtu: 1024 })
}

#[test]
fn send_and_receive_one_message() {
    let (mut client, mut server) = conn_pair();
    let msg = KVMsg {
        msgtype: KVMsgType::SetOp,
        sendtime_secs: 123,
        sendtime_nanos: 456,
        msg: vec![1, 2, 3, 4, 5],
    };
    client.send_kvmsg(msg).unwrap();
    let got = server.recv_kvmsg().unwrap();
    assert_eq!(got.msgtype, KVMsgType::SetOp);
    assert_eq!(got.sendtime_secs, 123);
    assert_eq!(got.sendtime_nanos, 456);
    assert_eq!(got.msg, vec![1, 2, 3, 4, 5]);
}

#[test]
fn server_serves_one_get_request() {
    let (mut client, mut server) = conn_pair();
    let key = KVKey::new("test").unwrap();
    let request = KVMsg::new(KVMsgType::Get, build_key_payload(&key));
    client.send_kvmsg(request).unwrap();

    serve_one(&mut server).unwrap();

    let reply = client.recv_kvmsg().unwrap();
    assert_eq!(reply.msgtype, KVMsgType::GetReturn);
    assert_eq!(reply.msg, b"good get!".to_vec());
}

#[test]
fn server_sees_the_request_the_client_built() {
    let (mut client, mut server) = conn_pair();
    let key = KVKey::new("test").unwrap();

    // seed the reply so the synchronous client exchange can complete
    let seeded = KVMsg::new(KVMsgType::GetReturn, b"good get!".to_vec());
    server.send_kvmsg(seeded).unwrap();

    let got = kvc_get(&mut client, &key).unwrap();
    assert_eq!(got, b"good get!".to_vec());

    let request = server.recv_kvmsg().unwrap();
    assert_eq!(request.msgtype, KVMsgType::Get);
    assert_eq!(request.msg, key.to_bytes());
}

#[test]
fn set_exchange_carries_key_and_value() {
    let (mut client, mut server) = conn_pair();
    let key = KVKey::new("k").unwrap();
    let value = vec![42u8, 43, 44];

    let seeded = KVMsg::new(KVMsgType::SetReturn, b"good set!".to_vec());
    server.send_kvmsg(seeded).unwrap();

    let got = kvc_set(&mut client, &key, &value).unwrap();
    assert_eq!(got, b"good set!".to_vec());

    let request = server.recv_kvmsg().unwrap();
    assert_eq!(request.msgtype, KVMsgType::SetOp);
    let mut expected = key.to_bytes();
    expected.extend_from_slice(&value);
    assert_eq!(request.msg, expected);
    assert_eq!(request.msg, build_set_payload(&key, &value));
}

#[test]
fn delete_exchange_carries_the_key() {
    let (mut client, mut server) = conn_pair();
    let key = KVKey::new("gone").unwrap();

    let seeded = KVMsg::new(KVMsgType::DeleteReturn, b"good del!".to_vec());
    server.send_kvmsg(seeded).unwrap();

    let got = kvc_delete(&mut client, &key).unwrap();
    assert_eq!(got, b"good del!".to_vec());

    let request = server.recv_kvmsg().unwrap();
    assert_eq!(request.msgtype, KVMsgType::Delete);
    assert_eq!(request.msg, key.to_bytes());
}

#[test]
fn peer_closing_mid_frame_surfaces_cleanly() {
    let (a, b) = socketpair(AddressFamily::Unix, SockType::Stream, None, SockFlag::empty())
        .expect("socketpair failed");
    let fa = fcntl(&a, FcntlArg::F_DUPFD(3)).expect("dup failed");
    let mut server = KVConnection { fd: fa, mtu: 1024 };
    drop(a);

    // the peer sends only the length prefix of a 100-byte frame, then closes
    let prefix = 100u64.to_le_bytes();
    nix::unistd::write(&b, &prefix).expect("write failed");
    drop(b);

    let err = server.recv_kvmsg().unwrap_err();
    assert!(
        matches!(err, KVError::PeerClosed | KVError::TransportError(_)),
        "got {:?}",
        err
    );
}

#[test]
fn peer_closing_before_any_frame_is_a_clean_disconnect() {
    let (a, b) = socketpair(AddressFamily::Unix, SockType::Stream, None, SockFlag::empty())
        .expect("socketpair failed");
    let fa = fcntl(&a, FcntlArg::F_DUPFD(3)).expect("dup failed");
    let mut server = KVConnection { fd: fa, mtu: 1024 };
    drop(a);
    drop(b);

    assert_eq!(server.recv_kvmsg().unwrap_err(), KVError::PeerClosed);
}

#[test]
fn malformed_frame_is_dropped_and_the_session_goes_on() {
    let (a, b) = socketpair(AddressFamily::Unix, SockType::Stream, None, SockFlag::empty())
        .expect("socketpair failed");
    let fa = fcntl(&a, FcntlArg::F_DUPFD(3)).expect("dup failed");
    let mut server = KVConnection { fd: fa, mtu: 1024 };
    drop(a);

    // a frame whose body carries an unknown kind tag
    let mut body = vec![0u8; 24];
    body[0..4].copy_from_slice(&9u32.to_le_bytes());
    let mut wire = (24u64).to_le_bytes().to_vec();
    wire.extend_from_slice(&body);
    nix::unistd::write(&b, &wire).expect("write failed");

    // the malformed message is dropped without ending the connection
    serve_one(&mut server).unwrap();

    // a clean disconnect afterwards ends it
    drop(b);
    assert_eq!(serve_one(&mut server).unwrap_err(), KVError::PeerClosed);
}

#[test]
fn bad_descriptor_is_a_transport_error() {
    let mut conn = KVConnection { fd: -1, mtu: 1024 };
    let msg = KVMsg::new(KVMsgType::Get, vec![]);
    assert!(matches!(
        conn.send_kvmsg(msg).unwrap_err(),
        KVError::TransportError(_)
    ));
    assert!(matches!(
        conn.recv_kvmsg().unwrap_err(),
        KVError::TransportError(_)
    ));
}

#[test]
fn one_connection_serves_requests_in_strict_order() {
    let (mut client, mut server) = conn_pair();
    let key = KVKey::new("seq").unwrap();

    let kinds = [
        (KVMsgType::Get, KVMsgType::GetReturn, b"good get!".to_vec()),
        (KVMsgType::SetOp, KVMsgType::SetReturn, b"good set!".to_vec()),
        (KVMsgType::Delete, KVMsgType::DeleteReturn, b"good del!".to_vec()),
    ];
    for (req_kind, reply_kind, body) in kinds {
        let request = KVMsg::new(req_kind, build_key_payload(&key));
        client.send_kvmsg(request).unwrap();
        serve_one(&mut server).unwrap();
        let reply = client.recv_kvmsg().unwrap();
        assert_eq!(reply.msgtype, reply_kind);
        assert_eq!(reply.msg, body);
    }
}

#[test]
fn a_reply_kind_from_the_peer_is_dropped_without_answer() {
    let (mut client, mut server) = conn_pair();
    let unexpected = KVMsg::new(KVMsgType::GetReturn, vec![1, 2, 3]);
    client.send_kvmsg(unexpected).unwrap();

    // served without a reply: the next serve cycle sees the disconnect,
    // not a stray frame
    serve_one(&mut server).unwrap();
    nix::unistd::close(client.fd).unwrap();
    assert_eq!(serve_one(&mut server).unwrap_err(), KVError::PeerClosed);
}
