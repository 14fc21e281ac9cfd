use kvcore::codec::{KVMsg, KVMsgType};
use kvcore::events::{
    interest_of_tag, interest_tag, next_loop_step, signal_requests_shutdown, wait_should_retry,
    LoopAction, LoopState, PollInterests,
};
use kvcore::worker::{ack_body_for, build_reply, log_del, log_get, log_set, reply_kind_for};

#[test]
fn request_kinds_map_to_their_reply_kinds() {
    assert_eq!(reply_kind_for(KVMsgType::Get), Some(KVMsgType::GetReturn));
    assert_eq!(reply_kind_for(KVMsgType::SetOp), Some(KVMsgType::SetReturn));
    assert_eq!(reply_kind_for(KVMsgType::Delete), Some(KVMsgType::DeleteReturn));
    assert_eq!(reply_kind_for(KVMsgType::GetReturn), None);
    assert_eq!(reply_kind_for(KVMsgType::SetReturn), None);
    assert_eq!(reply_kind_for(KVMsgType::DeleteReturn), None);
}

#[test]
fn ack_bodies_of_the_backend_stub() {
    assert_eq!(ack_body_for(KVMsgType::Get), b"good get!".to_vec());
    assert_eq!(ack_body_for(KVMsgType::SetOp), b"good set!".to_vec());
    assert_eq!(ack_body_for(KVMsgType::Delete), b"good del!".to_vec());
    assert_eq!(ack_body_for(KVMsgType::GetReturn), Vec::<u8>::new());
}

#[test]
fn build_reply_answers_requests_only() {
    let req = KVMsg::new(KVMsgType::Get, vec![1, 2, 3]);
    let reply = build_reply(&req).unwrap();
    assert_eq!(reply.msgtype, KVMsgType::GetReturn);
    assert_eq!(reply.msg, b"good get!".to_vec());

    let not_a_request = KVMsg::new(KVMsgType::SetReturn, vec![]);
    assert!(build_reply(&not_a_request).is_none());
}

#[test]
fn backend_stub_interface_is_callable() {
    log_get();
    log_set();
    log_del();
}

#[test]
fn interest_tags_round_trip() {
    let interests = [
        PollInterests::ListeningSocket,
        PollInterests::TerminalInput,
        PollInterests::SIGINT,
    ];
    for (tag, interest) in interests.iter().enumerate() {
        assert_eq!(interest_tag(*interest), tag as u64);
        assert_eq!(interest_of_tag(tag as u64), Some(*interest));
    }
    assert_eq!(interest_of_tag(3), None);
    assert_eq!(interest_of_tag(u64::MAX), None);
}

#[test]
fn listening_readiness_accepts_and_keeps_polling() {
    let (state, action) = next_loop_step(LoopState::Polling, 0);
    assert_eq!(state, LoopState::Polling);
    assert_eq!(action, LoopAction::AcceptClient);
}

#[test]
fn shutdown_readiness_leaves_the_wait() {
    let (state, action) = next_loop_step(LoopState::Polling, 2);
    assert_eq!(state, LoopState::ShuttingDown);
    assert_eq!(action, LoopAction::Shutdown);
}

#[test]
fn unknown_readiness_is_ignored() {
    let (state, action) = next_loop_step(LoopState::Polling, 99);
    assert_eq!(state, LoopState::Polling);
    assert_eq!(action, LoopAction::Ignore);
    let (state, action) = next_loop_step(LoopState::Polling, 1);
    assert_eq!(state, LoopState::Polling);
    assert_eq!(action, LoopAction::Ignore);
}

#[test]
fn only_an_interrupted_wait_is_retried() {
    assert!(wait_should_retry(4));
    assert!(!wait_should_retry(9));
    assert!(!wait_should_retry(0));
}

#[test]
fn only_the_terminal_interrupt_requests_shutdown() {
    assert!(signal_requests_shutdown(2));
    assert!(!signal_requests_shutdown(15));
    assert!(!signal_requests_shutdown(9));
}
