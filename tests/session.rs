use autopush::call::{
    Call, CheckStorageResponse, DeleteMessageResponse, DropUserResponse, HelloResponse,
    IncStorageResponse, MigrateUserResponse, RegisterResponse, UnRegisterResponse,
};
use autopush::client::{ClientError, ClientState, Next};
use autopush::event::{Event, Reply, Wants};
use autopush::client::Client;
use autopush::protocol::{ClientAck, ClientMessage, Notification, ServerMessage, ServerNotification};
use autopush::server::{Metric, RegistryOp, Server};

const U: u128 = 0xa1a2a3a4b1b2c1c2d1d2d3d4d5d6d7d8;
const C: u128 = 0x0102030405060708090a0b0c0d0e0f10;
const FIREFOX: &str = "Mozilla/5.0 (X11; Linux x86_64; rv:100.0) Gecko/20100101 Firefox/100.0";

fn notif(ch: u128, version: &str, topic: Option<&str>) -> Notification {
    Notification {
        channel_id: ch,
        version: version.to_string(),
        ttl: 60,
        topic: topic.map(|t| t.to_string()),
        timestamp: 10,
        data: Some("abcd".to_string()),
        headers: Some(vec![("encoding".to_string(), "aes128gcm".to_string())]),
        uaid: None,
    }
}

fn ack(ch: u128, version: &str) -> ClientAck {
    ClientAck { channel_id: ch, version: version.to_string() }
}

fn hello_frame(use_webpush: Option<bool>) -> Event {
    Event::Frame(ClientMessage::Hello { uaid: None, channel_ids: None, use_webpush })
}

fn hello_reply(uaid: Option<u128>, check: bool, reset: bool, rotate: bool) -> Event {
    Event::Reply(Reply::Hello(HelloResponse {
        uaid,
        message_month: "M1".to_string(),
        check_storage: check,
        reset_uaid: reset,
        rotate_message_table: rotate,
        connected_at: 123,
    }))
}

/// Takes the pending frame out of `FinishSend` and completes the send.
fn sent(c: &mut Client) -> ServerMessage {
    let st = std::mem::replace(&mut c.state, ClientState::Done);
    match st {
        ClientState::FinishSend(Some(m), nx) => {
            c.state = ClientState::FinishSend(None, nx);
            c.transition(Event::Flushed);
            m
        }
        other => panic!("no frame pending: {:?}", other),
    }
}

/// Steps while the connection needs no outside input.
fn settle(c: &mut Client) {
    let mut n = 0;
    while c.wants() == Wants::Nothing && n < 100 {
        c.transition(Event::Proceed);
        n += 1;
    }
}

/// A connection whose hello was accepted for `U`, with its greeting sent.
fn accepted(check: bool, reset: bool, rotate: bool) -> Client {
    let mut c = Client::new(Server::new(), FIREFOX.to_string(), "node1".to_string());
    c.transition(hello_frame(Some(true)));
    c.transition(hello_reply(Some(U), check, reset, rotate));
    let m = sent(&mut c);
    assert!(matches!(m, ServerMessage::Hello { .. }));
    c
}

fn calls(c: &Client) -> &Vec<Call> {
    &c.data.srv.calls
}

#[test]
fn clean_hello_direct_push_ack_close() {
    let mut c = Client::new(Server::new(), FIREFOX.to_string(), "node1".to_string());
    assert_eq!(c.wants(), Wants::FrameOrTimer);
    c.transition(hello_frame(Some(true)));
    assert_eq!(c.state, ClientState::WaitingForProcessHello);
    match &calls(&c)[0] {
        Call::Hello { uaid, .. } => assert_eq!(*uaid, None),
        other => panic!("unexpected call {:?}", other),
    }
    c.transition(hello_reply(Some(U), false, false, false));
    assert_eq!(c.data.srv.registry, vec![RegistryOp::Connect(U)]);
    c.transition(Event::Accepted);
    assert!(matches!(c.state, ClientState::FinishSend(None, Next::Await)));
    c.transition(Event::Flushed);
    assert_eq!(c.state, ClientState::Await);
    assert_eq!(c.wants(), Wants::NotifOrFrame);

    c.transition(Event::Notif(ServerNotification::Notification(notif(C, "v1", None))));
    let m = sent(&mut c);
    assert_eq!(m, ServerMessage::Notification(notif(C, "v1", None)));
    assert_eq!(c.state, ClientState::WaitingForAcks);
    assert_eq!(c.wants(), Wants::Frame);

    c.transition(Event::Frame(ClientMessage::Ack { updates: vec![ack(C, "v1")] }));
    assert_eq!(c.state, ClientState::WaitingForAcks);
    c.transition(Event::SocketClosed);
    assert_eq!(c.state, ClientState::ShutdownCleanup(Some(ClientError::Transport)));
    c.transition(Event::Proceed);
    assert_eq!(c.state, ClientState::Done);

    assert_eq!(calls(&c).len(), 1);
    let rec = &c.data.srv.sessions[0];
    assert_eq!(rec.direct_acked, 1);
    assert_eq!(rec.direct_storage, 0);
    assert_eq!(rec.host, "node1");
    assert_eq!(rec.uaid_hash, "a1a2a3a4-b1b2-c1c2-d1d2-d3d4d5d6d7d8");
    assert_eq!(c.data.srv.registry, vec![RegistryOp::Connect(U), RegistryOp::Disconnect(U)]);
    assert!(c.data.srv.metrics.contains(&Metric::CommandAck));
}

#[test]
fn hello_greeting_carries_hyphenated_uaid() {
    let mut c = Client::new(Server::new(), String::new(), "h".to_string());
    c.transition(hello_frame(Some(true)));
    c.transition(hello_reply(Some(U), false, false, false));
    let m = sent(&mut c);
    assert_eq!(
        m,
        ServerMessage::Hello {
            uaid: "a1a2a3a4-b1b2-c1c2-d1d2-d3d4d5d6d7d8".to_string(),
            status: 200,
            use_webpush: Some(true),
        }
    );
}

#[test]
fn hello_with_known_uaid_sends_compact_form() {
    let mut c = Client::new(Server::new(), String::new(), "h".to_string());
    c.transition(Event::Frame(ClientMessage::Hello { uaid: Some(U), channel_ids: None, use_webpush: Some(true) }));
    match &calls(&c)[0] {
        Call::Hello { uaid, .. } => assert_eq!(uaid.as_deref(), Some("a1a2a3a4b1b2c1c2d1d2d3d4d5d6d7d8")),
        other => panic!("unexpected call {:?}", other),
    }
}

#[test]
fn handshake_timeout_ends_without_registration() {
    let mut c = Client::new(Server::new(), String::new(), "h".to_string());
    c.transition(Event::TimerFired);
    assert_eq!(c.state, ClientState::ShutdownCleanup(Some(ClientError::Timeout)));
    c.transition(Event::Proceed);
    assert_eq!(c.state, ClientState::Done);
    assert!(c.data.srv.registry.is_empty());
    assert!(c.data.srv.calls.is_empty());
    assert!(c.data.srv.sessions.is_empty());
}

#[test]
fn hello_without_webpush_is_protocol_error() {
    let mut c = Client::new(Server::new(), String::new(), "h".to_string());
    c.transition(hello_frame(None));
    assert_eq!(c.state, ClientState::ShutdownCleanup(Some(ClientError::Protocol)));
    assert!(c.data.srv.calls.is_empty());
    let mut d = Client::new(Server::new(), String::new(), "h".to_string());
    d.transition(hello_frame(Some(false)));
    assert_eq!(d.state, ClientState::ShutdownCleanup(Some(ClientError::Protocol)));
}

#[test]
fn first_frame_other_than_hello_is_protocol_error() {
    let mut c = Client::new(Server::new(), String::new(), "h".to_string());
    c.transition(Event::Frame(ClientMessage::Register { channel_id: C, key: None }));
    assert_eq!(c.state, ClientState::ShutdownCleanup(Some(ClientError::Protocol)));
    assert!(c.data.srv.calls.is_empty());
}

#[test]
fn hello_reply_without_uaid_is_already_connected() {
    let mut c = Client::new(Server::new(), String::new(), "h".to_string());
    c.transition(hello_frame(Some(true)));
    c.transition(hello_reply(None, false, false, false));
    assert_eq!(c.state, ClientState::ShutdownCleanup(Some(ClientError::AlreadyConnected)));
    assert!(c.data.webpush.is_none());
    c.transition(Event::Proceed);
    assert_eq!(c.state, ClientState::Done);
    assert!(c.data.srv.registry.is_empty());
}

#[test]
fn unknown_ack_is_ignored() {
    let mut c = accepted(false, false, false);
    c.transition(Event::Notif(ServerNotification::Notification(notif(C, "v1", None))));
    sent(&mut c);
    let before = calls(&c).len();
    c.transition(Event::Frame(ClientMessage::Ack { updates: vec![ack(C, "v2"), ack(U, "v1")] }));
    assert_eq!(c.state, ClientState::WaitingForAcks);
    assert_eq!(calls(&c).len(), before);
    let w = c.data.webpush.as_ref().unwrap();
    assert_eq!(w.unacked_direct_notifs, vec![notif(C, "v1", None)]);
    assert_eq!(w.stats.direct_acked, 0);
}

/// Brings a connection to `WaitingForAcks` with `msgs` retrieved from storage.
fn with_stored(msgs: Vec<Notification>, include_topic: bool, ts: Option<i64>) -> Client {
    let mut c = accepted(true, false, false);
    settle(&mut c);
    assert_eq!(c.state, ClientState::WaitingForCheckStorage);
    let n = msgs.len();
    c.transition(Event::Reply(Reply::CheckStorage(CheckStorageResponse { include_topic, messages: msgs, timestamp: ts })));
    for _ in 0..n {
        settle(&mut c);
        sent(&mut c);
    }
    settle(&mut c);
    c
}

#[test]
fn stored_ack_with_topic_issues_one_delete() {
    let mut c = with_stored(vec![notif(C, "v1", Some("t1")), notif(C, "v2", None)], true, Some(100));
    assert_eq!(c.state, ClientState::WaitingForAcks);
    let before = calls(&c).len();
    c.transition(Event::Frame(ClientMessage::Ack { updates: vec![ack(C, "v2")] }));
    assert_eq!(c.state, ClientState::WaitingForAcks);
    assert_eq!(calls(&c).len(), before);
    c.transition(Event::Frame(ClientMessage::Ack { updates: vec![ack(C, "v1")] }));
    assert_eq!(calls(&c).len(), before + 1);
    match calls(&c).last().unwrap() {
        Call::DeleteMessage { message, message_month } => {
            assert_eq!(*message, notif(C, "v1", Some("t1")));
            assert_eq!(message_month, "M1");
        }
        other => panic!("unexpected call {:?}", other),
    }
    assert!(matches!(c.state, ClientState::WaitingForDelete(ref rest) if rest.is_empty()));
    assert_eq!(c.data.webpush.as_ref().unwrap().stats.stored_acked, 2);
}

#[test]
fn several_topic_acks_delete_one_at_a_time() {
    let mut c = with_stored(vec![notif(C, "a", Some("x")), notif(C, "b", Some("y"))], true, Some(5));
    let before = calls(&c).len();
    c.transition(Event::Frame(ClientMessage::Ack { updates: vec![ack(C, "a"), ack(C, "b")] }));
    assert_eq!(calls(&c).len(), before + 1);
    assert_eq!(c.wants(), Wants::Reply);
    c.transition(Event::Reply(Reply::DeleteMessage(DeleteMessageResponse { success: true })));
    assert_eq!(calls(&c).len(), before + 2);
    match calls(&c).last().unwrap() {
        Call::DeleteMessage { message, .. } => assert_eq!(message.version, "b"),
        other => panic!("unexpected call {:?}", other),
    }
    c.transition(Event::Reply(Reply::DeleteMessage(DeleteMessageResponse { success: true })));
    assert_eq!(c.state, ClientState::WaitingForAcks);
}

#[test]
fn stored_non_topic_messages_require_increment() {
    let mut c = accepted(true, false, false);
    settle(&mut c);
    match calls(&c).last().unwrap() {
        Call::CheckStorage { uaid, message_month, include_topic, timestamp } => {
            assert_eq!(uaid, "a1a2a3a4b1b2c1c2d1d2d3d4d5d6d7d8");
            assert_eq!(message_month, "M1");
            assert!(*include_topic);
            assert_eq!(*timestamp, None);
        }
        other => panic!("unexpected call {:?}", other),
    }
    c.transition(Event::Reply(Reply::CheckStorage(CheckStorageResponse {
        include_topic: true,
        messages: vec![notif(C, "n1", Some("t"))],
        timestamp: Some(100),
    })));
    settle(&mut c);
    assert_eq!(sent(&mut c), ServerMessage::Notification(notif(C, "n1", Some("t"))));
    settle(&mut c);
    assert_eq!(c.state, ClientState::WaitingForAcks);
    c.transition(Event::Frame(ClientMessage::Ack { updates: vec![ack(C, "n1")] }));
    assert!(matches!(calls(&c).last().unwrap(), Call::DeleteMessage { .. }));
    c.transition(Event::Reply(Reply::DeleteMessage(DeleteMessageResponse { success: true })));
    assert_eq!(c.state, ClientState::WaitingForAcks);
    c.transition(Event::Proceed);
    assert_eq!(c.state, ClientState::CheckStorage);
    settle(&mut c);
    match calls(&c).last().unwrap() {
        Call::CheckStorage { timestamp, .. } => assert_eq!(*timestamp, Some(100)),
        other => panic!("unexpected call {:?}", other),
    }
    c.transition(Event::Reply(Reply::CheckStorage(CheckStorageResponse {
        include_topic: false,
        messages: vec![notif(C, "n2", None)],
        timestamp: Some(200),
    })));
    settle(&mut c);
    sent(&mut c);
    settle(&mut c);
    let before = calls(&c).len();
    c.transition(Event::Frame(ClientMessage::Ack { updates: vec![ack(C, "n2")] }));
    assert_eq!(calls(&c).len(), before);
    c.transition(Event::Proceed);
    assert_eq!(c.state, ClientState::IncrementStorage);
    c.transition(Event::Proceed);
    match calls(&c).last().unwrap() {
        Call::IncStoragePosition { timestamp, .. } => assert_eq!(*timestamp, 200),
        other => panic!("unexpected call {:?}", other),
    }
    c.transition(Event::Reply(Reply::IncStorage(IncStorageResponse { success: true })));
    assert_eq!(c.state, ClientState::WaitingForAcks);
    assert!(!c.data.webpush.as_ref().unwrap().flags.increment_storage);
    c.transition(Event::Proceed);
    assert_eq!(c.state, ClientState::CheckStorage);
    settle(&mut c);
    c.transition(Event::Reply(Reply::CheckStorage(CheckStorageResponse {
        include_topic: false,
        messages: vec![],
        timestamp: None,
    })));
    assert_eq!(c.state, ClientState::Await);
    assert!(!c.data.webpush.as_ref().unwrap().flags.check);
}

#[test]
fn retrieval_without_timestamp_for_untopiced_messages_is_refused() {
    let mut c = accepted(true, false, false);
    settle(&mut c);
    c.transition(Event::Reply(Reply::CheckStorage(CheckStorageResponse {
        include_topic: false,
        messages: vec![notif(C, "n", None)],
        timestamp: None,
    })));
    assert_eq!(c.state, ClientState::ShutdownCleanup(Some(ClientError::Serialization)));
}

#[test]
fn stored_notifications_are_sent_last_first_with_metrics() {
    let mut c = accepted(true, false, false);
    settle(&mut c);
    c.transition(Event::Reply(Reply::CheckStorage(CheckStorageResponse {
        include_topic: true,
        messages: vec![notif(C, "a", None), notif(C, "b", Some("t"))],
        timestamp: Some(7),
    })));
    let metrics_before = c.data.srv.metrics.len();
    settle(&mut c);
    assert_eq!(sent(&mut c), ServerMessage::Notification(notif(C, "b", Some("t"))));
    assert_eq!(
        &c.data.srv.metrics[metrics_before..],
        &[Metric::NotificationTopic, Metric::MessageData(4)][..]
    );
    settle(&mut c);
    assert_eq!(sent(&mut c), ServerMessage::Notification(notif(C, "a", None)));
    settle(&mut c);
    assert_eq!(c.state, ClientState::WaitingForAcks);
    let w = c.data.webpush.as_ref().unwrap();
    assert_eq!(w.unacked_stored_notifs.len(), 2);
    assert_eq!(w.unacked_stored_highest, Some(7));
}

#[test]
fn register_happy_path() {
    let mut c = accepted(false, false, false);
    c.transition(Event::Frame(ClientMessage::Register { channel_id: C, key: None }));
    assert_eq!(c.state, ClientState::WaitingForRegister(C));
    match calls(&c).last().unwrap() {
        Call::Register { uaid, channel_id, message_month, key } => {
            assert_eq!(uaid, "a1a2a3a4b1b2c1c2d1d2d3d4d5d6d7d8");
            assert_eq!(channel_id, "01020304-0506-0708-090a-0b0c0d0e0f10");
            assert_eq!(message_month, "M1");
            assert_eq!(*key, None);
        }
        other => panic!("unexpected call {:?}", other),
    }
    c.transition(Event::Reply(Reply::Register(RegisterResponse::Success { endpoint: "https://push/x".to_string() })));
    assert_eq!(
        sent(&mut c),
        ServerMessage::Register { channel_id: C, status: 200, push_endpoint: "https://push/x".to_string() }
    );
    assert_eq!(c.data.webpush.as_ref().unwrap().stats.registers, 1);
    assert_eq!(c.state, ClientState::Await);
}

#[test]
fn register_remote_error() {
    let mut c = accepted(false, false, false);
    c.transition(Event::Frame(ClientMessage::Register { channel_id: C, key: None }));
    c.transition(Event::Reply(Reply::Register(RegisterResponse::Error {
        error_msg: "boom".to_string(),
        error: true,
        status: 409,
    })));
    assert_eq!(
        sent(&mut c),
        ServerMessage::Register { channel_id: C, status: 409, push_endpoint: String::new() }
    );
    assert_eq!(c.data.webpush.as_ref().unwrap().stats.registers, 0);
    assert_eq!(c.state, ClientState::Await);
}

#[test]
fn unregister_outcomes() {
    let mut c = accepted(false, false, false);
    c.transition(Event::Frame(ClientMessage::Unregister { channel_id: C, code: None }));
    match calls(&c).last().unwrap() {
        Call::Unregister { code, .. } => assert_eq!(*code, 200),
        other => panic!("unexpected call {:?}", other),
    }
    c.transition(Event::Reply(Reply::Unregister(UnRegisterResponse::Success { success: false })));
    assert_eq!(sent(&mut c), ServerMessage::Unregister { channel_id: C, status: 500 });
    assert_eq!(c.data.webpush.as_ref().unwrap().stats.unregisters, 1);
    c.transition(Event::Frame(ClientMessage::Unregister { channel_id: C, code: Some(301) }));
    match calls(&c).last().unwrap() {
        Call::Unregister { code, .. } => assert_eq!(*code, 301),
        other => panic!("unexpected call {:?}", other),
    }
    c.transition(Event::Reply(Reply::Unregister(UnRegisterResponse::Success { success: true })));
    assert_eq!(sent(&mut c), ServerMessage::Unregister { channel_id: C, status: 200 });
    c.transition(Event::Frame(ClientMessage::Unregister { channel_id: C, code: None }));
    c.transition(Event::Reply(Reply::Failed(autopush::call::CallError::Remote("x".to_string()))));
    assert_eq!(sent(&mut c), ServerMessage::Unregister { channel_id: C, status: 500 });
    assert_eq!(c.data.webpush.as_ref().unwrap().stats.unregisters, 2);
}

#[test]
fn rotate_then_reset() {
    let mut c = accepted(false, true, true);
    assert_eq!(c.state, ClientState::Await);
    c.transition(Event::Frame(ClientMessage::Nack { code: None, version: "v".to_string() }));
    assert_eq!(c.state, ClientState::WaitingForAcks);
    c.transition(Event::Proceed);
    assert_eq!(c.state, ClientState::WaitingForMigrateUser);
    match calls(&c).last().unwrap() {
        Call::MigrateUser { uaid, message_month } => {
            assert_eq!(uaid, "a1a2a3a4b1b2c1c2d1d2d3d4d5d6d7d8");
            assert_eq!(message_month, "M1");
        }
        other => panic!("unexpected call {:?}", other),
    }
    c.transition(Event::Reply(Reply::MigrateUser(MigrateUserResponse { message_month: "M2".to_string() })));
    assert_eq!(c.state, ClientState::Await);
    let w = c.data.webpush.as_ref().unwrap();
    assert_eq!(w.message_month, "M2");
    assert!(!w.flags.rotate_message_table);
    c.transition(Event::Frame(ClientMessage::Nack { code: None, version: "v".to_string() }));
    c.transition(Event::Proceed);
    assert_eq!(c.state, ClientState::WaitingForDropUser);
    assert!(matches!(calls(&c).last().unwrap(), Call::DropUser { .. }));
    c.transition(Event::Reply(Reply::DropUser(DropUserResponse { success: true })));
    assert_eq!(c.state, ClientState::Done);
    assert_eq!(c.data.webpush.as_ref().unwrap().stats.nacks, 2);
}

#[test]
fn disconnect_with_unacked_direct_stores_them() {
    let mut c = accepted(false, false, false);
    c.transition(Event::Notif(ServerNotification::Notification(notif(C, "v1", None))));
    sent(&mut c);
    c.transition(Event::SocketClosed);
    c.transition(Event::Proceed);
    assert_eq!(c.state, ClientState::Done);
    match calls(&c).last().unwrap() {
        Call::StoreMessages { message_month, messages } => {
            assert_eq!(message_month, "M1");
            let mut expected = notif(C, "v1", None);
            expected.uaid = Some("a1a2a3a4b1b2c1c2d1d2d3d4d5d6d7d8".to_string());
            assert_eq!(*messages, vec![expected]);
        }
        other => panic!("unexpected call {:?}", other),
    }
    assert_eq!(c.data.srv.sessions[0].direct_storage, 1);
    assert!(c.data.webpush.is_none());
}

#[test]
fn session_record_names_the_user_agent() {
    let mut c = accepted(false, false, false);
    c.transition(Event::SocketClosed);
    c.transition(Event::Proceed);
    let rec = &c.data.srv.sessions[0];
    assert_eq!(rec.ua_name, "Firefox");
    assert_eq!(rec.ua_browser_family, "Mozilla");
    assert_eq!(rec.ua_category, "pc");
    assert_eq!(rec.connection_type, "webpush");
    assert!(matches!(c.data.srv.metrics.last().unwrap(), Metric::ConnectionLifespan(_)));
}

#[test]
fn mailbox_check_storage_sets_flags() {
    let mut c = accepted(false, false, false);
    c.data.webpush.as_mut().unwrap().flags.include_topic = false;
    c.transition(Event::Notif(ServerNotification::CheckStorage));
    assert_eq!(c.state, ClientState::Await);
    let f = &c.data.webpush.as_ref().unwrap().flags;
    assert!(f.include_topic && f.check);
    assert_eq!(c.wants(), Wants::Nothing);
    c.transition(Event::Proceed);
    assert_eq!(c.state, ClientState::CheckStorage);
}

#[test]
fn ack_in_await_is_protocol_error() {
    let mut c = accepted(false, false, false);
    c.transition(Event::Frame(ClientMessage::Ack { updates: vec![] }));
    assert_eq!(c.state, ClientState::ShutdownCleanup(Some(ClientError::Protocol)));
}

#[test]
fn failed_call_is_fatal() {
    let mut c = accepted(true, false, false);
    settle(&mut c);
    c.transition(Event::Reply(Reply::Failed(autopush::call::CallError::Remote("down".to_string()))));
    assert_eq!(
        c.state,
        ClientState::ShutdownCleanup(Some(ClientError::RemoteError("down".to_string())))
    );
    let mut d = accepted(true, false, false);
    settle(&mut d);
    d.transition(Event::Reply(Reply::Failed(autopush::call::CallError::Canceled)));
    assert_eq!(d.state, ClientState::ShutdownCleanup(Some(ClientError::CallCanceled)));
}

#[test]
fn events_not_awaited_change_nothing() {
    let mut c = accepted(true, false, false);
    settle(&mut c);
    let calls_before = calls(&c).len();
    c.transition(Event::Frame(ClientMessage::Register { channel_id: C, key: None }));
    c.transition(Event::Proceed);
    assert_eq!(c.state, ClientState::WaitingForCheckStorage);
    assert_eq!(calls(&c).len(), calls_before);
}
