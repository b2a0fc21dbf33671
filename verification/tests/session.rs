use soup_sdk::chat::commands::{Command, MessageType};
use soup_sdk::chat::connection::{
    make_connection_url, Session, SessionAction, SessionInput, SessionState, StartLatch,
};
use soup_sdk::chat::events::{Event, Timestamp};
use soup_sdk::chat::formatter::encode;
use soup_sdk::chat::options::{
    SoopChatOptions, COMMAND_CAPACITY, EVENT_CAPACITY, HEARTBEAT_SECONDS, MIN_EVENT_CAPACITY,
};
use soup_sdk::error::Error;
use soup_sdk::models::LiveDetail;

fn at() -> Timestamp {
    Timestamp { seconds: 1_700_000_000, nanos: 0 }
}

fn options() -> SoopChatOptions {
    SoopChatOptions::new("streamer1".to_string(), "pw".to_string())
}

fn detail(port: u64) -> LiveDetail {
    LiveDetail {
        is_live: true,
        ch_domain: "Chat-KR.Example.COM".to_string(),
        ch_pt: port,
        ch_no: "4242".to_string(),
        streamer_nick: "Streamer".to_string(),
        title: "Title".to_string(),
        categories: Vec::new(),
    }
}

fn connecting() -> Session {
    let (session, _) = Session::new(options()).step(SessionInput::Start);
    let (session, _) = session.step(SessionInput::Resolved(true, Some(detail(8000))));
    session
}

fn handshaking() -> Session {
    let (session, _) = connecting().step(SessionInput::Connected);
    session
}

fn live() -> Session {
    let (session, _) = handshaking().step(SessionInput::Frame(encode(1, b"").unwrap(), at()));
    session
}

#[test]
fn latch_is_one_shot() {
    let mut latch = StartLatch::new();
    assert!(!latch.is_consumed());
    assert_eq!(latch.consume(), Ok(()));
    assert!(latch.is_consumed());
    assert_eq!(latch.consume(), Err(Error::AlreadyStarted));
    assert_eq!(latch.consume(), Err(Error::AlreadyStarted));
    assert!(latch.is_consumed());
}

#[test]
fn endpoint_address() {
    assert_eq!(
        make_connection_url("streamer1", &detail(8000)),
        Ok("wss://chat-kr.example.com:8001/Websocket/streamer1".to_string())
    );
    assert_eq!(
        make_connection_url("s", &detail(0)),
        Ok("wss://chat-kr.example.com:1/Websocket/s".to_string())
    );
    assert_eq!(
        make_connection_url("s", &detail(65534)),
        Ok("wss://chat-kr.example.com:65535/Websocket/s".to_string())
    );
    assert!(matches!(make_connection_url("s", &detail(65535)), Err(Error::UrlParse(_))));
    assert!(matches!(make_connection_url("s", &detail(u64::MAX - 1)), Err(Error::UrlParse(_))));
    assert!(matches!(make_connection_url("s", &detail(u64::MAX)), Err(Error::UrlParse(_))));
    let nowhere = LiveDetail { ch_domain: String::new(), ..detail(8000) };
    assert!(matches!(make_connection_url("s", &nowhere), Err(Error::UrlParse(_))));
    let spaced = LiveDetail { ch_domain: "chat example".to_string(), ..detail(8000) };
    assert!(matches!(make_connection_url("s", &spaced), Err(Error::UrlParse(_))));
    assert_eq!(
        make_connection_url("a b", &detail(442)),
        Ok("wss://chat-kr.example.com/Websocket/a%20b".to_string())
    );
}

#[test]
fn default_options() {
    assert_eq!(HEARTBEAT_SECONDS, 60);
    assert_eq!(COMMAND_CAPACITY, 32);
    assert_eq!(EVENT_CAPACITY, 8192);
    assert_eq!(MIN_EVENT_CAPACITY, 1024);
    let options = options();
    assert_eq!(options.streamer_id, "streamer1");
    assert_eq!(options.password, "pw");
    assert_eq!(options.heartbeat_seconds, 60);
    assert_eq!(options.command_capacity, 32);
    assert_eq!(options.event_capacity, 8192);
    assert!(!options.insecure_tls);
    assert!(options.is_valid());
}

#[test]
fn options_that_cannot_be_used() {
    assert!(!SoopChatOptions::new(String::new(), "pw".to_string()).is_valid());
    assert!(SoopChatOptions::new("s".to_string(), String::new()).is_valid());
    assert!(!SoopChatOptions { heartbeat_seconds: 0, ..options() }.is_valid());
    assert!(!SoopChatOptions { command_capacity: 31, ..options() }.is_valid());
    assert!(!SoopChatOptions { event_capacity: 1023, ..options() }.is_valid());
    assert!(SoopChatOptions { event_capacity: 1024, insecure_tls: true, ..options() }.is_valid());
}

#[test]
fn start_asks_the_resolver() {
    let session = Session::new(options());
    assert_eq!(session.current_state(), SessionState::Idle);
    let (session, actions) = session.step(SessionInput::Start);
    assert_eq!(session.current_state(), SessionState::Resolving);
    assert_eq!(actions, vec![SessionAction::Resolve("streamer1".to_string())]);
}

#[test]
fn offline_stream_ends_the_session() {
    let (session, _) = Session::new(options()).step(SessionInput::Start);
    let (session, actions) = session.step(SessionInput::Resolved(false, None));
    assert_eq!(session, Session::Terminated);
    assert_eq!(actions, vec![SessionAction::Finish(Err(Error::StreamOffline))]);
    let (session, _) = Session::new(options()).step(SessionInput::Start);
    let (session, actions) = session.step(SessionInput::Resolved(false, Some(detail(1))));
    assert_eq!(session.current_state(), SessionState::Terminated);
    assert_eq!(actions, vec![SessionAction::Finish(Err(Error::StreamOffline))]);
}

#[test]
fn resolve_failures_end_the_session() {
    let (session, _) = Session::new(options()).step(SessionInput::Start);
    let (session, actions) = session.step(SessionInput::ResolveFailed("timeout".to_string()));
    assert_eq!(session, Session::Terminated);
    assert_eq!(actions, vec![SessionAction::Finish(Err(Error::ResolveFailed("timeout".to_string())))]);
    let (session, _) = Session::new(options()).step(SessionInput::Start);
    let (session, actions) = session.step(SessionInput::Resolved(true, None));
    assert_eq!(session, Session::Terminated);
    assert!(matches!(&actions[..], [SessionAction::Finish(Err(Error::InternalChannel(_)))]));
    let (session, _) = Session::new(options()).step(SessionInput::Start);
    let (session, actions) = session.step(SessionInput::Resolved(true, Some(detail(70000))));
    assert_eq!(session, Session::Terminated);
    assert!(matches!(&actions[..], [SessionAction::Finish(Err(Error::UrlParse(_)))]));
}

#[test]
fn live_stream_is_connected_to() {
    let (session, _) = Session::new(options()).step(SessionInput::Start);
    let (session, actions) = session.step(SessionInput::Resolved(true, Some(detail(8000))));
    assert_eq!(session.current_state(), SessionState::Connecting);
    assert_eq!(
        actions,
        vec![SessionAction::Connect("wss://chat-kr.example.com:8001/Websocket/streamer1".to_string())]
    );
    match session {
        Session::Connecting(handler) => {
            assert_eq!(handler.formatter.password, "pw");
            assert_eq!(handler.formatter.live_detail, detail(8000));
        }
        other => panic!("not connecting: {:?}", other),
    }
}

#[test]
fn connect_failure_ends_the_session() {
    let (session, actions) = connecting().step(SessionInput::ConnectFailed("refused".to_string()));
    assert_eq!(session, Session::Terminated);
    assert_eq!(
        actions,
        vec![SessionAction::Finish(Err(Error::ConnectionFailed("refused".to_string())))]
    );
}

#[test]
fn tls_failure_ends_the_session() {
    let (session, actions) = connecting().step(SessionInput::TlsFailed("bad certificate".to_string()));
    assert_eq!(session, Session::Terminated);
    assert_eq!(
        actions,
        vec![SessionAction::Finish(Err(Error::TlsHandshakeFailed("bad certificate".to_string())))]
    );
    let (session, actions) = live().step(SessionInput::TlsFailed("late".to_string()));
    assert_eq!(session.current_state(), SessionState::Live);
    assert_eq!(actions, Vec::<SessionAction>::new());
}

#[test]
fn handshake() {
    let (session, actions) = connecting().step(SessionInput::Connected);
    assert_eq!(session.current_state(), SessionState::Handshaking);
    assert_eq!(
        actions,
        vec![
            SessionAction::Publish(Event::Connected),
            SessionAction::Send(b"\x1b\x09000100000600\x0c\x0c\x0c16\x0c".to_vec()),
        ]
    );
    let connect = encode(1, b"").unwrap();
    let (session, actions) = session.step(SessionInput::Frame(connect.clone(), at()));
    assert_eq!(session.current_state(), SessionState::Live);
    assert_eq!(actions.len(), 2);
    assert_eq!(actions[0], SessionAction::Publish(Event::Raw(connect)));
    match &actions[1] {
        SessionAction::Send(join) => {
            assert_eq!(&join[2..6], b"0002");
            assert!(join[14..].starts_with(b"\x0c4242\x0c"));
            assert!(join.windows(7).any(|w| w == b"pwd\x11pw\x12"));
        }
        other => panic!("not a send: {:?}", other),
    }
}

#[test]
fn handshake_without_a_join_frame_ends_the_session() {
    let options = SoopChatOptions::new("streamer1".to_string(), "p".repeat(1_000_000));
    let (session, _) = Session::new(options).step(SessionInput::Start);
    let (session, _) = session.step(SessionInput::Resolved(true, Some(detail(8000))));
    let (session, actions) = session.step(SessionInput::Connected);
    assert_eq!(session.current_state(), SessionState::Handshaking);
    assert_eq!(actions.len(), 2);
    let connect = encode(1, b"").unwrap();
    let (session, actions) = session.step(SessionInput::Frame(connect.clone(), at()));
    assert_eq!(session, Session::Draining(Some(Error::InvalidFrame)));
    assert_eq!(actions, vec![SessionAction::Publish(Event::Raw(connect)), SessionAction::Close]);
    let (session, actions) = session.step(SessionInput::Closed);
    assert_eq!(session, Session::Terminated);
    assert_eq!(
        actions,
        vec![SessionAction::Publish(Event::Disconnected), SessionAction::Finish(Err(Error::InvalidFrame))]
    );
}

#[test]
fn frames_before_the_servers_connect_keep_the_handshake() {
    let frame = encode(5, b"\x0chi\x0cu1\x0c\x0c\x0c\x0cnick\x0c1|0\x0c0\x0c\x0c\x0c0").unwrap();
    let (session, actions) = handshaking().step(SessionInput::Frame(frame.clone(), at()));
    assert_eq!(session.current_state(), SessionState::Handshaking);
    assert_eq!(actions.len(), 2);
    assert_eq!(actions[0], SessionAction::Publish(Event::Raw(frame)));
    assert!(matches!(&actions[1], SessionAction::Publish(Event::Chat(_))));
    let (session, actions) = session.step(SessionInput::Frame(b"junk".to_vec(), at()));
    assert_eq!(session.current_state(), SessionState::Handshaking);
    assert_eq!(actions, vec![SessionAction::Publish(Event::Raw(b"junk".to_vec()))]);
}

#[test]
fn live_session_publishes_and_answers() {
    let frame = encode(23, b"\x0c3\x0c10").unwrap();
    let (session, actions) = live().step(SessionInput::Frame(frame.clone(), at()));
    assert_eq!(session.current_state(), SessionState::Live);
    assert_eq!(actions.len(), 2);
    assert_eq!(actions[0], SessionAction::Publish(Event::Raw(frame)));
    assert!(matches!(&actions[1], SessionAction::Publish(Event::Slow(e)) if e.duration == 10));
    let (session, actions) = session.step(SessionInput::Frame(encode(1, b"").unwrap(), at()));
    assert_eq!(session.current_state(), SessionState::Live);
    assert!(matches!(&actions[..], [SessionAction::Publish(Event::Raw(_)), SessionAction::Send(_)]));
}

#[test]
fn heartbeat_sends_ping() {
    let (session, actions) = live().step(SessionInput::Heartbeat);
    assert_eq!(session.current_state(), SessionState::Live);
    assert_eq!(actions, vec![SessionAction::Send(b"\x1b\x09000000000000".to_vec())]);
    let (session, actions) = handshaking().step(SessionInput::Heartbeat);
    assert_eq!(session.current_state(), SessionState::Handshaking);
    assert_eq!(actions, vec![SessionAction::Send(encode(MessageType::Ping.to_code(), b"").unwrap())]);
}

#[test]
fn send_chat_sends_a_chat_frame() {
    let (session, actions) = live().step(SessionInput::Command(Command::SendChat("hello".to_string())));
    assert_eq!(session.current_state(), SessionState::Live);
    assert_eq!(actions, vec![SessionAction::Send(b"\x1b\x09000500000700\x0chello\x0c".to_vec())]);
    let long = "x".repeat(1_000_000);
    let (session, actions) = session.step(SessionInput::Command(Command::SendChat(long)));
    assert_eq!(session.current_state(), SessionState::Live);
    assert_eq!(actions, Vec::<SessionAction>::new());
}

#[test]
fn shutdown_after_connected() {
    let (session, actions) = connecting().step(SessionInput::Connected);
    assert_eq!(actions[0], SessionAction::Publish(Event::Connected));
    let (session, actions) = session.step(SessionInput::Command(Command::Shutdown));
    assert_eq!(session, Session::Draining(None));
    assert_eq!(actions, vec![SessionAction::Close]);
    let (session, actions) = session.step(SessionInput::Closed);
    assert_eq!(session, Session::Terminated);
    assert_eq!(
        actions,
        vec![SessionAction::Publish(Event::Disconnected), SessionAction::Finish(Ok(()))]
    );
    let (session, actions) = session.step(SessionInput::Heartbeat);
    assert_eq!(session, Session::Terminated);
    assert_eq!(actions, Vec::<SessionAction>::new());
}

#[test]
fn socket_failure_drains_with_the_error() {
    let (session, actions) = live().step(SessionInput::SocketFailed("reset".to_string()));
    assert_eq!(session, Session::Draining(Some(Error::WebSocketIo("reset".to_string()))));
    assert_eq!(actions, vec![SessionAction::Close]);
    let (session, actions) = session.step(SessionInput::Frame(encode(0, b"").unwrap(), at()));
    assert_eq!(session.current_state(), SessionState::Draining);
    assert_eq!(actions, Vec::<SessionAction>::new());
    let (session, actions) = session.step(SessionInput::SocketFailed("again".to_string()));
    assert_eq!(session, Session::Terminated);
    assert_eq!(
        actions,
        vec![
            SessionAction::Publish(Event::Disconnected),
            SessionAction::Finish(Err(Error::WebSocketIo("reset".to_string()))),
        ]
    );
}

#[test]
fn peer_close_ends_the_session() {
    let (session, actions) = live().step(SessionInput::Closed);
    assert_eq!(session, Session::Terminated);
    assert_eq!(
        actions,
        vec![SessionAction::Publish(Event::Disconnected), SessionAction::Finish(Ok(()))]
    );
}

#[test]
fn what_no_state_expects_changes_nothing() {
    let (session, actions) = Session::new(options()).step(SessionInput::Heartbeat);
    assert_eq!(session, Session::Idle(options()));
    assert_eq!(actions, Vec::<SessionAction>::new());
    let (session, actions) = session.step(SessionInput::Frame(encode(1, b"").unwrap(), at()));
    assert_eq!(session.current_state(), SessionState::Idle);
    assert_eq!(actions, Vec::<SessionAction>::new());
    let (session, actions) = connecting().step(SessionInput::Start);
    assert_eq!(session.current_state(), SessionState::Connecting);
    assert_eq!(actions, Vec::<SessionAction>::new());
    let (session, actions) = live().step(SessionInput::Start);
    assert_eq!(session.current_state(), SessionState::Live);
    assert_eq!(actions, Vec::<SessionAction>::new());
    let (session, actions) = live().step(SessionInput::Connected);
    assert_eq!(session.current_state(), SessionState::Live);
    assert_eq!(actions, Vec::<SessionAction>::new());
}
