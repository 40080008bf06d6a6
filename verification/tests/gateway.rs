//! Scenario tests for the gateway protocol state machine.

use discord_tokio::{
    decode_frame, reconnect_attempt, Action, ConnectionBuilder, Error, GatewayFrame,
    ProtocolState, Session, Step,
};

fn fresh_session() -> Session {
    let builder = ConnectionBuilder::new("wss://gateway.example".to_string(), "TOKEN".to_string());
    builder.session()
}

fn frame(text: &str) -> GatewayFrame {
    decode_frame(text).unwrap()
}

fn hello(interval: u64) -> GatewayFrame {
    frame(&format!("{{\"op\":10,\"d\":{{\"heartbeat_interval\":{}}}}}", interval))
}

fn ready(seq: u64, session: &str) -> GatewayFrame {
    frame(&format!(
        "{{\"op\":0,\"s\":{},\"t\":\"READY\",\"d\":{{\"v\":6,\"session_id\":\"{}\"}}}}",
        seq, session
    ))
}

fn dispatch(seq: u64, name: &str) -> GatewayFrame {
    frame(&format!("{{\"op\":0,\"s\":{},\"t\":\"{}\",\"d\":{{}}}}", seq, name))
}

/// Drive a fresh session through the happy handshake into streaming.
fn streaming_session(seq: u64, session_id: &str) -> Session {
    let mut session = fresh_session();
    let (step, _) = session.handle_frame(hello(40000));
    assert!(matches!(step, Step::Continue));
    let (step, _) = session.handle_frame(ready(seq, session_id));
    assert!(matches!(step, Step::Ready(_)));
    session
}

#[test]
fn handshake_happy_path() {
    let mut session = fresh_session();
    assert_eq!(session.state, ProtocolState::AwaitingHello);

    let (step, actions) = session.handle_frame(hello(40000));
    assert!(matches!(step, Step::Continue));
    assert_eq!(actions.len(), 2);
    assert!(matches!(actions[0], Action::StartHeartbeat { interval_ms: 40000 }));
    match &actions[1] {
        Action::SendFrame(text) => assert_eq!(text, &session.identify),
        other => panic!("expected the identify frame, got {:?}", other),
    }
    assert_eq!(session.heartbeat_interval, 40000);
    assert!(session.heartbeat_live);

    let (step, actions) = session.handle_frame(ready(7, "S1"));
    match step {
        Step::Ready(d) => {
            assert_eq!(d.sequence, 7);
            assert_eq!(d.name, "READY");
        }
        other => panic!("expected the ready dispatch, got {:?}", other),
    }
    assert_eq!(actions.len(), 1);
    assert!(matches!(actions[0], Action::HeartbeatSequence(7)));
    assert_eq!(session.state, ProtocolState::Streaming);
    assert_eq!(session.session_id.as_deref(), Some("S1"));
    assert_eq!(session.last_sequence, 7);
}

#[test]
fn a_first_frame_other_than_hello_is_a_protocol_error() {
    let mut session = fresh_session();
    let (step, _) = session.handle_frame(frame("{\"op\":11}"));
    assert!(matches!(step, Step::Fatal(Error::Protocol(_))));
    assert_eq!(session.state, ProtocolState::Closed);
}

#[test]
fn immediate_invalidate_retries_the_identify_once() {
    let mut session = fresh_session();
    let _ = session.handle_frame(hello(40000));

    let (step, actions) = session.handle_frame(frame("{\"op\":9,\"d\":false}"));
    assert!(matches!(step, Step::Continue));
    assert_eq!(actions.len(), 1);
    match &actions[0] {
        Action::SendFrame(text) => assert_eq!(text, &session.identify),
        other => panic!("expected a re-identify, got {:?}", other),
    }

    let (step, _) = session.handle_frame(ready(1, "S2"));
    assert!(matches!(step, Step::Ready(_)));
    assert_eq!(session.session_id.as_deref(), Some("S2"));
    assert_eq!(session.last_sequence, 1);
}

#[test]
fn a_second_invalidate_during_the_handshake_is_fatal() {
    let mut session = fresh_session();
    let _ = session.handle_frame(hello(40000));
    let _ = session.handle_frame(frame("{\"op\":9,\"d\":false}"));
    let (step, actions) = session.handle_frame(frame("{\"op\":9,\"d\":false}"));
    assert!(matches!(step, Step::Fatal(Error::Protocol(_))));
    assert!(actions.is_empty());
    assert_eq!(session.state, ProtocolState::Closed);
}

#[test]
fn dispatches_advance_the_sequence_monotonically() {
    let mut session = streaming_session(42, "S1");
    let (step, actions) = session.handle_frame(dispatch(43, "MESSAGE_CREATE"));
    assert!(matches!(step, Step::Event(_)));
    assert!(matches!(actions[0], Action::HeartbeatSequence(43)));
    assert_eq!(session.last_sequence, 43);

    // A replayed lower sequence number does not move the counter back.
    let (step, actions) = session.handle_frame(dispatch(10, "MESSAGE_CREATE"));
    assert!(matches!(step, Step::Event(_)));
    assert!(matches!(actions[0], Action::HeartbeatSequence(43)));
    assert_eq!(session.last_sequence, 43);
}

#[test]
fn a_requested_heartbeat_is_answered_at_once() {
    let mut session = streaming_session(42, "S1");
    let (step, actions) = session.handle_frame(frame("{\"op\":1,\"d\":40}"));
    assert!(matches!(step, Step::Continue));
    match &actions[0] {
        Action::SendFrame(text) => assert_eq!(text, "{\"op\":1,\"d\":42}"),
        other => panic!("expected a heartbeat, got {:?}", other),
    }
}

#[test]
fn acks_and_midstream_hellos_are_ignored() {
    let mut session = streaming_session(42, "S1");
    let (step, actions) = session.handle_frame(frame("{\"op\":11}"));
    assert!(matches!(step, Step::Continue));
    assert!(actions.is_empty());
    let (step, actions) = session.handle_frame(hello(99999));
    assert!(matches!(step, Step::Continue));
    assert!(actions.is_empty());
    assert_eq!(session.heartbeat_interval, 40000);
}

#[test]
fn midstream_reconnect_closes_and_reidentifies() {
    let mut session = streaming_session(42, "S1");
    let (step, actions) = session.handle_frame(frame("{\"op\":7,\"d\":null}"));
    assert!(matches!(step, Step::Reconnect));
    assert_eq!(actions.len(), 1);
    assert!(matches!(actions[0], Action::StopHeartbeat));
    assert_eq!(session.state, ProtocolState::Closed);
    assert!(!session.heartbeat_live);

    // The reconnect path performs a fresh handshake — an identify, never a
    // resume — and yields the new ready dispatch.
    let mut next = fresh_session();
    let (_, actions) = next.handle_frame(hello(40000));
    match &actions[1] {
        Action::SendFrame(text) => assert_eq!(text, &next.identify),
        other => panic!("expected the identify frame, got {:?}", other),
    }
    let (step, _) = next.handle_frame(ready(1, "S9"));
    assert!(matches!(step, Step::Ready(_)));
}

#[test]
fn midstream_invalidate_clears_the_session_and_reidentifies() {
    let mut session = streaming_session(42, "S1");
    let (step, actions) = session.handle_frame(frame("{\"op\":9,\"d\":false}"));
    assert!(matches!(step, Step::Continue));
    assert!(session.session_id.is_none());
    match &actions[0] {
        Action::SendFrame(text) => assert_eq!(text, &session.identify),
        other => panic!("expected a re-identify, got {:?}", other),
    }
    // Without a session identifier a resume is no longer legitimate.
    assert!(!session.may_resume(None));
    assert!(session.begin_resume().is_none());
}

#[test]
fn resume_on_transport_drop() {
    let mut session = streaming_session(100, "S1");
    assert!(session.may_resume(None));

    let start = session.begin_resume().unwrap();
    assert_eq!(
        start.frame,
        "{\"op\":6,\"d\":{\"seq\":100,\"token\":\"TOKEN\",\"session_id\":\"S1\"}}"
    );
    assert_eq!(start.actions.len(), 1);
    assert!(matches!(start.actions[0], Action::StopHeartbeat));
    assert_eq!(session.state, ProtocolState::Resuming);

    // The fresh socket greets with a hello, which restarts the heartbeat.
    let (step, actions) = session.handle_frame(hello(41000));
    assert!(matches!(step, Step::Continue));
    assert!(matches!(actions[0], Action::StartHeartbeat { interval_ms: 41000 }));

    // The confirming dispatch ends the resume and reaches the caller.
    let (step, actions) = session.handle_frame(dispatch(101, "RESUMED"));
    match step {
        Step::Event(d) => assert_eq!(d.name, "RESUMED"),
        other => panic!("expected the resumed event, got {:?}", other),
    }
    assert!(matches!(actions.last().unwrap(), Action::HeartbeatSequence(101)));
    assert_eq!(session.state, ProtocolState::Streaming);
    assert_eq!(session.last_sequence, 101);

    // Sequences continue from there.
    let _ = session.handle_frame(dispatch(102, "MESSAGE_CREATE"));
    assert_eq!(session.last_sequence, 102);
}

#[test]
fn a_ready_during_resume_updates_the_session() {
    let mut session = streaming_session(100, "S1");
    let _ = session.begin_resume().unwrap();
    let (step, _) = session.handle_frame(ready(101, "S2"));
    assert!(matches!(step, Step::Event(_)));
    assert_eq!(session.session_id.as_deref(), Some("S2"));
}

#[test]
fn an_invalidate_during_resume_reidentifies() {
    let mut session = streaming_session(100, "S1");
    let _ = session.begin_resume().unwrap();
    let (step, actions) = session.handle_frame(frame("{\"op\":9,\"d\":false}"));
    assert!(matches!(step, Step::Continue));
    match &actions[0] {
        Action::SendFrame(text) => assert_eq!(text, &session.identify),
        other => panic!("expected a re-identify, got {:?}", other),
    }
    assert_eq!(session.state, ProtocolState::Resuming);
}

#[test]
fn the_session_timeout_close_code_forbids_resuming() {
    let session = streaming_session(100, "S1");
    assert!(session.may_resume(None));
    assert!(session.may_resume(Some(4000)));
    assert!(!session.may_resume(Some(4006)));
}

#[test]
fn closing_stops_the_heartbeat() {
    let mut session = streaming_session(7, "S1");
    assert!(session.heartbeat_live);
    let actions = session.close();
    assert_eq!(actions.len(), 1);
    assert!(matches!(actions[0], Action::StopHeartbeat));
    assert!(!session.heartbeat_live);
    assert_eq!(session.state, ProtocolState::Closed);

    // A closed session consumes nothing further.
    let (step, _) = session.handle_frame(dispatch(8, "MESSAGE_CREATE"));
    assert!(matches!(step, Step::Fatal(Error::Protocol(_))));
}

#[test]
fn the_reconnect_schedule_gives_up_after_three_attempts() {
    let first = reconnect_attempt(0).unwrap();
    assert_eq!(first.delay_ms, 1000);
    assert!(!first.rediscover_url);
    let second = reconnect_attempt(1).unwrap();
    assert!(!second.rediscover_url);
    let third = reconnect_attempt(2).unwrap();
    assert!(third.rediscover_url);
    assert!(reconnect_attempt(3).is_none());
}

#[test]
fn a_session_survives_invalidate_ready_and_a_later_resume() {
    // Mid-stream invalidation clears the identity; the re-identify's fresh
    // ready dispatch restores it, and a later transport drop can resume
    // with the new identity and the latest sequence.
    let mut session = streaming_session(42, "S1");
    let _ = session.handle_frame(frame("{\"op\":9,\"d\":false}"));
    assert!(session.session_id.is_none());
    let (step, _) = session.handle_frame(ready(50, "S3"));
    assert!(matches!(step, Step::Event(_)));
    assert_eq!(session.session_id.as_deref(), Some("S3"));
    assert_eq!(session.last_sequence, 50);

    let start = session.begin_resume().unwrap();
    assert_eq!(
        start.frame,
        "{\"op\":6,\"d\":{\"seq\":50,\"token\":\"TOKEN\",\"session_id\":\"S3\"}}"
    );
}

#[test]
fn unexpected_frames_during_a_resume_are_fatal() {
    let mut session = streaming_session(100, "S1");
    let _ = session.begin_resume().unwrap();
    let (step, _) = session.handle_frame(frame("{\"op\":7,\"d\":null}"));
    assert!(matches!(step, Step::Fatal(Error::Protocol(_))));
    assert_eq!(session.state, ProtocolState::Closed);
}

#[test]
fn the_builder_freezes_shard_and_intents_into_the_identify() {
    let mut builder =
        ConnectionBuilder::new("wss://gateway.example".to_string(), "TOKEN".to_string());
    builder.sharding(2, 8);
    builder.intents(discord_tokio::Intents(513));
    assert_eq!(builder.websocket_url(), "wss://gateway.example?v=6");
    let session = builder.session();
    assert!(session.identify.contains("\"shard\":[2,8]"));
    assert!(session.identify.contains("\"intents\":513"));
    assert!(session.identify.contains("\"token\":\"TOKEN\""));
    assert_eq!(session.url, "wss://gateway.example?v=6");
}

#[test]
fn the_builder_escapes_an_awkward_credential() {
    let builder =
        ConnectionBuilder::new("wss://gateway.example".to_string(), "bad\"token".to_string());
    let session = builder.session();
    assert!(session.identify.contains("\"token\":\"bad\\\"token\""));
}

#[test]
fn error_kinds_describe_themselves() {
    assert_eq!(
        Error::Transport("x".to_string()).kind_description(),
        "transport error"
    );
    assert_eq!(Error::RateLimited(5).kind_description(), "rate limited");
    assert_eq!(Error::Closed(None, String::new()).kind_description(), "connection closed");
}

#[test]
fn heartbeat_ticks_carry_the_latest_sequence() {
    // After the handshake of the happy path, the first tick carries the
    // ready dispatch's sequence number.
    let (frame_text, latest) = discord_tokio::heartbeat_tick(0, &vec![7]);
    assert_eq!(latest, 7);
    assert_eq!(frame_text, "{\"op\":1,\"d\":7}");
    // Draining several updates keeps the last; none keeps the current.
    let (_, latest) = discord_tokio::heartbeat_tick(7, &vec![8, 9, 12]);
    assert_eq!(latest, 12);
    let (frame_text, latest) = discord_tokio::heartbeat_tick(12, &vec![]);
    assert_eq!(latest, 12);
    assert_eq!(frame_text, "{\"op\":1,\"d\":12}");
}
