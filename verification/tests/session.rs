//! The gateway session state machine, driven with decoded frames: the
//! happy path, the missed acknowledgement, and the invalid session.

use harmony::gateway::event::{Event, decode_frame};
use harmony::gateway::session::{GatewayAction, SessionState};

fn decoded(text: &str) -> Event {
    decode_frame(text).unwrap()
}

#[test]
fn happy_path_session() {
    let mut s = SessionState::new(0);
    // The server greets with its interval; no session yet, so the client
    // identifies.
    let hello = decoded("{\"op\":10,\"d\":{\"heartbeat_interval\":41250}}");
    let acts = s.handle_event(hello, 0);
    assert_eq!(acts.len(), 1);
    assert!(matches!(acts[0], GatewayAction::SendIdentify));
    assert_eq!(s.heartbeat_interval, Some(41250));
    assert_eq!(s.session_id, None);

    // The ready opens the session and is forwarded.
    let ready = decoded(
        "{\"op\":0,\"s\":1,\"t\":\"READY\",\"d\":{\"v\":10,\
         \"user\":{\"id\":1,\"username\":\"bot\",\"discriminator\":\"0001\"},\
         \"session_id\":\"abc\"}}",
    );
    let acts = s.handle_event(ready, 10);
    assert_eq!(acts.len(), 1);
    assert!(matches!(&acts[0], GatewayAction::Forward(d) if d.sequence_number == 1));
    assert_eq!(s.session_id.as_deref(), Some("abc"));
    assert_eq!(s.sequence_number, Some(1));

    // An acknowledgement sets the flag.
    let acts = s.handle_event(decoded("{\"op\":11}"), 20);
    assert!(acts.is_empty());
    assert!(s.last_heartbeat_ack);

    // Before the interval elapses, a tick does nothing.
    let acts = s.heartbeat_tick(41249);
    assert!(acts.is_empty());

    // At the interval, exactly one heartbeat goes out, carrying the
    // sequence number.
    let acts = s.heartbeat_tick(41250);
    assert_eq!(acts.len(), 1);
    assert!(matches!(acts[0], GatewayAction::SendHeartbeat(Some(1))));
    assert_eq!(s.last_heartbeat, 41250);
    assert!(!s.last_heartbeat_ack);
}

#[test]
fn missed_ack_reconnects_and_resumes() {
    let mut s = SessionState::new(0);
    s.handle_event(decoded("{\"op\":10,\"d\":{\"heartbeat_interval\":41250}}"), 0);
    let ready = decoded(
        "{\"op\":0,\"s\":1,\"t\":\"READY\",\"d\":{\"v\":10,\
         \"user\":{\"id\":1,\"username\":\"bot\",\"discriminator\":\"0001\"},\
         \"session_id\":\"abc\"}}",
    );
    s.handle_event(ready, 0);
    // The server acknowledged the identify-time heartbeat traffic once.
    s.handle_event(decoded("{\"op\":11}"), 5);

    // First tick sends the heartbeat and clears the flag.
    let acts = s.heartbeat_tick(41250);
    assert_eq!(acts.len(), 1);
    assert!(matches!(acts[0], GatewayAction::SendHeartbeat(Some(1))));

    // No acknowledgement ever arrives.  At roughly twice the interval the
    // next due tick reconnects, resumes with the held session, and only
    // then heartbeats.
    let acts = s.heartbeat_tick(82500);
    assert_eq!(acts.len(), 3);
    assert!(matches!(acts[0], GatewayAction::Reconnect));
    match &acts[1] {
        GatewayAction::SendResume(sid, seq) => {
            assert_eq!(sid.as_deref(), Some("abc"));
            assert_eq!(*seq, Some(1));
        },
        _ => panic!("expected a resume"),
    }
    assert!(matches!(acts[2], GatewayAction::SendHeartbeat(Some(1))));
}

#[test]
fn invalid_session_not_resumable_identifies() {
    let mut s = SessionState::new(0);
    s.handle_event(decoded("{\"op\":10,\"d\":{\"heartbeat_interval\":41250}}"), 0);
    let ready = decoded(
        "{\"op\":0,\"s\":1,\"t\":\"READY\",\"d\":{\"v\":10,\
         \"user\":{\"id\":1,\"username\":\"bot\",\"discriminator\":\"0001\"},\
         \"session_id\":\"abc\"}}",
    );
    s.handle_event(ready, 0);

    let acts = s.handle_event(decoded("{\"op\":9,\"d\":false}"), 100);
    assert_eq!(acts.len(), 3);
    match acts[0] {
        GatewayAction::SleepMs(ms) => assert!((1000..=5000).contains(&ms)),
        _ => panic!("expected a sleep"),
    }
    assert!(matches!(acts[1], GatewayAction::Reconnect));
    assert!(matches!(acts[2], GatewayAction::SendIdentify));
    assert_eq!(s.session_id, None);
}

#[test]
fn invalid_session_resumable_resumes() {
    let mut s = SessionState::new(0);
    s.handle_event(decoded("{\"op\":10,\"d\":{\"heartbeat_interval\":41250}}"), 0);
    let ready = decoded(
        "{\"op\":0,\"s\":3,\"t\":\"READY\",\"d\":{\"v\":10,\
         \"user\":{\"id\":1,\"username\":\"bot\",\"discriminator\":\"0001\"},\
         \"session_id\":\"xyz\"}}",
    );
    s.handle_event(ready, 0);

    let acts = s.handle_event(decoded("{\"op\":9,\"d\":true}"), 100);
    assert_eq!(acts.len(), 3);
    assert!(matches!(acts[0], GatewayAction::SleepMs(_)));
    assert!(matches!(acts[1], GatewayAction::Reconnect));
    match &acts[2] {
        GatewayAction::SendResume(sid, seq) => {
            assert_eq!(sid.as_deref(), Some("xyz"));
            assert_eq!(*seq, Some(3));
        },
        _ => panic!("expected a resume"),
    }
    assert_eq!(s.session_id.as_deref(), Some("xyz"));
}

#[test]
fn server_heartbeat_request_is_answered() {
    let mut s = SessionState::new(0);
    s.handle_event(decoded("{\"op\":10,\"d\":{\"heartbeat_interval\":41250}}"), 0);
    let acts = s.handle_event(decoded("{\"op\":1}"), 7);
    assert_eq!(acts.len(), 1);
    assert!(matches!(acts[0], GatewayAction::SendHeartbeat(None)));
    assert_eq!(s.last_heartbeat, 7);
    assert!(!s.last_heartbeat_ack);
}

#[test]
fn reconnect_directive_resumes() {
    let mut s = SessionState::new(0);
    let ready = decoded(
        "{\"op\":0,\"s\":9,\"t\":\"READY\",\"d\":{\"v\":10,\
         \"user\":{\"id\":1,\"username\":\"bot\",\"discriminator\":\"0001\"},\
         \"session_id\":\"sss\"}}",
    );
    s.handle_event(ready, 0);
    let acts = s.handle_event(decoded("{\"op\":7}"), 50);
    assert_eq!(acts.len(), 2);
    assert!(matches!(acts[0], GatewayAction::Reconnect));
    match &acts[1] {
        GatewayAction::SendResume(sid, seq) => {
            assert_eq!(sid.as_deref(), Some("sss"));
            assert_eq!(*seq, Some(9));
        },
        _ => panic!("expected a resume"),
    }
}

#[test]
fn hello_mid_session_does_not_identify() {
    let mut s = SessionState::new(0);
    let ready = decoded(
        "{\"op\":0,\"s\":1,\"t\":\"READY\",\"d\":{\"v\":10,\
         \"user\":{\"id\":1,\"username\":\"bot\",\"discriminator\":\"0001\"},\
         \"session_id\":\"abc\"}}",
    );
    s.handle_event(ready, 0);
    let acts = s.handle_event(decoded("{\"op\":10,\"d\":{\"heartbeat_interval\":1000}}"), 10);
    assert!(acts.is_empty());
    assert_eq!(s.heartbeat_interval, Some(1000));
}

#[test]
fn classification_preserves_arrival_order() {
    let frames = vec![
        String::from("{\"op\":11}"),
        String::from("garbage"),
        String::from("{\"op\":7}"),
    ];
    let (events, _) = harmony::gateway::event::classify_frames(&frames);
    assert_eq!(events.len(), 2);
    assert!(matches!(events[0], Event::HeartbeatAck));
    assert!(matches!(events[1], Event::Reconnect));
}
