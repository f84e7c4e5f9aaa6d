//! Scenario tests driving the listener core the way the runtime does: one
//! call per outcome of the outside work, collecting the events the core
//! hands back for the consumer.

use ntfy_listener::actor::ListenerActor;
use ntfy_listener::actor::ListenerConfig;
use ntfy_listener::events::ConnectionState;
use ntfy_listener::events::ListenerError;
use ntfy_listener::events::ListenerEvent;

fn test_config() -> ListenerConfig {
    ListenerConfig {
        endpoint: "http://localhost".to_string(),
        topic: "test".to_string(),
        since: 0,
    }
}

const OPEN_LINE: &str = r#"{"id":"SLiKI64DOt","time":1635528757,"event":"open","topic":"mytopic"}"#;

#[test]
fn test_listener_reconnects_on_http_status_500() {
    // First attempt: the server answers 500, so the attempt fails before it
    // is connected. Second attempt: 200 with a valid `open` event.
    let mut actor = ListenerActor::new(test_config(), 0);
    let mut events: Vec<ListenerEvent> = Vec::new();

    events.push(actor.on_start());
    let (ev, _delay) = actor
        .attempt_done(Err(ListenerError::HttpStatus(500)), 10, 0)
        .expect("a failed attempt yields a reconnect");
    events.push(ev);
    events.push(actor.on_connected());
    let forwarded = actor.process_line(OPEN_LINE).expect("valid open event");
    assert!(forwarded.is_none());

    assert!(matches!(
        &events[..],
        &[
            ListenerEvent::ConnectionStateChanged(ConnectionState::Unitialized),
            ListenerEvent::ConnectionStateChanged(ConnectionState::Reconnecting { .. }),
            ListenerEvent::ConnectionStateChanged(ConnectionState::Connected),
        ]
    ));
    assert_eq!(actor.config.since, 1635528757);
}

#[test]
fn test_listener_reconnects_on_invalid_message() {
    // First attempt: the server answers 200 (the attempt connects) but the
    // body is "invalid message", which does not even yield a timestamp.
    // Second attempt: a valid `open` event. The decode failure is retried
    // exactly like a transport failure.
    let mut actor = ListenerActor::new(test_config(), 0);
    let mut events: Vec<ListenerEvent> = Vec::new();

    events.push(actor.on_start());
    events.push(actor.on_connected());
    let err = actor.process_line("invalid message").unwrap_err();
    assert_eq!(err, ListenerError::InvalidMinMessage("invalid message".to_string()));
    assert_eq!(actor.config.since, 0);
    let (ev, _delay) = actor
        .attempt_done(Err(err), 10, 0)
        .expect("a failed attempt yields a reconnect");
    events.push(ev);
    events.push(actor.on_connected());
    let forwarded = actor.process_line(OPEN_LINE).expect("valid open event");
    assert!(forwarded.is_none());

    assert!(matches!(
        &events[..],
        &[
            ListenerEvent::ConnectionStateChanged(ConnectionState::Unitialized),
            ListenerEvent::ConnectionStateChanged(ConnectionState::Connected),
            ListenerEvent::ConnectionStateChanged(ConnectionState::Reconnecting { .. }),
            ListenerEvent::ConnectionStateChanged(ConnectionState::Connected),
        ]
    ));
}

#[test]
fn test_one_message_then_clean_end() {
    // The server streams one valid `message` event and then closes the
    // connection cleanly: the consumer receives exactly one message and the
    // actor ends without further retries.
    let line = r#"{"id":"m1","time":100,"event":"message","topic":"mytopic","message":"hi"}"#;
    let mut actor = ListenerActor::new(test_config(), 0);
    let mut messages: Vec<ListenerEvent> = Vec::new();

    actor.on_start();
    actor.on_connected();
    let forwarded = actor.process_line(line).expect("valid message event");
    messages.extend(forwarded);
    let before = actor.clone();
    let r = actor.attempt_done(Ok(()), 50, 0);
    assert!(r.is_none());
    assert_eq!(actor, before);

    assert_eq!(messages.len(), 1);
    match &messages[0] {
        ListenerEvent::Message(m) => {
            assert_eq!(m.id, "m1");
            assert_eq!(m.time, 100);
            assert_eq!(m.raw, line);
        }
        other => panic!("expected a message event, got {:?}", other),
    }
    assert_eq!(actor.config.since, 100);
}

#[test]
fn test_reconnecting_state_carries_attempt_and_error() {
    let mut actor = ListenerActor::new(test_config(), 0);
    actor.on_start();
    let (ev, delay) = actor
        .attempt_done(Err(ListenerError::Transport("connection reset".to_string())), 10, 0)
        .unwrap();
    assert_eq!(delay, 1000);
    match ev {
        ListenerEvent::ConnectionStateChanged(ConnectionState::Reconnecting {
            retry_count,
            delay_ms,
            error,
        }) => {
            assert_eq!(retry_count, 0);
            assert_eq!(delay_ms, 1000);
            assert_eq!(error, Some(ListenerError::Transport("connection reset".to_string())));
        }
        other => panic!("expected a reconnecting state change, got {:?}", other),
    }
}

#[test]
fn test_request_build_error_is_retried() {
    let mut actor = ListenerActor::new(test_config(), 0);
    let r = actor.attempt_done(Err(ListenerError::RequestBuild("bad url".to_string())), 10, 7);
    assert!(r.is_some());
    assert!(matches!(
        actor.state,
        ConnectionState::Reconnecting { error: Some(ListenerError::RequestBuild(_)), .. }
    ));
}
