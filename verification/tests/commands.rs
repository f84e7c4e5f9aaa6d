//! Tests of the command loop's decisions and of the request plan.

use ntfy_listener::actor::ListenerActor;
use ntfy_listener::actor::ListenerConfig;
use ntfy_listener::actor::LoopInput;
use ntfy_listener::events::ConnectionState;
use ntfy_listener::events::ListenerCommand;
use ntfy_listener::events::ListenerError;
use ntfy_listener::wire::Credentials;

fn test_actor() -> ListenerActor {
    ListenerActor::new(
        ListenerConfig {
            endpoint: "http://localhost".to_string(),
            topic: "test".to_string(),
            since: 42,
        },
        0,
    )
}

#[test]
fn test_get_state_replies_with_the_current_state() {
    let mut actor = test_actor();
    let step = actor.loop_step(LoopInput::Command(Some(ListenerCommand::GetState)));
    assert!(step.continue_running);
    assert_eq!(step.reply, Some(ConnectionState::Unitialized));

    actor.attempt_done(Err(ListenerError::HttpStatus(503)), 10, 0).unwrap();
    let step = actor.loop_step(LoopInput::Command(Some(ListenerCommand::GetState)));
    assert!(step.continue_running);
    assert_eq!(step.reply, Some(actor.state.clone()));
    assert!(matches!(step.reply, Some(ConnectionState::Reconnecting { .. })));
}

#[test]
fn test_shutdown_ends_the_loop() {
    let actor = test_actor();
    let step = actor.loop_step(LoopInput::Command(Some(ListenerCommand::Shutdown)));
    assert!(!step.continue_running);
    assert_eq!(step.reply, None);
}

#[test]
fn test_clean_end_and_closed_channel_end_the_loop() {
    let actor = test_actor();
    assert!(!actor.loop_step(LoopInput::SupervisedEnded).continue_running);
    assert!(!actor.loop_step(LoopInput::Command(None)).continue_running);
}

#[test]
fn test_restart_continues_without_resetting_backoff() {
    let mut actor = test_actor();
    actor.attempt_done(Err(ListenerError::HttpStatus(503)), 10, 0).unwrap();
    actor.attempt_done(Err(ListenerError::HttpStatus(503)), 10, 0).unwrap();
    let count_before = actor.backoff.count;

    let step = actor.loop_step(LoopInput::Command(Some(ListenerCommand::Restart)));
    assert!(step.continue_running);
    assert_eq!(step.reply, None);
    assert_eq!(actor.backoff.count, count_before);
}

#[test]
fn test_request_plan_carries_cursor_headers_and_auth() {
    let actor = test_actor();
    let plan = actor.topic_request(None);
    assert_eq!(plan.endpoint, "http://localhost");
    assert_eq!(plan.topic, "test");
    assert_eq!(plan.since, 42);
    assert_eq!(plan.content_type, "application/x-ndjson");
    assert_eq!(plan.transfer_encoding, "chunked");
    assert_eq!(plan.basic_auth, None);

    let creds = Credentials { username: "user".to_string(), password: "pass".to_string() };
    let plan = actor.topic_request(Some(creds.clone()));
    assert_eq!(plan.basic_auth, Some(creds));
}
