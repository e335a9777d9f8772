use mqtt_logger::record::InboundMessage;
use mqtt_logger::session::{
    QualityOfService, SessionEvent, SessionFault, SessionState, Subscription,
};

fn error_event() -> SessionEvent {
    SessionEvent::SessionError { detail: String::from("connection reset") }
}

fn message_event() -> SessionEvent {
    SessionEvent::MessageReceived(InboundMessage {
        topic: String::from("/broker_alive"),
        payload: vec![b'1'],
    })
}

#[test]
fn a_session_starts_disconnected() {
    assert_eq!(SessionState::initial(), SessionState::Disconnected);
}

#[test]
fn a_handshake_connects_a_disconnected_session_only() {
    assert_eq!(SessionState::Disconnected.established(), SessionState::Connected);
    assert_eq!(SessionState::Connected.established(), SessionState::Connected);
    assert_eq!(SessionState::Subscribed.established(), SessionState::Subscribed);
    assert_eq!(SessionState::Terminated.established(), SessionState::Terminated);
}

#[test]
fn a_connected_session_subscribes_at_most_once() {
    assert_eq!(
        SessionState::Connected.subscribe("/broker_alive"),
        Ok((
            SessionState::Subscribed,
            Subscription {
                topic: String::from("/broker_alive"),
                quality: QualityOfService::AtMostOnce,
            }
        ))
    );
}

#[test]
fn a_session_that_is_not_connected_cannot_subscribe() {
    for state in [SessionState::Disconnected, SessionState::Subscribed, SessionState::Terminated] {
        assert_eq!(state.subscribe("/broker_alive"), Err(SessionFault::NotEstablished));
        assert_eq!(state.subscribe(""), Err(SessionFault::NotEstablished));
    }
}

#[test]
fn an_empty_topic_is_malformed() {
    assert_eq!(SessionState::Connected.subscribe(""), Err(SessionFault::MalformedTopic));
}

#[test]
fn a_session_error_terminates_from_every_state() {
    for state in [
        SessionState::Disconnected,
        SessionState::Connected,
        SessionState::Subscribed,
        SessionState::Terminated,
    ] {
        assert_eq!(state.observed(&error_event()), SessionState::Terminated);
    }
}

#[test]
fn other_events_leave_the_session_as_it_is() {
    for state in [
        SessionState::Disconnected,
        SessionState::Connected,
        SessionState::Subscribed,
        SessionState::Terminated,
    ] {
        assert_eq!(state.observed(&message_event()), state);
        assert_eq!(state.observed(&SessionEvent::Other), state);
    }
}

#[test]
fn startup_runs_from_disconnected_to_subscribed() {
    let state = SessionState::initial().established();
    let (state, subscription) = state.subscribe("/broker_alive").unwrap();
    assert_eq!(state, SessionState::Subscribed);
    assert_eq!(subscription.topic, "/broker_alive");
    assert_eq!(state.observed(&message_event()), SessionState::Subscribed);
    assert_eq!(state.observed(&error_event()), SessionState::Terminated);
}
