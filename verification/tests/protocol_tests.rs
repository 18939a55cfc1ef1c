use monochrome_presence::protocol::{
    pending_action, start_delivery, step_delivery, DeliveryAction, DeliveryEvent, DeliveryState,
    PresenceError,
};

fn finished_outcome(state: DeliveryState) -> Result<(), PresenceError> {
    match state {
        DeliveryState::Finished { outcome } => outcome,
        _ => panic!("delivery is not finished"),
    }
}

#[test]
fn uninitialized_session_fails_at_once() {
    let state = start_delivery(false);
    assert!(matches!(pending_action(&state), DeliveryAction::Finish));
    let err = finished_outcome(state).expect_err("no session must fail");
    assert!(matches!(err, PresenceError::SessionUninitialized));
    assert_eq!(err.message(), "Discord client not initialized");
}

#[test]
fn clean_send_finishes_silently() {
    let state = start_delivery(true);
    assert!(matches!(pending_action(&state), DeliveryAction::AttemptSend));
    let state = step_delivery(state, DeliveryEvent::SendSucceeded);
    assert!(finished_outcome(state).is_ok());
}

#[test]
fn failed_send_then_reconnect_then_retry_succeeds() {
    let state = start_delivery(true);
    let state = step_delivery(state, DeliveryEvent::SendFailed { error: "pipe closed".to_string() });
    assert!(matches!(pending_action(&state), DeliveryAction::CloseThenReconnect));
    let state = step_delivery(state, DeliveryEvent::ReconnectSucceeded);
    assert!(matches!(pending_action(&state), DeliveryAction::AttemptSend));
    let state = step_delivery(state, DeliveryEvent::SendSucceeded);
    assert!(finished_outcome(state).is_ok());
}

#[test]
fn failed_reconnect_reports_the_original_send_error() {
    let state = start_delivery(true);
    let state = step_delivery(state, DeliveryEvent::SendFailed { error: "boom".to_string() });
    let state = step_delivery(
        state,
        DeliveryEvent::ReconnectFailed { error: "socket missing".to_string() },
    );
    let err = finished_outcome(state).expect_err("failed reconnect must fail the call");
    match &err {
        PresenceError::ReconnectFailed(original) => assert_eq!(original, "boom"),
        _ => panic!("wrong error variant"),
    }
    assert_eq!(err.message(), "Failed to connect to Discord: boom");
}

#[test]
fn failed_retry_reports_the_retry_error() {
    let state = start_delivery(true);
    let state = step_delivery(state, DeliveryEvent::SendFailed { error: "boom".to_string() });
    let state = step_delivery(state, DeliveryEvent::ReconnectSucceeded);
    let state = step_delivery(state, DeliveryEvent::SendFailed { error: "still down".to_string() });
    let err = finished_outcome(state).expect_err("failed retry must fail the call");
    match &err {
        PresenceError::RetrySendFailed(text) => assert_eq!(text, "still down"),
        _ => panic!("wrong error variant"),
    }
    assert_eq!(err.message(), "still down");
}

#[test]
fn lock_poisoning_has_its_own_message() {
    assert_eq!(PresenceError::LockPoisoned.message(), "Failed to lock mutex");
}
