use frame::error::BridgeError;

#[test]
fn errors_surfaced_to_the_caller() {
    assert!(BridgeError::InvalidPayload.is_surfaced());
    assert!(BridgeError::ChannelClosed.is_surfaced());
    assert!(BridgeError::SurfaceCreationFailure("no display".to_string()).is_surfaced());
}

#[test]
fn errors_reported_and_swallowed() {
    assert!(!BridgeError::CallbackFailure("boom".to_string()).is_surfaced());
    assert!(!BridgeError::ScriptEvaluationFailure("bad".to_string()).is_surfaced());
}

#[test]
fn error_messages_have_exact_text() {
    assert_eq!(BridgeError::InvalidPayload.message(), "invalid payload");
    assert_eq!(BridgeError::ChannelClosed.message(), "channel closed");
    assert_eq!(
        BridgeError::CallbackFailure("TypeError".to_string()).message(),
        "callback failed: TypeError"
    );
    assert_eq!(
        BridgeError::SurfaceCreationFailure("no display".to_string()).message(),
        "surface creation failed: no display"
    );
    assert_eq!(
        BridgeError::ScriptEvaluationFailure("x is not defined".to_string()).message(),
        "script evaluation failed: x is not defined"
    );
    assert_eq!(BridgeError::CallbackFailure(String::new()).message(), "callback failed: ");
}
