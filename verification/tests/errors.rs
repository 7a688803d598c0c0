use gh_notifier::errors::RuntimeErrors;
use gh_notifier::notify::NotificationParamsBuilderError;

#[test]
fn message_of_a_missing_credential() {
    let error = RuntimeErrors::MissingCredential("GH_NOTIFIER_TOKEN".to_string());
    assert_eq!(error.message(), "environment variable not found");
}

#[test]
fn message_of_a_connection_error() {
    let error = RuntimeErrors::ConnectionError("connection refused".to_string());
    assert_eq!(error.message(), "Request Error: None");
}

#[test]
fn message_of_an_api_error_shows_the_status() {
    let message = |status: u16| {
        RuntimeErrors::ApiError { status, body: "ignored".to_string() }.message()
    };
    assert_eq!(message(401), "Request Error: Some(401)");
    assert_eq!(message(0), "Request Error: Some(0)");
    assert_eq!(message(7), "Request Error: Some(7)");
    assert_eq!(message(10), "Request Error: Some(10)");
    assert_eq!(message(503), "Request Error: Some(503)");
    assert_eq!(message(1000), "Request Error: Some(1000)");
    assert_eq!(message(65535), "Request Error: Some(65535)");
}

#[test]
fn message_of_a_decode_error() {
    let error = RuntimeErrors::DecodeError("expected value at line 1".to_string());
    assert_eq!(error.message(), "Request Error: None");
}

#[test]
fn message_of_a_persistence_error_is_its_reason() {
    let error = RuntimeErrors::PersistenceError("Permission denied (os error 13)".to_string());
    assert_eq!(error.message(), "Permission denied (os error 13)");
}

#[test]
fn message_of_a_dispatch_error_is_its_reason() {
    let error = RuntimeErrors::NotificationDispatchError("`title` must be initialized".to_string());
    assert_eq!(error.message(), "`title` must be initialized");
}

#[test]
fn builder_error_becomes_a_dispatch_error() {
    let error = RuntimeErrors::from_builder(&NotificationParamsBuilderError::UninitializedField(
        "subtitle",
    ));
    assert_eq!(
        error,
        RuntimeErrors::NotificationDispatchError("`subtitle` must be initialized".to_string())
    );
}
