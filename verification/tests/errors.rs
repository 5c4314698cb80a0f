use mailchimp_drive::error::{ErrorKind, IdResolutionFailure};

#[test]
fn an_oauth_report_becomes_an_auth_error() {
    assert_eq!(
        ErrorKind::from_oauth("invalid_grant"),
        ErrorKind::AuthError("OAuth Error: invalid_grant".to_string())
    );
    assert_eq!(ErrorKind::from_oauth(""), ErrorKind::AuthError("OAuth Error: ".to_string()));
}

#[test]
fn auth_error_message() {
    let error = ErrorKind::from_oauth("invalid_grant");
    assert_eq!(
        error.message(),
        "Part of the token authentication process failed: `OAuth Error: invalid_grant`"
    );
}

#[test]
fn id_resolution_error_messages() {
    assert_eq!(
        ErrorKind::IdResolutionError(IdResolutionFailure::MissingField).message(),
        "Part of the ID Retrieval process failed: `Response from server missing id field`"
    );
    assert_eq!(
        ErrorKind::IdResolutionError(IdResolutionFailure::WrongType).message(),
        "Part of the ID Retrieval process failed: `Response from server has ID field but it is not a string`"
    );
    assert_eq!(
        ErrorKind::IdResolutionError(IdResolutionFailure::UnparseableBody).message(),
        "Part of the ID Retrieval process failed: `Response from server not valid JSON`"
    );
}

#[test]
fn diagnostics_tell_the_failures_apart() {
    let texts = [
        IdResolutionFailure::MissingField.describe(),
        IdResolutionFailure::WrongType.describe(),
        IdResolutionFailure::UnparseableBody.describe(),
    ];
    assert_eq!(texts[0], "Response from server missing id field");
    assert_eq!(texts[1], "Response from server has ID field but it is not a string");
    assert_eq!(texts[2], "Response from server not valid JSON");
    assert_ne!(texts[0], texts[1]);
    assert_ne!(texts[1], texts[2]);
    assert_ne!(texts[0], texts[2]);
}

#[test]
fn remote_api_error_message_names_resource_and_subject() {
    let error = ErrorKind::RemoteApiError {
        resource_id: "driveA".to_string(),
        email: "a@b.com".to_string(),
    };
    assert_eq!(error.message(), "Server did not respond with 2xx: `a@b.com on driveA`");
}

#[test]
fn unsupported_action_message() {
    assert_eq!(ErrorKind::UnsupportedActionError.message(), "Unsupported action type");
}

#[test]
fn only_an_unsupported_action_is_the_senders_fault() {
    assert!(ErrorKind::UnsupportedActionError.is_client_fault());
    assert!(!ErrorKind::AuthError("x".to_string()).is_client_fault());
    assert!(!ErrorKind::IdResolutionError(IdResolutionFailure::MissingField).is_client_fault());
    assert!(!ErrorKind::IdResolutionError(IdResolutionFailure::WrongType).is_client_fault());
    assert!(!ErrorKind::IdResolutionError(IdResolutionFailure::UnparseableBody).is_client_fault());
    assert!(!ErrorKind::RemoteApiError { resource_id: "r".to_string(), email: "e".to_string() }
        .is_client_fault());
}
