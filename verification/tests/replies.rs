use mailchimp_drive::error::{ErrorKind, IdResolutionFailure};
use mailchimp_drive::hook::{
    handle_rejection, reject, reply_status, Rejection, BAD_REQUEST, INTERNAL_SERVER_ERROR,
    NOT_FOUND, OK,
};
use mailchimp_drive::structures::{ErrorMessage, StringRejection};

fn reply(code: u16, message: &str) -> ErrorMessage {
    ErrorMessage { code, message: message.to_string() }
}

#[test]
fn status_codes() {
    assert_eq!(OK, 200);
    assert_eq!(BAD_REQUEST, 400);
    assert_eq!(NOT_FOUND, 404);
    assert_eq!(INTERNAL_SERVER_ERROR, 500);
}

#[test]
fn an_unknown_path_is_answered_with_not_found() {
    assert_eq!(handle_rejection(&Rejection::NotFound), reply(404, "NOT_FOUND"));
}

#[test]
fn a_refusal_is_answered_with_bad_request_and_its_message() {
    let rejection = Rejection::Refused(StringRejection::new("Unsupported action type"));
    assert_eq!(handle_rejection(&rejection), reply(400, "Unsupported action type"));
}

#[test]
fn a_failure_is_answered_with_a_server_error_and_its_message() {
    let rejection = Rejection::Failed(StringRejection::new("boom"));
    assert_eq!(handle_rejection(&rejection), reply(500, "boom"));
}

#[test]
fn anything_else_is_answered_as_unhandled() {
    assert_eq!(handle_rejection(&Rejection::Unhandled), reply(500, "UNHANDLED_REJECTION"));
}

#[test]
fn an_unsupported_action_is_refused() {
    let rejection = reject(&ErrorKind::UnsupportedActionError);
    assert!(rejection == Rejection::Refused(StringRejection::new("Unsupported action type")));
    assert_eq!(handle_rejection(&rejection), reply(400, "Unsupported action type"));
}

#[test]
fn every_other_error_is_a_failure() {
    let errors = vec![
        ErrorKind::AuthError("OAuth Error: denied".to_string()),
        ErrorKind::IdResolutionError(IdResolutionFailure::MissingField),
        ErrorKind::IdResolutionError(IdResolutionFailure::WrongType),
        ErrorKind::IdResolutionError(IdResolutionFailure::UnparseableBody),
        ErrorKind::RemoteApiError { resource_id: "driveA".to_string(), email: "a@b.com".to_string() },
    ];
    for error in errors {
        let rejection = reject(&error);
        assert!(rejection == Rejection::Failed(StringRejection::new(&error.message())));
        assert_eq!(handle_rejection(&rejection), reply(500, &error.message()));
    }
}

#[test]
fn a_remote_failure_reply_names_resource_and_subject() {
    let error = ErrorKind::RemoteApiError {
        resource_id: "driveA".to_string(),
        email: "a@b.com".to_string(),
    };
    assert_eq!(
        handle_rejection(&reject(&error)),
        reply(500, "Server did not respond with 2xx: `a@b.com on driveA`")
    );
}

#[test]
fn the_status_tells_success_refusal_and_failure_apart() {
    assert_eq!(reply_status(&Ok(())), 200);
    assert_eq!(reply_status(&Err(ErrorKind::UnsupportedActionError)), 400);
    assert_eq!(reply_status(&Err(ErrorKind::AuthError("x".to_string()))), 500);
    assert_eq!(
        reply_status(&Err(ErrorKind::IdResolutionError(IdResolutionFailure::MissingField))),
        500
    );
    assert_eq!(
        reply_status(&Err(ErrorKind::RemoteApiError {
            resource_id: "r".to_string(),
            email: "e".to_string()
        })),
        500
    );
}

#[test]
fn the_status_agrees_with_the_reply() {
    let errors = vec![
        ErrorKind::UnsupportedActionError,
        ErrorKind::AuthError("x".to_string()),
        ErrorKind::IdResolutionError(IdResolutionFailure::WrongType),
    ];
    for error in errors {
        let code = handle_rejection(&reject(&error)).code;
        assert_eq!(reply_status(&Err(error)), code);
    }
}
