//! The ways in which handling a notification can fail.

use vstd::prelude::*;
use vstd::string::*;

verus! {

/// Why the answer of the id lookup gave no permission id.
#[derive(Clone, Copy, Debug, PartialEq, Eq, Structural)]
pub enum IdResolutionFailure {
    /// The answer is a JSON object without an `id` member.
    MissingField,
    /// The `id` member is there, but it is no JSON string.
    WrongType,
    /// The answer is no JSON object: it is not JSON at all, it is JSON of
    /// another kind, or no answer could be read.
    UnparseableBody,
}

impl IdResolutionFailure {
    /// The diagnostic for this failure.
    pub open spec fn diagnostic(self) -> Seq<char> {
        match self {
            IdResolutionFailure::MissingField => "Response from server missing id field"@,
            IdResolutionFailure::WrongType =>
                "Response from server has ID field but it is not a string"@,
            IdResolutionFailure::UnparseableBody => "Response from server not valid JSON"@,
        }
    }

    /// Writes the diagnostic out.
    pub fn describe(self) -> (text: String)
        ensures
            text@ == self.diagnostic(),
    {
        match self {
            IdResolutionFailure::MissingField => "Response from server missing id field".to_owned(),
            IdResolutionFailure::WrongType =>
                "Response from server has ID field but it is not a string".to_owned(),
            IdResolutionFailure::UnparseableBody => "Response from server not valid JSON".to_owned(),
        }
    }
}

/// The closed set of failures of this crate.
#[derive(Clone, Debug, PartialEq, Eq)]
pub enum ErrorKind {
    /// No access token could be had; the text says what the issuer reported.
    AuthError(String),
    /// The lookup from address to permission id gave no id.
    IdResolutionError(IdResolutionFailure),
    /// A create or delete call for `email` on `resource_id` did not end in
    /// an HTTP success status.
    RemoteApiError { resource_id: String, email: String },
    /// The notification's action is none that this bridge acts on.
    UnsupportedActionError,
}

/// The mathematical value of an [`ErrorKind`].
pub enum ErrorKindView {
    AuthError(Seq<char>),
    IdResolutionError(IdResolutionFailure),
    RemoteApiError { resource_id: Seq<char>, email: Seq<char> },
    UnsupportedActionError,
}

impl View for ErrorKind {
    type V = ErrorKindView;

    open spec fn view(&self) -> ErrorKindView {
        match self {
            ErrorKind::AuthError(detail) => ErrorKindView::AuthError(detail@),
            ErrorKind::IdResolutionError(failure) => ErrorKindView::IdResolutionError(*failure),
            ErrorKind::RemoteApiError { resource_id, email } => ErrorKindView::RemoteApiError {
                resource_id: resource_id@,
                email: email@,
            },
            ErrorKind::UnsupportedActionError => ErrorKindView::UnsupportedActionError,
        }
    }
}

impl ErrorKindView {
    /// The text of an authentication failure, given what the token issuer
    /// reported.
    pub open spec fn oauth(report: Seq<char>) -> ErrorKindView {
        ErrorKindView::AuthError("OAuth Error: "@ + report)
    }

    /// The message of this error.
    pub open spec fn message(self) -> Seq<char> {
        match self {
            ErrorKindView::AuthError(detail) =>
                "Part of the token authentication process failed: `"@ + detail + "`"@,
            ErrorKindView::IdResolutionError(failure) =>
                "Part of the ID Retrieval process failed: `"@ + failure.diagnostic() + "`"@,
            ErrorKindView::RemoteApiError { resource_id, email } =>
                "Server did not respond with 2xx: `"@ + email + " on "@ + resource_id + "`"@,
            ErrorKindView::UnsupportedActionError => "Unsupported action type"@,
        }
    }

    /// Whether the sender of the notification is at fault, and not this
    /// bridge or the services behind it.
    pub open spec fn is_client_fault(self) -> bool {
        self is UnsupportedActionError
    }
}

impl ErrorKind {
    /// The authentication failure for a report of the token issuer.
    pub fn from_oauth(report: &str) -> (error: ErrorKind)
        ensures
            error@ == ErrorKindView::oauth(report@),
    {
        ErrorKind::AuthError("OAuth Error: ".to_owned().concat(report))
    }

    /// Writes the message of this error out.
    pub fn message(&self) -> (text: String)
        ensures
            text@ == self@.message(),
    {
        match self {
            ErrorKind::AuthError(detail) => {
                "Part of the token authentication process failed: `".to_owned().concat(
                    detail.as_str(),
                ).concat("`")
            },
            ErrorKind::IdResolutionError(failure) => {
                let diagnostic = failure.describe();
                "Part of the ID Retrieval process failed: `".to_owned().concat(
                    diagnostic.as_str(),
                ).concat("`")
            },
            ErrorKind::RemoteApiError { resource_id, email } => {
                "Server did not respond with 2xx: `".to_owned().concat(email.as_str()).concat(
                    " on ",
                ).concat(resource_id.as_str()).concat("`")
            },
            ErrorKind::UnsupportedActionError => "Unsupported action type".to_owned(),
        }
    }

    /// Whether the sender of the notification is at fault.
    pub fn is_client_fault(&self) -> (fault: bool)
        ensures
            fault == self@.is_client_fault(),
    {
        match self {
            ErrorKind::UnsupportedActionError => true,
            _ => false,
        }
    }
}

} // verus!
