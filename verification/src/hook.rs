//! From a notification to the calls it stands for, and from a failure to
//! the reply that reports it.

use crate::drive::{add_user, grant, remove_user, revoke};
use crate::error::{ErrorKind, ErrorKindView};
use crate::step::{result_view, Operation, Step, StepView, TokenWait, TokenWaitView};
use crate::structures::{ErrorMessage, HookAction, HookBody, HookBodyView, StringRejection};
use crate::targets::TargetResourceSet;
use vstd::prelude::*;

verus! {

/// How the handling of a notification starts. A subscription is a grant
/// and a cancellation is a revocation, and either needs an access token
/// first. Any other action fails at once, before anything is asked of the
/// outside world.
pub open spec fn handle(targets: Seq<Seq<char>>, body: HookBodyView) -> StepView {
    match body.action {
        HookAction::Subscribe => StepView::NeedToken(
            TokenWaitView { operation: Operation::Grant, email: body.email, targets },
        ),
        HookAction::Unsubscribe => StepView::NeedToken(
            TokenWaitView { operation: Operation::Revoke, email: body.email, targets },
        ),
        HookAction::Other => StepView::Done(Err(ErrorKindView::UnsupportedActionError)),
    }
}

impl TokenWaitView {
    /// How handling goes on once the token issuer has answered: with the
    /// token, or with its report of why there is none.
    pub open spec fn resume(self, outcome: Result<Seq<char>, Seq<char>>) -> StepView {
        match outcome {
            Ok(token) => match self.operation {
                Operation::Grant => grant(self.targets, self.email, token),
                Operation::Revoke => revoke(self.targets, self.email, token),
            },
            Err(report) => StepView::Done(Err(ErrorKindView::oauth(report))),
        }
    }
}

/// The mathematical value of the token issuer's answer.
pub open spec fn token_view(outcome: Result<String, String>) -> Result<Seq<char>, Seq<char>> {
    match outcome {
        Ok(token) => Ok(token@),
        Err(report) => Err(report@),
    }
}

/// Starts handling a notification for the resources `targets`.
pub fn handle_mailchimp_hook(targets: &TargetResourceSet, body: &HookBody) -> (step: Step)
    ensures
        step@ == handle(targets@, body@),
{
    match body.action {
        HookAction::Subscribe => Step::NeedToken(
            TokenWait {
                operation: Operation::Grant,
                email: body.email.clone(),
                targets: targets.duplicate(),
            },
        ),
        HookAction::Unsubscribe => Step::NeedToken(
            TokenWait {
                operation: Operation::Revoke,
                email: body.email.clone(),
                targets: targets.duplicate(),
            },
        ),
        HookAction::Other => Step::Done(Err(ErrorKind::UnsupportedActionError)),
    }
}

impl TokenWait {
    /// Goes on once the token issuer has answered.
    pub fn resume(self, outcome: Result<String, String>) -> (step: Step)
        ensures
            step@ == self@.resume(token_view(outcome)),
    {
        match outcome {
            Ok(token) => match self.operation {
                Operation::Grant => add_user(&self.targets, self.email, token),
                Operation::Revoke => remove_user(&self.targets, self.email, token),
            },
            Err(report) => Step::Done(Err(ErrorKind::from_oauth(report.as_str()))),
        }
    }
}

/// The status of the reply to a notification that was handled.
pub const OK: u16 = 200;

/// The status of a reply to a request for a path that is not served.
pub const NOT_FOUND: u16 = 404;

/// The status of a reply to a request that its sender got wrong.
pub const BAD_REQUEST: u16 = 400;

/// The status of a reply to a request that failed on this side.
pub const INTERNAL_SERVER_ERROR: u16 = 500;

/// Why a request was not answered with success.
#[derive(Clone, PartialEq, Eq)]
pub enum Rejection {
    /// The request was for a path that is not served.
    NotFound,
    /// The notification was refused: the fault is its sender's.
    Refused(StringRejection),
    /// Handling the notification failed: the fault is on this side.
    Failed(StringRejection),
    /// Anything else.
    Unhandled,
}

/// The mathematical value of a [`Rejection`].
pub enum RejectionView {
    NotFound,
    Refused(Seq<char>),
    Failed(Seq<char>),
    Unhandled,
}

impl View for Rejection {
    type V = RejectionView;

    open spec fn view(&self) -> RejectionView {
        match self {
            Rejection::NotFound => RejectionView::NotFound,
            Rejection::Refused(rejection) => RejectionView::Refused(rejection.message@),
            Rejection::Failed(rejection) => RejectionView::Failed(rejection.message@),
            Rejection::Unhandled => RejectionView::Unhandled,
        }
    }
}

/// The mathematical value of an [`ErrorMessage`].
pub struct ErrorMessageView {
    pub code: u16,
    pub message: Seq<char>,
}

impl View for ErrorMessage {
    type V = ErrorMessageView;

    open spec fn view(&self) -> ErrorMessageView {
        ErrorMessageView { code: self.code, message: self.message@ }
    }
}

impl ErrorKindView {
    /// The rejection that reports this error: an unsupported action is
    /// refused, every other error is a failure. Either carries the error's
    /// message.
    pub open spec fn rejection(self) -> RejectionView {
        if self.is_client_fault() {
            RejectionView::Refused(self.message())
        } else {
            RejectionView::Failed(self.message())
        }
    }
}

impl RejectionView {
    /// The reply for this rejection.
    pub open spec fn reply(self) -> ErrorMessageView {
        match self {
            RejectionView::NotFound => ErrorMessageView { code: NOT_FOUND, message: "NOT_FOUND"@ },
            RejectionView::Refused(message) => ErrorMessageView { code: BAD_REQUEST, message },
            RejectionView::Failed(message) => ErrorMessageView {
                code: INTERNAL_SERVER_ERROR,
                message,
            },
            RejectionView::Unhandled => ErrorMessageView {
                code: INTERNAL_SERVER_ERROR,
                message: "UNHANDLED_REJECTION"@,
            },
        }
    }
}

/// The status that answers a notification whose handling ended in
/// `result`.
pub open spec fn status_of(result: Result<(), ErrorKindView>) -> u16 {
    match result {
        Ok(_) => OK,
        Err(error) => error.rejection().reply().code,
    }
}

/// Only success is answered with [`OK`], and only an unsupported action
/// with [`BAD_REQUEST`]; every other failure is answered with
/// [`INTERNAL_SERVER_ERROR`].
pub proof fn lemma_status_tells_the_outcome(result: Result<(), ErrorKindView>)
    ensures
        status_of(result) == OK <==> result is Ok,
        status_of(result) == BAD_REQUEST <==> result == Err::<(), ErrorKindView>(
            ErrorKindView::UnsupportedActionError,
        ),
        status_of(result) == OK || status_of(result) == BAD_REQUEST || status_of(result)
            == INTERNAL_SERVER_ERROR,
{
}

/// Computes [`status_of`].
pub fn reply_status(result: &Result<(), ErrorKind>) -> (status: u16)
    ensures
        status == status_of(result_view(*result)),
{
    match result {
        Ok(_) => OK,
        Err(error) => {
            if error.is_client_fault() {
                BAD_REQUEST
            } else {
                INTERNAL_SERVER_ERROR
            }
        },
    }
}

/// Turns the error that handling ended in into a rejection.
pub fn reject(error: &ErrorKind) -> (rejection: Rejection)
    ensures
        rejection@ == error@.rejection(),
{
    let message = error.message();
    if error.is_client_fault() {
        Rejection::Refused(StringRejection::new(message.as_str()))
    } else {
        Rejection::Failed(StringRejection::new(message.as_str()))
    }
}

/// Makes the reply for a rejection.
pub fn handle_rejection(rejection: &Rejection) -> (reply: ErrorMessage)
    ensures
        reply@ == rejection@.reply(),
{
    match rejection {
        Rejection::NotFound => ErrorMessage { code: NOT_FOUND, message: "NOT_FOUND".to_owned() },
        Rejection::Refused(refused) => ErrorMessage {
            code: BAD_REQUEST,
            message: refused.message.clone(),
        },
        Rejection::Failed(failed) => ErrorMessage {
            code: INTERNAL_SERVER_ERROR,
            message: failed.message.clone(),
        },
        Rejection::Unhandled => ErrorMessage {
            code: INTERNAL_SERVER_ERROR,
            message: "UNHANDLED_REJECTION".to_owned(),
        },
    }
}

} // verus!
