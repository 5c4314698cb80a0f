//! The states in which the handling of a notification waits for the
//! outside world, and what it waits for.
//!
//! Handling a notification never blocks. It runs until it needs an access
//! token or the answer to a call, hands back a [`Step`] that says which,
//! and goes on when it is resumed with the outcome.

use crate::drive::{ApiCall, ApiCallView, ApiRequest};
use crate::error::{ErrorKind, ErrorKindView};
use crate::targets::{texts, TargetResourceSet};
use vstd::prelude::*;

verus! {

/// What an access token is wanted for.
#[derive(Clone, Copy, Debug, PartialEq, Eq, Structural)]
pub enum Operation {
    Grant,
    Revoke,
}

/// Handling waits for an access token.
#[derive(Debug, PartialEq, Eq)]
pub struct TokenWait {
    pub operation: Operation,
    pub email: String,
    /// The resources to fan out over.
    pub targets: TargetResourceSet,
}

/// The mathematical value of a [`TokenWait`].
pub struct TokenWaitView {
    pub operation: Operation,
    pub email: Seq<char>,
    pub targets: Seq<Seq<char>>,
}

impl View for TokenWait {
    type V = TokenWaitView;

    open spec fn view(&self) -> TokenWaitView {
        TokenWaitView {
            operation: self.operation,
            email: self.email@,
            targets: self.targets@,
        }
    }
}

/// Handling waits for the answer to one call.
#[derive(Clone, Debug, PartialEq, Eq)]
pub enum CallWait {
    /// A permission is being created on `resource_id`; `remaining` are the
    /// resources still to come.
    Granting { email: String, token: String, resource_id: String, remaining: Vec<String> },
    /// The permission id of `email` is being looked up; no resource has
    /// been touched yet.
    Resolving { email: String, token: String, targets: Vec<String> },
    /// The permission `permission_id` is being deleted on `resource_id`;
    /// `remaining` are the resources still to come.
    Revoking {
        email: String,
        token: String,
        permission_id: String,
        resource_id: String,
        remaining: Vec<String>,
    },
}

/// The mathematical value of a [`CallWait`].
pub enum CallWaitView {
    Granting {
        email: Seq<char>,
        token: Seq<char>,
        resource_id: Seq<char>,
        remaining: Seq<Seq<char>>,
    },
    Resolving { email: Seq<char>, token: Seq<char>, targets: Seq<Seq<char>> },
    Revoking {
        email: Seq<char>,
        token: Seq<char>,
        permission_id: Seq<char>,
        resource_id: Seq<char>,
        remaining: Seq<Seq<char>>,
    },
}

impl View for CallWait {
    type V = CallWaitView;

    open spec fn view(&self) -> CallWaitView {
        match self {
            CallWait::Granting { email, token, resource_id, remaining } => CallWaitView::Granting {
                email: email@,
                token: token@,
                resource_id: resource_id@,
                remaining: texts(remaining@),
            },
            CallWait::Resolving { email, token, targets } => CallWaitView::Resolving {
                email: email@,
                token: token@,
                targets: texts(targets@),
            },
            CallWait::Revoking { email, token, permission_id, resource_id, remaining } =>
                CallWaitView::Revoking {
                    email: email@,
                    token: token@,
                    permission_id: permission_id@,
                    resource_id: resource_id@,
                    remaining: texts(remaining@),
                },
        }
    }
}

impl CallWaitView {
    /// The call whose answer is waited for.
    pub open spec fn call(self) -> ApiCallView {
        match self {
            CallWaitView::Granting { email, resource_id, .. } => ApiCallView::CreatePermission {
                resource_id,
                email,
            },
            CallWaitView::Resolving { email, .. } => ApiCallView::ResolveId { email },
            CallWaitView::Revoking { permission_id, resource_id, .. } =>
                ApiCallView::DeletePermission { resource_id, permission_id },
        }
    }

    /// The token that the call is authenticated with.
    pub open spec fn token(self) -> Seq<char> {
        match self {
            CallWaitView::Granting { token, .. } => token,
            CallWaitView::Resolving { token, .. } => token,
            CallWaitView::Revoking { token, .. } => token,
        }
    }
}

impl CallWait {
    /// The call whose answer is waited for.
    pub fn call(&self) -> (call: ApiCall)
        ensures
            call@ == self@.call(),
    {
        match self {
            CallWait::Granting { email, resource_id, .. } => ApiCall::CreatePermission {
                resource_id: resource_id.clone(),
                email: email.clone(),
            },
            CallWait::Resolving { email, .. } => ApiCall::ResolveId { email: email.clone() },
            CallWait::Revoking { permission_id, resource_id, .. } => ApiCall::DeletePermission {
                resource_id: resource_id.clone(),
                permission_id: permission_id.clone(),
            },
        }
    }

    /// The call whose answer is waited for, as it goes over the wire.
    pub fn request(&self) -> (request: ApiRequest)
        ensures
            request@ == self@.call().request(self@.token()),
    {
        let call = self.call();
        match self {
            CallWait::Granting { token, .. } => call.request(token.as_str()),
            CallWait::Resolving { token, .. } => call.request(token.as_str()),
            CallWait::Revoking { token, .. } => call.request(token.as_str()),
        }
    }
}

/// How a call ended.
#[derive(Clone, Debug, PartialEq, Eq)]
pub enum CallOutcome {
    /// The service answered with this status code and body.
    Responded { status: u16, body: String },
    /// No answer came back.
    Unanswered,
}

/// The mathematical value of a [`CallOutcome`].
pub enum CallOutcomeView {
    Responded { status: u16, body: Seq<char> },
    Unanswered,
}

impl View for CallOutcome {
    type V = CallOutcomeView;

    open spec fn view(&self) -> CallOutcomeView {
        match self {
            CallOutcome::Responded { status, body } => CallOutcomeView::Responded {
                status: *status,
                body: body@,
            },
            CallOutcome::Unanswered => CallOutcomeView::Unanswered,
        }
    }
}

/// Where the handling of a notification stands.
#[derive(Debug, PartialEq, Eq)]
pub enum Step {
    /// An access token for [`crate::drive::drive_scope`] is needed.
    NeedToken(TokenWait),
    /// The answer to a call is needed.
    NeedCall(CallWait),
    /// Handling is over, with this result.
    Done(Result<(), ErrorKind>),
}

/// The mathematical value of a [`Step`].
pub enum StepView {
    NeedToken(TokenWaitView),
    NeedCall(CallWaitView),
    Done(Result<(), ErrorKindView>),
}

/// The mathematical value of a final result.
pub open spec fn result_view(result: Result<(), ErrorKind>) -> Result<(), ErrorKindView> {
    match result {
        Ok(_) => Ok(()),
        Err(error) => Err(error@),
    }
}

impl View for Step {
    type V = StepView;

    open spec fn view(&self) -> StepView {
        match self {
            Step::NeedToken(wait) => StepView::NeedToken(wait@),
            Step::NeedCall(wait) => StepView::NeedCall(wait@),
            Step::Done(result) => StepView::Done(result_view(*result)),
        }
    }
}

} // verus!
