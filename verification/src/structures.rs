//! The payloads that cross the HTTP boundary.

use vstd::prelude::*;

verus! {

/// What a notification asks for.
#[derive(Clone, Copy, Debug, PartialEq, Eq, Structural)]
pub enum HookAction {
    Subscribe,
    Unsubscribe,
    /// Any event type this bridge does not act on.
    Other,
}

impl HookAction {
    /// The action that an event-type name stands for. Only the exact,
    /// lower-case names `subscribe` and `unsubscribe` are recognised.
    pub open spec fn of_name(name: Seq<char>) -> HookAction {
        if name == "subscribe"@ {
            HookAction::Subscribe
        } else if name == "unsubscribe"@ {
            HookAction::Unsubscribe
        } else {
            HookAction::Other
        }
    }

    /// Decodes the event-type name of a payload. An unknown name is no
    /// error: it decodes to [`HookAction::Other`].
    pub fn from_name(name: &str) -> (action: HookAction)
        ensures
            action == HookAction::of_name(name@),
    {
        let given = name.to_owned();
        if given == "subscribe".to_owned() {
            HookAction::Subscribe
        } else if given == "unsubscribe".to_owned() {
            HookAction::Unsubscribe
        } else {
            HookAction::Other
        }
    }
}

/// A list-membership notification: the action and the address it is about.
#[derive(Clone, Debug, PartialEq, Eq)]
pub struct HookBody {
    pub action: HookAction,
    pub email: String,
}

/// The mathematical value of a [`HookBody`].
pub struct HookBodyView {
    pub action: HookAction,
    pub email: Seq<char>,
}

impl View for HookBody {
    type V = HookBodyView;

    open spec fn view(&self) -> HookBodyView {
        HookBodyView { action: self.action, email: self.email@ }
    }
}

impl HookBody {
    /// Builds a notification from the two fields of a payload.
    pub fn new(action_name: &str, email: &str) -> (body: HookBody)
        ensures
            body@ == (HookBodyView { action: HookAction::of_name(action_name@), email: email@ }),
    {
        HookBody { action: HookAction::from_name(action_name), email: email.to_owned() }
    }
}

/// The answer of the id lookup: the permission id that the remote service
/// knows an address by.
#[derive(Clone, Debug, PartialEq, Eq)]
pub struct GetIdForEmailResponse {
    pub id: String,
}

/// A refusal that carries nothing but its message.
#[derive(Clone, PartialEq, Eq)]
pub struct StringRejection {
    pub message: String,
}

impl StringRejection {
    pub fn new(message: &str) -> (rejection: StringRejection)
        ensures
            rejection.message@ == message@,
    {
        StringRejection { message: message.to_owned() }
    }

    /// The text shown for this rejection when it is printed for debugging:
    /// the bare message.
    pub fn debug_text(&self) -> (text: String)
        ensures
            text@ == self.message@,
    {
        self.message.clone()
    }
}

/// The JSON body of an error reply.
#[derive(Clone, Debug, PartialEq, Eq)]
pub struct ErrorMessage {
    pub code: u16,
    pub message: String,
}

} // verus!
