use mailchimp_drive::structures::{HookAction, HookBody, StringRejection};

#[test]
fn subscribe_is_recognised() {
    assert_eq!(HookAction::from_name("subscribe"), HookAction::Subscribe);
}

#[test]
fn unsubscribe_is_recognised() {
    assert_eq!(HookAction::from_name("unsubscribe"), HookAction::Unsubscribe);
}

#[test]
fn other_event_types_decode_to_other() {
    for name in ["cleaned", "profile", "upemail", "campaign", ""] {
        assert_eq!(HookAction::from_name(name), HookAction::Other, "{:?}", name);
    }
}

#[test]
fn action_names_are_case_sensitive() {
    assert_eq!(HookAction::from_name("Subscribe"), HookAction::Other);
    assert_eq!(HookAction::from_name("SUBSCRIBE"), HookAction::Other);
    assert_eq!(HookAction::from_name("UnSubscribe"), HookAction::Other);
}

#[test]
fn action_names_are_matched_whole() {
    assert_eq!(HookAction::from_name("subscribe "), HookAction::Other);
    assert_eq!(HookAction::from_name(" subscribe"), HookAction::Other);
    assert_eq!(HookAction::from_name("subscribed"), HookAction::Other);
    assert_eq!(HookAction::from_name("subscrib"), HookAction::Other);
    assert_eq!(HookAction::from_name("unsubscribe\n"), HookAction::Other);
}

#[test]
fn a_notification_keeps_its_address() {
    let body = HookBody::new("subscribe", "a@b.com");
    assert_eq!(body, HookBody { action: HookAction::Subscribe, email: "a@b.com".to_string() });
    let body = HookBody::new("cleaned", "Ünï@ćode.example");
    assert_eq!(body.action, HookAction::Other);
    assert_eq!(body.email, "Ünï@ćode.example");
}

#[test]
fn a_rejection_prints_as_its_message() {
    let rejection = StringRejection::new("Unsupported action type");
    assert_eq!(rejection.message, "Unsupported action type");
    assert_eq!(rejection.debug_text(), "Unsupported action type");
    assert_eq!(StringRejection::new("").debug_text(), "");
}
