use desktop_core::approval::{response_or_deny, ApprovalBridge};

#[test]
fn round_trip_returns_the_delivered_decision() {
    let mut bridge = ApprovalBridge::new();
    assert!(bridge.begin_confirm("cred-1"));
    assert_eq!(
        bridge.pending_request().map(|s| s.as_str()),
        Some("cred-1"),
        "the UI sees the credential id of the in-flight request"
    );
    assert!(bridge.complete_confirm().is_none(), "no decision delivered yet");
    bridge.deliver_response(true);
    assert_eq!(bridge.complete_confirm(), Some(true));
    assert!(bridge.pending_request().is_none());
}

#[test]
fn serialized_confirms_never_cross_deliver() {
    let mut bridge = ApprovalBridge::new();

    assert!(bridge.begin_confirm("cred-a"));
    assert!(
        !bridge.begin_confirm("cred-b"),
        "a second confirm must wait while the first holds the response end"
    );
    bridge.deliver_response(true);
    assert_eq!(bridge.complete_confirm(), Some(true), "the first answer belongs to A");

    assert!(bridge.begin_confirm("cred-b"));
    bridge.deliver_response(false);
    assert_eq!(bridge.complete_confirm(), Some(false), "the second answer belongs to B");
}

#[test]
fn closed_channel_refuses_new_requests() {
    let mut bridge = ApprovalBridge::new();
    bridge.close_channel();
    assert!(!bridge.begin_confirm("cred-1"));
}

#[test]
fn close_during_flight_denies_the_pending_request() {
    let mut bridge = ApprovalBridge::new();
    assert!(bridge.begin_confirm("cred-1"));
    bridge.close_channel();
    assert_eq!(
        bridge.complete_confirm(),
        Some(false),
        "an in-flight request on a closed channel is denied, not retried"
    );
}

#[test]
fn decisions_on_a_closed_channel_are_dropped() {
    let mut bridge = ApprovalBridge::new();
    assert!(bridge.begin_confirm("cred-1"));
    bridge.close_channel();
    bridge.deliver_response(true);
    assert_eq!(bridge.complete_confirm(), Some(false));
}

#[test]
fn complete_without_holder_consumes_nothing() {
    let mut bridge = ApprovalBridge::new();
    bridge.deliver_response(true);
    assert!(bridge.complete_confirm().is_none());
    assert!(bridge.begin_confirm("cred-1"));
    assert_eq!(bridge.complete_confirm(), Some(true));
}

#[test]
fn missing_answer_is_a_denial() {
    assert!(response_or_deny(Some(true)));
    assert!(!response_or_deny(Some(false)));
    assert!(!response_or_deny(None));
}
