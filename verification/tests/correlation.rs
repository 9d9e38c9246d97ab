use screencast_core::correlation::CorrelationTable;
use screencast_core::protocol::{ResponseKind, SignalPayload};

#[test]
fn unmatched_complete_is_a_no_op() {
    let mut t = CorrelationTable::new();
    assert!(t.issue("alpha".to_owned(), ResponseKind::Ack));
    assert!(t.issue("beta".to_owned(), ResponseKind::Streams));
    assert_eq!(t.len(), 2);

    let r = t.complete(&"gamma".to_owned(), SignalPayload::Ack);
    assert!(r.is_none());
    assert_eq!(t.len(), 2);

    // the outstanding requests are still matchable afterwards
    let r = t.complete(&"alpha".to_owned(), SignalPayload::Ack);
    assert!(r.is_some());
    assert_eq!(t.len(), 1);
}

#[test]
fn unmatched_complete_on_empty_table() {
    let mut t = CorrelationTable::new();
    let r = t.complete(&"anything".to_owned(), SignalPayload::Ack);
    assert!(r.is_none());
    assert_eq!(t.len(), 0);
}

#[test]
fn matched_complete_returns_request_and_payload() {
    let mut t = CorrelationTable::new();
    assert!(t.issue("tok".to_owned(), ResponseKind::SessionHandle));
    let r = t.complete(
        &"tok".to_owned(),
        SignalPayload::SessionHandle("/org/portal/session_1".to_owned()),
    );
    let (req, payload) = r.expect("outstanding token must match");
    assert_eq!(req.token, "tok");
    assert_eq!(req.expects, ResponseKind::SessionHandle);
    match payload {
        SignalPayload::SessionHandle(h) => assert_eq!(h, "/org/portal/session_1"),
        _ => panic!("payload must be handed back unchanged"),
    }
    assert_eq!(t.len(), 0);

    // a second completion under the same token no longer matches
    let r = t.complete(&"tok".to_owned(), SignalPayload::Ack);
    assert!(r.is_none());
}

#[test]
fn duplicate_token_is_refused() {
    let mut t = CorrelationTable::new();
    assert!(t.issue("tok".to_owned(), ResponseKind::Ack));
    assert!(!t.issue("tok".to_owned(), ResponseKind::Streams));
    assert_eq!(t.len(), 1);
    // the original request is untouched
    let (req, _) = t.complete(&"tok".to_owned(), SignalPayload::Ack).unwrap();
    assert_eq!(req.expects, ResponseKind::Ack);
}
