use screencast_core::protocol::{SignalPayload, StreamDescriptor};
use screencast_core::session::{
    BrokerCall, HandshakeError, Negotiator, SessionError, SessionState, SignalOutcome,
};

fn streams_payload(node_id: u32) -> SignalPayload {
    SignalPayload::Streams(vec![StreamDescriptor {
        node_id,
        properties: vec![("resolution".to_owned(), "1920x1200".to_owned())],
    }])
}

#[test]
fn create_session_match_establishes_session() {
    let mut n = Negotiator::new();

    // phase two is unreachable before phase one's completion is recorded
    assert_eq!(
        n.issue_select_sources("tok-B".to_owned()),
        Err(SessionError::PhaseNotReady)
    );

    let call = n
        .issue_create_session("tok-A".to_owned(), "sess-tok".to_owned())
        .unwrap();
    match call {
        BrokerCall::CreateSession {
            handle_token,
            session_handle_token,
        } => {
            assert_eq!(handle_token, "tok-A");
            assert_eq!(session_handle_token, "sess-tok");
        }
        _ => panic!("phase one must be a CreateSession call"),
    }

    // still no completion recorded: phase two still refused
    assert_eq!(
        n.issue_select_sources("tok-B".to_owned()),
        Err(SessionError::PhaseNotReady)
    );

    let out = n.on_signal(
        "tok-A".to_owned(),
        SignalPayload::SessionHandle("/org/freedesktop/portal/desktop/session_1".to_owned()),
    );
    assert_eq!(out, SignalOutcome::SessionEstablished);
    assert_eq!(
        n.session_handle.as_deref(),
        Some("/org/freedesktop/portal/desktop/session_1")
    );
    assert_eq!(n.state, SessionState::Created);

    // only now is SourcesSelected reachable
    let call = n.issue_select_sources("tok-B".to_owned()).unwrap();
    match call {
        BrokerCall::SelectSources {
            session_handle,
            handle_token,
        } => {
            assert_eq!(session_handle, "/org/freedesktop/portal/desktop/session_1");
            assert_eq!(handle_token, "tok-B");
        }
        _ => panic!("phase two must be a SelectSources call"),
    }
    let out = n.on_signal("tok-B".to_owned(), SignalPayload::Ack);
    assert_eq!(out, SignalOutcome::SourcesRecorded);
    assert_eq!(n.state, SessionState::SourcesSelected);
}

#[test]
fn start_response_selects_first_node() {
    let mut n = Negotiator::new();
    n.issue_create_session("t1".to_owned(), "s1".to_owned()).unwrap();
    n.on_signal(
        "t1".to_owned(),
        SignalPayload::SessionHandle("/sess".to_owned()),
    );
    n.issue_select_sources("t2".to_owned()).unwrap();
    n.on_signal("t2".to_owned(), SignalPayload::Ack);

    let call = n.issue_start("t3".to_owned(), "".to_owned()).unwrap();
    match call {
        BrokerCall::Start {
            session_handle,
            parent_window,
            handle_token,
        } => {
            assert_eq!(session_handle, "/sess");
            assert_eq!(parent_window, "");
            assert_eq!(handle_token, "t3");
        }
        _ => panic!("phase three must be a Start call"),
    }

    let out = n.on_signal("t3".to_owned(), streams_payload(42));
    assert_eq!(out, SignalOutcome::StreamsRecorded(42));
    assert_eq!(n.state, SessionState::Started);
    assert_eq!(n.streams[0].node_id, 42);
    assert_eq!(n.streams[0].properties[0].0, "resolution");
    assert_eq!(n.streams[0].properties[0].1, "1920x1200");

    assert_eq!(n.begin_streaming(), Ok(42));
    assert_eq!(n.state, SessionState::Streaming);
}

#[test]
fn unrelated_signals_are_ignored() {
    let mut n = Negotiator::new();
    n.issue_create_session("t1".to_owned(), "s1".to_owned()).unwrap();

    // the broker may emit signals the negotiator is not awaiting
    let out = n.on_signal("stray".to_owned(), SignalPayload::Ack);
    assert_eq!(out, SignalOutcome::Ignored);
    assert_eq!(n.state, SessionState::Created);

    // the awaited signal still matches afterwards
    let out = n.on_signal(
        "t1".to_owned(),
        SignalPayload::SessionHandle("/sess".to_owned()),
    );
    assert_eq!(out, SignalOutcome::SessionEstablished);
}

#[test]
fn wrong_shape_signal_is_fatal() {
    let mut n = Negotiator::new();
    n.issue_create_session("t1".to_owned(), "s1".to_owned()).unwrap();
    // the awaited establishment signal arrives without a handle
    let out = n.on_signal("t1".to_owned(), SignalPayload::Ack);
    assert_eq!(out, SignalOutcome::Fatal);
    assert_eq!(n.state, SessionState::Closed);
    assert_eq!(
        n.issue_select_sources("t2".to_owned()),
        Err(SessionError::SessionClosed)
    );
}

#[test]
fn empty_stream_list_is_fatal() {
    let mut n = Negotiator::new();
    n.issue_create_session("t1".to_owned(), "s1".to_owned()).unwrap();
    n.on_signal(
        "t1".to_owned(),
        SignalPayload::SessionHandle("/sess".to_owned()),
    );
    n.issue_select_sources("t2".to_owned()).unwrap();
    n.on_signal("t2".to_owned(), SignalPayload::Ack);
    n.issue_start("t3".to_owned(), "".to_owned()).unwrap();

    let out = n.on_signal("t3".to_owned(), SignalPayload::Streams(vec![]));
    assert_eq!(out, SignalOutcome::Fatal);
    assert_eq!(n.state, SessionState::Closed);
}

#[test]
fn issue_errors_name_their_cause() {
    let mut n = Negotiator::new();
    n.issue_create_session("t1".to_owned(), "s1".to_owned()).unwrap();

    // a second create is refused
    assert_eq!(
        n.issue_create_session("t9".to_owned(), "s9".to_owned()),
        Err(SessionError::AlreadyIssued)
    );

    n.on_signal(
        "t1".to_owned(),
        SignalPayload::SessionHandle("/sess".to_owned()),
    );

    // phase three before phase two's completion
    assert_eq!(
        n.issue_start("t3".to_owned(), "".to_owned()),
        Err(SessionError::PhaseNotReady)
    );

    // binding the stream before start completion
    assert_eq!(n.begin_streaming(), Err(SessionError::PhaseNotReady));

    // a token already outstanding is refused
    n.issue_select_sources("dup".to_owned()).unwrap();
    assert_eq!(
        n.issue_select_sources("dup".to_owned()),
        Err(SessionError::DuplicateToken)
    );
    // the select-sources completion has not arrived, so "dup" is still pending;
    // re-using it after that phase completes is a duplicate only while pending
    let mut m = Negotiator::new();
    m.issue_create_session("same".to_owned(), "s".to_owned()).unwrap();
    assert_eq!(
        m.issue_select_sources("same".to_owned()),
        Err(SessionError::PhaseNotReady)
    );
    m.on_signal(
        "same".to_owned(),
        SignalPayload::SessionHandle("/sess".to_owned()),
    );
    // "same" was consumed by the match, so it is fresh again
    assert!(m.issue_select_sources("same".to_owned()).is_ok());
}

#[test]
fn duplicate_token_across_phases_is_refused() {
    let mut n = Negotiator::new();
    n.issue_create_session("t1".to_owned(), "s1".to_owned()).unwrap();
    n.on_signal(
        "t1".to_owned(),
        SignalPayload::SessionHandle("/sess".to_owned()),
    );
    n.issue_select_sources("t2".to_owned()).unwrap();
    // "t2" is still outstanding: issuing under it again is refused
    // (phase three is not ready yet, which is reported first)
    assert_eq!(
        n.issue_start("t2".to_owned(), "".to_owned()),
        Err(SessionError::PhaseNotReady)
    );
    n.on_signal("t2".to_owned(), SignalPayload::Ack);
    // now phase three is ready; a fresh duplicate of an outstanding token
    let mut p = Negotiator::new();
    p.issue_create_session("a".to_owned(), "s".to_owned()).unwrap();
    assert_eq!(
        p.issue_create_session("a".to_owned(), "s".to_owned()),
        Err(SessionError::AlreadyIssued)
    );
}

#[test]
fn recorded_failure_closes_and_keeps_first_cause() {
    let mut n = Negotiator::new();
    n.issue_create_session("t1".to_owned(), "s1".to_owned()).unwrap();
    n.record_failure(HandshakeError::Timeout);
    assert_eq!(n.state, SessionState::Closed);
    assert_eq!(n.failure, Some(HandshakeError::Timeout));

    n.record_failure(HandshakeError::Rejected);
    assert_eq!(n.failure, Some(HandshakeError::Timeout));

    assert_eq!(
        n.issue_create_session("t2".to_owned(), "s2".to_owned()),
        Err(SessionError::SessionClosed)
    );
    assert_eq!(n.begin_streaming(), Err(SessionError::SessionClosed));
}

#[test]
fn close_terminates_without_failure() {
    let mut n = Negotiator::new();
    n.close();
    assert_eq!(n.state, SessionState::Closed);
    assert_eq!(n.failure, None);
    assert_eq!(
        n.issue_start("t".to_owned(), "".to_owned()),
        Err(SessionError::SessionClosed)
    );
}
