//! Session Negotiator: drives the three-phase broker handshake
//! (`CreateSession` → `SelectSources` → `Start`) through the Correlation
//! Table, producing a session handle and the authorized stream descriptors.
//!
//! The negotiator is a step machine: issuing a phase hands back the broker
//! call to perform, and completion signals are fed in as plain values. All
//! I/O — the bus calls and the bounded waits — happens outside; the
//! negotiator decides what may be issued when and what each signal means.

use vstd::prelude::*;
use crate::correlation::CorrelationTable;
use crate::protocol::{ResponseKind, SignalPayload, StreamDescriptor};

verus! {

/// Lifecycle of one capture grant; monotonic, no backward transitions.
#[derive(Clone, Copy, PartialEq, Eq, Structural, Debug)]
pub enum SessionState {
    /// Session exists (or is being created); no sources selected yet.
    Created,
    /// Source selection completed by the broker.
    SourcesSelected,
    /// Start completed; authorized stream descriptors recorded.
    Started,
    /// Bound to a streaming connection.
    Streaming,
    /// Terminated, by shutdown or by an unrecoverable handshake failure.
    Closed,
}

/// Position of a state in the lifecycle order.
pub open spec fn rank(s: SessionState) -> int {
    match s {
        SessionState::Created => 0,
        SessionState::SourcesSelected => 1,
        SessionState::Started => 2,
        SessionState::Streaming => 3,
        SessionState::Closed => 4,
    }
}

/// Why a phase could not be issued or advanced.
#[derive(Clone, Copy, PartialEq, Eq, Structural, Debug)]
pub enum SessionError {
    /// The session is closed; nothing further may be issued.
    SessionClosed,
    /// The preceding phase's completion has not been recorded yet, or this
    /// phase is already past.
    PhaseNotReady,
    /// `CreateSession` was already issued for this session.
    AlreadyIssued,
    /// Another outstanding request already holds this token.
    DuplicateToken,
}

/// A fatal handshake failure recorded against the session.
#[derive(Clone, Copy, PartialEq, Eq, Structural, Debug)]
pub enum HandshakeError {
    /// A phase's bounded wait elapsed with no matching signal.
    Timeout,
    /// The broker call itself failed (for instance, the user declined).
    Rejected,
}

/// A broker method call the caller must perform, with its exact arguments.
#[derive(Clone, PartialEq, Eq, Debug)]
pub enum BrokerCall {
    /// Create a capture session under the two caller-chosen tokens.
    CreateSession { handle_token: String, session_handle_token: String },
    /// Select capture sources for the established session.
    SelectSources { session_handle: String, handle_token: String },
    /// Start the session; an empty parent window means an interactive picker.
    Start { session_handle: String, parent_window: String, handle_token: String },
}

/// What a completion signal meant to the negotiator.
#[derive(Clone, Copy, PartialEq, Eq, Structural, Debug)]
pub enum SignalOutcome {
    /// Unmatched token: not awaited, ignored, nothing changed.
    Ignored,
    /// The session-established signal was matched; the handle is recorded.
    SessionEstablished,
    /// Source selection completion was matched and recorded.
    SourcesRecorded,
    /// Start completion was matched; the named node is the selected source.
    StreamsRecorded(u32),
    /// A matched signal carried the wrong shape or arrived out of phase;
    /// the session is closed.
    Fatal,
}

/// Drives the broker handshake; owns the correlation table and the session.
pub struct Negotiator {
    /// Outstanding broker requests.
    pub table: CorrelationTable,
    /// Lifecycle state of the capture grant.
    pub state: SessionState,
    /// Broker-issued handle; set exactly once, immutable thereafter.
    pub session_handle: Option<String>,
    /// Authorized sources, recorded once at start completion.
    pub streams: Vec<StreamDescriptor>,
    /// Whether `CreateSession` has been issued.
    pub create_issued: bool,
    /// The first fatal failure recorded, if any.
    pub failure: Option<HandshakeError>,
}

impl Negotiator {
    /// Well-formedness: unique outstanding tokens, and each phase's data is
    /// present before any later phase is reached.
    pub open spec fn wf(&self) -> bool {
        &&& self.table.wf()
        &&& (self.state == SessionState::SourcesSelected || self.state == SessionState::Started
            || self.state == SessionState::Streaming) ==> self.session_handle is Some
        &&& (self.state == SessionState::Started || self.state == SessionState::Streaming)
            ==> self.streams@.len() > 0
        &&& (self.state == SessionState::Created || self.state == SessionState::SourcesSelected)
            ==> self.streams@.len() == 0
    }

    /// Nothing observable changed: same outstanding requests, same lifecycle
    /// state, same recorded data.
    pub open spec fn unchanged(pre: Negotiator, post: Negotiator) -> bool {
        &&& post.table.entries() == pre.table.entries()
        &&& post.state == pre.state
        &&& post.session_handle == pre.session_handle
        &&& post.streams == pre.streams
        &&& post.create_issued == pre.create_issued
        &&& post.failure == pre.failure
    }

    /// How any step may change a negotiator: the state only advances, and the
    /// handle, the stream list and a recorded failure are each set at most
    /// once and never overwritten.
    pub open spec fn evolves(pre: Negotiator, post: Negotiator) -> bool {
        &&& rank(post.state) >= rank(pre.state)
        &&& pre.session_handle is Some ==> post.session_handle == pre.session_handle
        &&& pre.streams@.len() > 0 ==> post.streams == pre.streams
        &&& pre.create_issued ==> post.create_issued
        &&& pre.failure is Some ==> post.failure == pre.failure
    }

    /// The signal under this token establishes the session: it was awaited as
    /// the session-established response, carries a handle, and arrives while
    /// the session is still handle-less.
    pub open spec fn establishes(pre: Negotiator, token: Seq<char>, payload: SignalPayload) -> bool {
        &&& pre.table.has_token(token)
        &&& pre.table.expects_of(token) == ResponseKind::SessionHandle
        &&& payload is SessionHandle
        &&& pre.state == SessionState::Created
        &&& pre.session_handle is None
    }

    /// The signal under this token records source-selection completion; its
    /// payload is diagnostic only.
    pub open spec fn records_sources(pre: Negotiator, token: Seq<char>) -> bool {
        &&& pre.table.has_token(token)
        &&& pre.table.expects_of(token) == ResponseKind::Ack
        &&& pre.state == SessionState::Created
        &&& pre.session_handle is Some
    }

    /// The signal under this token records start completion: it carries a
    /// non-empty authorized stream list in the right phase.
    pub open spec fn records_streams(pre: Negotiator, token: Seq<char>, payload: SignalPayload) -> bool {
        &&& pre.table.has_token(token)
        &&& pre.table.expects_of(token) == ResponseKind::Streams
        &&& payload matches SignalPayload::Streams(list) && list@.len() > 0
        &&& pre.state == SessionState::SourcesSelected
    }

    /// A fresh negotiator: nothing outstanding, nothing recorded.
    pub fn new() -> (n: Negotiator)
        ensures
            n.wf(),
            n.table.entries() == Seq::<crate::correlation::PendingRequest>::empty(),
            n.state == SessionState::Created,
            n.session_handle is None,
            n.streams@.len() == 0,
            !n.create_issued,
            n.failure is None,
    {
        Negotiator {
            table: CorrelationTable::new(),
            state: SessionState::Created,
            session_handle: None,
            streams: Vec::new(),
            create_issued: false,
            failure: None,
        }
    }

    /// Issue phase one: `CreateSession` under the two caller-chosen tokens.
    /// Succeeds exactly once, before any later phase; the completion signal
    /// is awaited under `handle_token` and will carry the session handle.
    pub fn issue_create_session(&mut self, handle_token: String, session_handle_token: String)
        -> (r: Result<BrokerCall, SessionError>)
        requires
            old(self).wf(),
        ensures
            final(self).wf(),
            Self::evolves(*old(self), *final(self)),
            r is Ok <==> (old(self).state == SessionState::Created && !old(self).create_issued
                && !old(self).table.has_token(handle_token@)),
            old(self).state == SessionState::Closed ==> r == Err::<BrokerCall, SessionError>(SessionError::SessionClosed),
            old(self).state != SessionState::Created && old(self).state != SessionState::Closed
                ==> r == Err::<BrokerCall, SessionError>(SessionError::PhaseNotReady),
            old(self).state == SessionState::Created && old(self).create_issued ==> r == Err::<
                BrokerCall,
                SessionError,
            >(SessionError::AlreadyIssued),
            old(self).state == SessionState::Created && !old(self).create_issued && old(self).table.has_token(handle_token@) ==> r == Err::<BrokerCall, SessionError>(SessionError::DuplicateToken),
            r is Err ==> Self::unchanged(*old(self), *final(self)),
            r matches Ok(c) ==> ({
                &&& c matches BrokerCall::CreateSession { handle_token: ht, session_handle_token: st }
                    && ht@ == handle_token@ && st@ == session_handle_token@
                &&& CorrelationTable::extended_with(
                    old(self).table,
                    final(self).table,
                    handle_token@,
                    ResponseKind::SessionHandle,
                )
                &&& final(self).create_issued
                &&& final(self).state == old(self).state
                &&& final(self).session_handle == old(self).session_handle
                &&& final(self).streams == old(self).streams
                &&& final(self).failure == old(self).failure
            }),
    {
        if self.state == SessionState::Closed {
            return Err(SessionError::SessionClosed);
        }
        if self.state != SessionState::Created {
            return Err(SessionError::PhaseNotReady);
        }
        if self.create_issued {
            return Err(SessionError::AlreadyIssued);
        }
        let ht = handle_token.clone();
        if !self.table.issue(handle_token, ResponseKind::SessionHandle) {
            return Err(SessionError::DuplicateToken);
        }
        self.create_issued = true;
        Ok(BrokerCall::CreateSession { handle_token: ht, session_handle_token })
    }

    /// Issue phase two: `SelectSources` for the established session. Succeeds
    /// exactly when the session handle from phase one has been recorded and
    /// no later phase has begun; the completion is awaited under
    /// `handle_token` as a bare acknowledgement.
    pub fn issue_select_sources(&mut self, handle_token: String) -> (r: Result<
        BrokerCall,
        SessionError,
    >)
        requires
            old(self).wf(),
        ensures
            final(self).wf(),
            Self::evolves(*old(self), *final(self)),
            r is Ok <==> (old(self).state == SessionState::Created && old(self).session_handle
                is Some && !old(self).table.has_token(handle_token@)),
            old(self).state == SessionState::Closed ==> r == Err::<BrokerCall, SessionError>(SessionError::SessionClosed),
            old(self).state != SessionState::Created && old(self).state != SessionState::Closed
                ==> r == Err::<BrokerCall, SessionError>(SessionError::PhaseNotReady),
            old(self).state == SessionState::Created && old(self).session_handle is None
                ==> r == Err::<BrokerCall, SessionError>(SessionError::PhaseNotReady),
            old(self).state == SessionState::Created && old(self).session_handle is Some && old(self).table.has_token(handle_token@) ==> r == Err::<BrokerCall, SessionError>(SessionError::DuplicateToken),
            r is Err ==> Self::unchanged(*old(self), *final(self)),
            r matches Ok(c) ==> ({
                &&& c matches BrokerCall::SelectSources { session_handle: sh, handle_token: ht }
                    && ht@ == handle_token@ && sh@ == (old(self).session_handle->0)@
                &&& CorrelationTable::extended_with(
                    old(self).table,
                    final(self).table,
                    handle_token@,
                    ResponseKind::Ack,
                )
                &&& final(self).state == old(self).state
                &&& final(self).session_handle == old(self).session_handle
                &&& final(self).streams == old(self).streams
                &&& final(self).create_issued == old(self).create_issued
                &&& final(self).failure == old(self).failure
            }),
    {
        if self.state == SessionState::Closed {
            return Err(SessionError::SessionClosed);
        }
        if self.state != SessionState::Created {
            return Err(SessionError::PhaseNotReady);
        }
        let sh = match &self.session_handle {
            Some(h) => h.clone(),
            None => {
                return Err(SessionError::PhaseNotReady);
            },
        };
        let ht = handle_token.clone();
        if !self.table.issue(handle_token, ResponseKind::Ack) {
            return Err(SessionError::DuplicateToken);
        }
        Ok(BrokerCall::SelectSources { session_handle: sh, handle_token: ht })
    }

    /// Issue phase three: `Start` for the session whose sources are selected.
    /// Succeeds exactly when phase two's completion has been recorded; the
    /// completion is awaited under `handle_token` and will carry the
    /// authorized stream list. An empty `parent_window` requests the broker's
    /// interactive picker.
    pub fn issue_start(&mut self, handle_token: String, parent_window: String) -> (r: Result<
        BrokerCall,
        SessionError,
    >)
        requires
            old(self).wf(),
        ensures
            final(self).wf(),
            Self::evolves(*old(self), *final(self)),
            r is Ok <==> (old(self).state == SessionState::SourcesSelected && !old(self).table.has_token(handle_token@)),
            old(self).state == SessionState::Closed ==> r == Err::<BrokerCall, SessionError>(SessionError::SessionClosed),
            old(self).state != SessionState::SourcesSelected && old(self).state
                != SessionState::Closed ==> r == Err::<BrokerCall, SessionError>(SessionError::PhaseNotReady),
            old(self).state == SessionState::SourcesSelected && old(self).table.has_token(
                handle_token@,
            ) ==> r == Err::<BrokerCall, SessionError>(SessionError::DuplicateToken),
            r is Err ==> Self::unchanged(*old(self), *final(self)),
            r matches Ok(c) ==> ({
                &&& c matches BrokerCall::Start { session_handle: sh, parent_window: pw, handle_token: ht }
                    && ht@ == handle_token@ && pw@ == parent_window@ && sh@
                    == (old(self).session_handle->0)@
                &&& CorrelationTable::extended_with(
                    old(self).table,
                    final(self).table,
                    handle_token@,
                    ResponseKind::Streams,
                )
                &&& final(self).state == old(self).state
                &&& final(self).session_handle == old(self).session_handle
                &&& final(self).streams == old(self).streams
                &&& final(self).create_issued == old(self).create_issued
                &&& final(self).failure == old(self).failure
            }),
    {
        if self.state == SessionState::Closed {
            return Err(SessionError::SessionClosed);
        }
        if self.state != SessionState::SourcesSelected {
            return Err(SessionError::PhaseNotReady);
        }
        let sh = match &self.session_handle {
            Some(h) => h.clone(),
            None => {
                return Err(SessionError::PhaseNotReady);
            },
        };
        let ht = handle_token.clone();
        if !self.table.issue(handle_token, ResponseKind::Streams) {
            return Err(SessionError::DuplicateToken);
        }
        Ok(BrokerCall::Start { session_handle: sh, parent_window, handle_token: ht })
    }

    /// Feed one broker completion signal to the negotiator. An unmatched
    /// token is ignored and changes nothing. A matched token leaves the
    /// table; in the right phase it records the phase's completion exactly
    /// as `establishes`, `records_sources` and `records_streams` describe,
    /// and any other matched signal is a protocol violation that closes the
    /// session.
    pub fn on_signal(&mut self, token: String, payload: SignalPayload) -> (out: SignalOutcome)
        requires
            old(self).wf(),
        ensures
            final(self).wf(),
            Self::evolves(*old(self), *final(self)),
            !old(self).table.has_token(token@) ==> out == SignalOutcome::Ignored
                && Self::unchanged(*old(self), *final(self)),
            old(self).table.has_token(token@) ==> !final(self).table.has_token(token@),
            forall|t: Seq<char>|
                t != token@ ==> (#[trigger] final(self).table.has_token(t) <==> old(self).table.has_token(t)),
            Self::establishes(*old(self), token@, payload) ==> out
                == SignalOutcome::SessionEstablished && (payload matches SignalPayload::SessionHandle(h)
                && final(self).session_handle is Some && (final(self).session_handle->0)@ == h@)
                && final(self).state == SessionState::Created && final(self).streams
                == old(self).streams && final(self).create_issued == old(self).create_issued
                && final(self).failure == old(self).failure,
            Self::records_sources(*old(self), token@) ==> out == SignalOutcome::SourcesRecorded
                && final(self).state == SessionState::SourcesSelected && final(self).session_handle
                == old(self).session_handle && final(self).streams == old(self).streams
                && final(self).create_issued == old(self).create_issued && final(self).failure
                == old(self).failure,
            Self::records_streams(*old(self), token@, payload) ==> (payload matches
                SignalPayload::Streams(list) && out == SignalOutcome::StreamsRecorded(
                list@[0].node_id,
            ) && final(self).state == SessionState::Started && final(self).streams == list
                && final(self).session_handle == old(self).session_handle && final(self).create_issued
                == old(self).create_issued && final(self).failure == old(self).failure),
            old(self).table.has_token(token@) && !Self::establishes(*old(self), token@, payload)
                && !Self::records_sources(*old(self), token@) && !Self::records_streams(
                *old(self),
                token@,
                payload,
            ) ==> out == SignalOutcome::Fatal && final(self).state == SessionState::Closed
                && final(self).session_handle == old(self).session_handle && final(self).streams
                == old(self).streams && final(self).create_issued == old(self).create_issued
                && final(self).failure == old(self).failure,
    {
        let matched = self.table.complete(&token, payload);
        match matched {
            None => SignalOutcome::Ignored,
            Some((req, pay)) => {
                match req.expects {
                    ResponseKind::SessionHandle => {
                        match pay {
                            SignalPayload::SessionHandle(h) => {
                                if self.state == SessionState::Created
                                    && self.session_handle.is_none() {
                                    self.session_handle = Some(h);
                                    SignalOutcome::SessionEstablished
                                } else {
                                    self.state = SessionState::Closed;
                                    SignalOutcome::Fatal
                                }
                            },
                            _ => {
                                self.state = SessionState::Closed;
                                SignalOutcome::Fatal
                            },
                        }
                    },
                    ResponseKind::Ack => {
                        if self.state == SessionState::Created && self.session_handle.is_some() {
                            self.state = SessionState::SourcesSelected;
                            SignalOutcome::SourcesRecorded
                        } else {
                            self.state = SessionState::Closed;
                            SignalOutcome::Fatal
                        }
                    },
                    ResponseKind::Streams => {
                        match pay {
                            SignalPayload::Streams(list) => {
                                if self.state == SessionState::SourcesSelected && list.len() > 0 {
                                    let node = list[0].node_id;
                                    self.streams = list;
                                    self.state = SessionState::Started;
                                    SignalOutcome::StreamsRecorded(node)
                                } else {
                                    self.state = SessionState::Closed;
                                    SignalOutcome::Fatal
                                }
                            },
                            _ => {
                                self.state = SessionState::Closed;
                                SignalOutcome::Fatal
                            },
                        }
                    },
                }
            },
        }
    }

    /// Bind the streaming connection: succeeds exactly when start completion
    /// has been recorded, returns the selected source (the first authorized
    /// descriptor), and moves the session to `Streaming`.
    pub fn begin_streaming(&mut self) -> (r: Result<u32, SessionError>)
        requires
            old(self).wf(),
        ensures
            final(self).wf(),
            Self::evolves(*old(self), *final(self)),
            r is Ok <==> old(self).state == SessionState::Started,
            old(self).state == SessionState::Closed ==> r == Err::<u32, SessionError>(
                SessionError::SessionClosed,
            ),
            old(self).state != SessionState::Started && old(self).state != SessionState::Closed
                ==> r == Err::<u32, SessionError>(SessionError::PhaseNotReady),
            r is Err ==> Self::unchanged(*old(self), *final(self)),
            r matches Ok(node) ==> node == old(self).streams@[0].node_id && final(self).state
                == SessionState::Streaming && final(self).streams == old(self).streams && final(self).session_handle == old(self).session_handle && final(self).table == old(self).table
                && final(self).failure == old(self).failure,
    {
        if self.state == SessionState::Closed {
            return Err(SessionError::SessionClosed);
        }
        if self.state != SessionState::Started {
            return Err(SessionError::PhaseNotReady);
        }
        let node = self.streams[0].node_id;
        self.state = SessionState::Streaming;
        Ok(node)
    }

    /// Record a fatal handshake failure: the session closes, and the first
    /// recorded cause is kept.
    pub fn record_failure(&mut self, cause: HandshakeError)
        requires
            old(self).wf(),
        ensures
            final(self).wf(),
            Self::evolves(*old(self), *final(self)),
            final(self).state == SessionState::Closed,
            final(self).failure == if old(self).failure is Some {
                old(self).failure
            } else {
                Some(cause)
            },
            final(self).table == old(self).table,
            final(self).session_handle == old(self).session_handle,
            final(self).streams == old(self).streams,
            final(self).create_issued == old(self).create_issued,
    {
        self.state = SessionState::Closed;
        if self.failure.is_none() {
            self.failure = Some(cause);
        }
    }

    /// Close the session (process shutdown); records no failure.
    pub fn close(&mut self)
        requires
            old(self).wf(),
        ensures
            final(self).wf(),
            Self::evolves(*old(self), *final(self)),
            final(self).state == SessionState::Closed,
            final(self).failure == old(self).failure,
            final(self).table == old(self).table,
            final(self).session_handle == old(self).session_handle,
            final(self).streams == old(self).streams,
            final(self).create_issued == old(self).create_issued,
    {
        self.state = SessionState::Closed;
    }
}

/// Phase sequencing: a later phase is reachable only with the earlier
/// phases' completions recorded — sources are selected only with the
/// session handle stored, and a started or streaming session also holds a
/// non-empty authorized stream list.
pub proof fn lemma_phase_sequencing(n: Negotiator)
    requires
        n.wf(),
    ensures
        n.state == SessionState::SourcesSelected ==> n.session_handle is Some,
        n.state == SessionState::Started || n.state == SessionState::Streaming
            ==> n.session_handle is Some && n.streams@.len() > 0,
{
}

/// Lifecycle monotonicity: any step a negotiator method takes only advances
/// the state, and never unsets the handle, the stream list, or a recorded
/// failure.
pub proof fn lemma_lifecycle_monotone(pre: Negotiator, post: Negotiator)
    requires
        Negotiator::evolves(pre, post),
    ensures
        rank(post.state) >= rank(pre.state),
        pre.session_handle is Some ==> post.session_handle == pre.session_handle,
        pre.streams@.len() > 0 ==> post.streams == pre.streams,
        pre.failure is Some ==> post.failure == pre.failure,
{
}

} // verus!
