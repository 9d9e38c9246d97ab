//! Correlation Table: tracks outstanding broker requests by opaque token and
//! matches asynchronous completion signals to the call that issued them.

use vstd::prelude::*;
use crate::protocol::{ResponseKind, SignalPayload};

verus! {

/// One outstanding broker call awaiting its completion signal.
pub struct PendingRequest {
    /// Caller-generated opaque token, unique per outstanding call.
    pub token: String,
    /// The response shape expected back.
    pub expects: ResponseKind,
}

/// Tracks outstanding requests; at most one per token at any time.
pub struct CorrelationTable {
    pending: Vec<PendingRequest>,
}

impl CorrelationTable {
    /// The outstanding requests, oldest first.
    pub closed spec fn entries(&self) -> Seq<PendingRequest> {
        self.pending@
    }

    /// Whether some outstanding request carries this token.
    pub open spec fn has_token(&self, token: Seq<char>) -> bool {
        exists|i: int| 0 <= i < self.entries().len() && self.entries()[i].token@ == token
    }

    /// The response shape the outstanding request under this token expects;
    /// meaningful only when `has_token` holds.
    pub open spec fn expects_of(&self, token: Seq<char>) -> ResponseKind {
        let i = choose|i: int|
            0 <= i < self.entries().len() && self.entries()[i].token@ == token;
        self.entries()[i].expects
    }

    /// `post` is `pre` with one more outstanding request, under this token and
    /// expecting this shape.
    pub open spec fn extended_with(
        pre: CorrelationTable,
        post: CorrelationTable,
        token: Seq<char>,
        expects: ResponseKind,
    ) -> bool {
        exists|p: PendingRequest|
            p.token@ == token && p.expects == expects && post.entries() == pre.entries().push(p)
    }

    /// No two outstanding requests share a token.
    pub open spec fn wf(&self) -> bool {
        forall|i: int, j: int|
            0 <= i < j < self.entries().len() ==> self.entries()[i].token@
                != self.entries()[j].token@
    }

    /// An empty table: nothing outstanding.
    pub fn new() -> (t: CorrelationTable)
        ensures
            t.entries() == Seq::<PendingRequest>::empty(),
            t.wf(),
    {
        CorrelationTable { pending: Vec::new() }
    }

    /// How many requests are outstanding.
    pub fn len(&self) -> (n: usize)
        ensures
            n == self.entries().len(),
    {
        self.pending.len()
    }

    fn position_of(&self, token: &String) -> (r: Option<usize>)
        requires
            self.wf(),
        ensures
            match r {
                Some(i) => 0 <= i < self.entries().len() && self.entries()[i as int].token@
                    == token@,
                None => !self.has_token(token@),
            },
    {
        let n = self.pending.len();
        for i in 0..n
            invariant
                n == self.entries().len(),
                forall|j: int| 0 <= j < i ==> self.entries()[j].token@ != token@,
        {
            if self.pending[i].token == *token {
                return Some(i);
            }
        }
        None
    }

    /// Record an outstanding call. Returns `true` and stores the request when
    /// the token is fresh; returns `false` and changes nothing when another
    /// request already holds the token, preserving token uniqueness.
    pub fn issue(&mut self, token: String, expects: ResponseKind) -> (fresh: bool)
        requires
            old(self).wf(),
        ensures
            final(self).wf(),
            fresh == !old(self).has_token(token@),
            fresh ==> Self::extended_with(*old(self), *final(self), token@, expects),
            !fresh ==> final(self).entries() == old(self).entries(),
            forall|t: Seq<char>| #[trigger]
                final(self).has_token(t) <==> (old(self).has_token(t) || (fresh && t == token@)),
    {
        if self.position_of(&token).is_some() {
            return false;
        }
        let ghost pre = self.pending@;
        self.pending.push(PendingRequest { token, expects });
        proof {
            assert(self.entries() =~= pre.push(self.entries().last()));
            assert(Self::extended_with(*old(self), *self, self.entries().last().token@, expects));
            assert forall|t: Seq<char>| #[trigger]
                self.has_token(t) <==> (old(self).has_token(t) || t
                == self.entries().last().token@) by {
                if old(self).has_token(t) {
                    let i = choose|i: int|
                        0 <= i < pre.len() && pre[i].token@ == t;
                    assert(self.entries()[i].token@ == t);
                }
                if t == self.entries().last().token@ {
                    assert(self.entries()[pre.len() as int].token@ == t);
                }
            }
        }
        true
    }

    /// Match a completion signal to the call that issued it. When the token
    /// is outstanding, the matched request leaves the table and is returned
    /// together with the signal's payload; a signal whose token is unmatched
    /// leaves the table unchanged and is not an error (the broker may emit
    /// signals the caller is not currently awaiting).
    pub fn complete(&mut self, token: &String, payload: SignalPayload) -> (r: Option<
        (PendingRequest, SignalPayload),
    >)
        requires
            old(self).wf(),
        ensures
            final(self).wf(),
            !old(self).has_token(token@) ==> r is None && final(self).entries() == old(
                self,
            ).entries(),
            old(self).has_token(token@) ==> r is Some && (r->0).0.token@ == token@ && (r->0).0.expects
                == old(self).expects_of(token@) && (r->0).1 == payload && (exists|i: int|
                0 <= i < old(self).entries().len() && old(self).entries()[i] == (r->0).0
                    && final(self).entries() == old(self).entries().remove(i)),
            !final(self).has_token(token@),
            forall|t: Seq<char>|
                t != token@ ==> (#[trigger] final(self).has_token(t) <==> old(self).has_token(t)),
    {
        match self.position_of(token) {
            None => None,
            Some(i) => {
                let ghost pre = self.pending@;
                let req = self.pending.remove(i);
                proof {
                    assert(self.entries() =~= pre.remove(i as int));
                    let j = choose|j: int| 0 <= j < pre.len() && pre[j].token@ == token@;
                    assert(pre[i as int].token@ == token@);
                    if j < i {
                        assert(pre[j].token@ != pre[i as int].token@);
                    } else if i < j {
                        assert(pre[i as int].token@ != pre[j].token@);
                    }
                    assert(old(self).expects_of(token@) == pre[i as int].expects);
                    assert forall|t: Seq<char>| t != token@ implies (#[trigger] self.has_token(t)
                        <==> old(self).has_token(t)) by {
                        if self.has_token(t) {
                            let j = choose|j: int|
                                0 <= j < self.entries().len() && self.entries()[j].token@ == t;
                            if j < i {
                                assert(pre[j].token@ == t);
                            } else {
                                assert(pre[j + 1].token@ == t);
                            }
                        }
                        if old(self).has_token(t) {
                            let j = choose|j: int| 0 <= j < pre.len() && pre[j].token@ == t;
                            if j < i {
                                assert(self.entries()[j].token@ == t);
                            } else {
                                assert(j != i);
                                assert(self.entries()[j - 1].token@ == t);
                            }
                        }
                    }
                    assert(!self.has_token(token@)) by {
                        if self.has_token(token@) {
                            let j = choose|j: int|
                                0 <= j < self.entries().len() && self.entries()[j].token@
                                    == token@;
                            if j < i {
                                assert(pre[j].token@ == pre[i as int].token@);
                            } else {
                                assert(pre[j + 1].token@ == pre[i as int].token@);
                            }
                        }
                    }
                }
                Some((req, payload))
            },
        }
    }
}

} // verus!
