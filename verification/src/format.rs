//! Format Negotiator: validates the streaming peer's format proposals
//! against the accepted media kinds (video, raw) and records the agreed
//! format, which is immutable once accepted.

use vstd::prelude::*;

verus! {

/// Media kind of a proposed stream format.
#[derive(Clone, Copy, PartialEq, Eq, Structural, Debug)]
pub enum MediaType {
    Unknown,
    Audio,
    Video,
    Image,
}

/// Media subtype of a proposed stream format.
#[derive(Clone, Copy, PartialEq, Eq, Structural, Debug)]
pub enum MediaSubtype {
    Unknown,
    Raw,
    Dsp,
}

/// A format the streaming peer proposes or confirms, reduced to the fields
/// the negotiator reads.
#[derive(Clone, Copy, PartialEq, Eq, Structural, Debug)]
pub struct FormatProposal {
    pub media_type: MediaType,
    pub media_subtype: MediaSubtype,
}

/// The agreed pixel contract; produced once, immutable thereafter.
#[derive(Clone, Copy, PartialEq, Eq, Structural, Debug)]
pub struct NegotiatedFormat {
    pub media_type: MediaType,
    pub media_subtype: MediaSubtype,
}

/// What one parameter-changed callback decided.
#[derive(Clone, Copy, PartialEq, Eq, Structural, Debug)]
pub enum FormatDecision {
    /// The callback carried no format; nothing to inspect.
    NoProposal,
    /// The proposal's media kind is outside the accepted set; ignored, the
    /// peer may re-propose.
    Rejected,
    /// The proposal was accepted and recorded as the negotiated format.
    Accepted,
    /// A format is already negotiated; the recorded one stands.
    AlreadyNegotiated,
}

/// A proposal is compatible exactly when it is raw video.
pub open spec fn compatible(p: FormatProposal) -> bool {
    p.media_type == MediaType::Video && p.media_subtype == MediaSubtype::Raw
}

/// Validates proposals and holds the negotiated format once one is accepted.
pub struct FormatNegotiator {
    /// The accepted format, if negotiation has concluded.
    pub accepted: Option<NegotiatedFormat>,
}

impl FormatNegotiator {
    /// A negotiator that has accepted nothing yet.
    pub fn new() -> (n: FormatNegotiator)
        ensures
            n.accepted is None,
    {
        FormatNegotiator { accepted: None }
    }

    /// Whether a format has been negotiated.
    pub fn is_negotiated(&self) -> (b: bool)
        ensures
            b == (self.accepted is Some),
    {
        self.accepted.is_some()
    }

    /// Handle one parameter-changed callback. A missing or incompatible
    /// proposal changes nothing; the first compatible proposal is recorded
    /// as the negotiated format; once a format is accepted it is immutable,
    /// so no later proposal — compatible or not — overwrites it.
    pub fn on_param_changed(&mut self, proposal: Option<FormatProposal>) -> (d: FormatDecision)
        ensures
            final(self).accepted == step_accepted(old(self).accepted, proposal),
            old(self).accepted is Some ==> final(self).accepted == old(self).accepted,
            proposal is None ==> d == FormatDecision::NoProposal && final(self).accepted
                == old(self).accepted,
            proposal matches Some(p) ==> ({
                &&& !compatible(p) ==> d == FormatDecision::Rejected && final(self).accepted
                    == old(self).accepted
                &&& compatible(p) && old(self).accepted is None ==> d == FormatDecision::Accepted
                    && final(self).accepted == Some(
                    NegotiatedFormat { media_type: p.media_type, media_subtype: p.media_subtype },
                )
                &&& compatible(p) && old(self).accepted is Some ==> d
                    == FormatDecision::AlreadyNegotiated
            }),
    {
        match proposal {
            None => FormatDecision::NoProposal,
            Some(p) => {
                if !(p.media_type == MediaType::Video && p.media_subtype == MediaSubtype::Raw) {
                    FormatDecision::Rejected
                } else if self.accepted.is_some() {
                    FormatDecision::AlreadyNegotiated
                } else {
                    self.accepted = Some(
                        NegotiatedFormat { media_type: p.media_type, media_subtype: p.media_subtype },
                    );
                    FormatDecision::Accepted
                }
            },
        }
    }

    /// The format-enumeration proposal the stream declares to the peer: the
    /// accepted media kind, raw video.
    pub fn accepted_proposal() -> (p: FormatProposal)
        ensures
            compatible(p),
            p.media_type == MediaType::Video,
            p.media_subtype == MediaSubtype::Raw,
    {
        FormatProposal { media_type: MediaType::Video, media_subtype: MediaSubtype::Raw }
    }
}

/// What one parameter-changed step leaves accepted: an already negotiated
/// format stands; otherwise the first compatible proposal is recorded.
pub open spec fn step_accepted(
    acc: Option<NegotiatedFormat>,
    proposal: Option<FormatProposal>,
) -> Option<NegotiatedFormat> {
    if acc is Some {
        acc
    } else {
        match proposal {
            Some(p) => if compatible(p) {
                Some(NegotiatedFormat { media_type: p.media_type, media_subtype: p.media_subtype })
            } else {
                acc
            },
            None => acc,
        }
    }
}

/// What a whole sequence of parameter-changed callbacks leaves accepted.
pub open spec fn run_proposals(
    acc: Option<NegotiatedFormat>,
    proposals: Seq<Option<FormatProposal>>,
) -> Option<NegotiatedFormat>
    decreases proposals.len(),
{
    if proposals.len() == 0 {
        acc
    } else {
        run_proposals(step_accepted(acc, proposals[0]), proposals.skip(1))
    }
}

/// Acceptance is monotone: once a format is accepted, any sequence of later
/// proposals — compatible or not — leaves it the accepted format.
pub proof fn lemma_acceptance_monotone(
    acc: Option<NegotiatedFormat>,
    proposals: Seq<Option<FormatProposal>>,
)
    requires
        acc is Some,
    ensures
        run_proposals(acc, proposals) == acc,
    decreases proposals.len(),
{
    if proposals.len() > 0 {
        lemma_acceptance_monotone(step_accepted(acc, proposals[0]), proposals.skip(1));
    }
}

} // verus!
