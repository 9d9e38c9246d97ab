//! Frame Relay: a single-slot, overwrite-on-write buffer with a frame-ready
//! flag. The capture side is the sole producer, the render side the sole
//! consumer; if the consumer has not read frame N before frame N+1 arrives,
//! frame N is lost — the relay always holds the newest frame.

use vstd::prelude::*;

verus! {

/// Mathematical state of the relay: the slot's bytes, the write counter, and
/// whether a published frame awaits consumption.
pub ghost struct RelayModel {
    pub slot: Seq<u8>,
    pub generation: nat,
    pub pending: bool,
}

/// What `publish` does to the model: the slot is overwritten with the new
/// bytes — whatever was there before, read or not — the generation is bumped,
/// and a frame becomes pending.
pub open spec fn publish_model(m: RelayModel, bytes: Seq<u8>) -> RelayModel {
    RelayModel { slot: bytes, generation: m.generation + 1, pending: true }
}

/// What `try_consume` does to the model and returns: the pending frame, if
/// one is pending, clearing the flag; otherwise nothing, changing nothing.
pub open spec fn consume_model(m: RelayModel) -> (RelayModel, Option<Seq<u8>>) {
    if m.pending {
        (RelayModel { slot: m.slot, generation: m.generation, pending: false }, Some(m.slot))
    } else {
        (m, None)
    }
}

/// The single-slot relay buffer.
pub struct FrameRelay {
    slot: Vec<u8>,
    generation: u64,
    pending: bool,
}

impl FrameRelay {
    /// The relay's mathematical state.
    pub closed spec fn model(&self) -> RelayModel {
        RelayModel { slot: self.slot@, generation: self.generation as nat, pending: self.pending }
    }

    /// An empty relay: no frame published yet.
    pub fn new() -> (r: FrameRelay)
        ensures
            r.model().slot == Seq::<u8>::empty(),
            r.model().generation == 0,
            !r.model().pending,
    {
        FrameRelay { slot: Vec::new(), generation: 0, pending: false }
    }

    /// How many frames have been published.
    pub fn generation(&self) -> (g: u64)
        ensures
            g == self.model().generation,
    {
        self.generation
    }

    /// Whether a published frame awaits consumption.
    pub fn has_pending(&self) -> (b: bool)
        ensures
            b == self.model().pending,
    {
        self.pending
    }

    /// Length of the bytes currently in the slot.
    pub fn slot_len(&self) -> (n: usize)
        ensures
            n == self.model().slot.len(),
    {
        self.slot.len()
    }

    /// Publish a frame: resize the slot to the frame's length, overwrite it
    /// with the frame's bytes, and mark a frame pending. Never waits on the
    /// consumer: it succeeds whether or not the previous frame was consumed.
    pub fn publish(&mut self, bytes: &Vec<u8>)
        requires
            old(self).model().generation < u64::MAX,
        ensures
            final(self).model() == publish_model(old(self).model(), bytes@),
    {
        self.slot.clear();
        let n = bytes.len();
        for i in 0..n
            invariant
                n == bytes@.len(),
                self.slot@ == bytes@.take(i as int),
                self.generation == old(self).generation,
                self.pending == old(self).pending,
        {
            self.slot.push(bytes[i]);
            proof {
                assert(self.slot@ =~= bytes@.take(i + 1));
            }
        }
        proof {
            assert(self.slot@ =~= bytes@);
        }
        self.generation = self.generation + 1;
        self.pending = true;
    }

    /// Poll for a new frame, without blocking: when a frame is pending, hand
    /// out a copy of the newest published bytes and clear the flag; when none
    /// is, return nothing and change nothing.
    pub fn try_consume(&mut self) -> (r: Option<Vec<u8>>)
        ensures
            (final(self).model(), match r {
                Some(v) => Some(v@),
                None => None,
            }) == consume_model(old(self).model()),
            r matches Some(v) ==> v@ == old(self).model().slot,
            r is Some <==> old(self).model().pending,
    {
        if !self.pending {
            return None;
        }
        self.pending = false;
        let n = self.slot.len();
        let mut out: Vec<u8> = Vec::new();
        for i in 0..n
            invariant
                n == self.slot@.len(),
                out@ == self.slot@.take(i as int),
        {
            out.push(self.slot[i]);
            proof {
                assert(out@ =~= self.slot@.take(i + 1));
            }
        }
        proof {
            assert(out@ =~= self.slot@);
        }
        Some(out)
    }
}

/// Producer independence: what `publish` does depends only on the write
/// counter — not on the slot's contents and not on whether the consumer has
/// drained the previous frame. Consumer starvation cannot change what a
/// publish produces, and `publish` has no precondition about the consumer.
pub proof fn lemma_publish_independent_of_consumer(m1: RelayModel, m2: RelayModel, bytes: Seq<u8>)
    requires
        m1.generation == m2.generation,
    ensures
        publish_model(m1, bytes) == publish_model(m2, bytes),
{
}

/// Overwrite semantics: publishing twice with no intervening consume loses
/// the first frame — the consume that follows yields exactly the second
/// frame's bytes, whatever both frames hold and whatever state the relay
/// was in.
pub proof fn lemma_overwrite(m: RelayModel, b1: Seq<u8>, b2: Seq<u8>)
    ensures
        consume_model(publish_model(publish_model(m, b1), b2)).1 == Some(b2),
        consume_model(publish_model(publish_model(m, b1), b2)).0.slot == b2,
{
}

} // verus!
