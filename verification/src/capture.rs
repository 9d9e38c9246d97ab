//! Capture-side glue: what the streaming peer's process callback decides on
//! each delivered buffer, and the properties the capture stream is created
//! with. The callback itself, the run loop and the byte acquisition from the
//! peer's backing storage happen outside; the decisions are here.

use vstd::prelude::*;
use crate::relay::{publish_model, FrameRelay};

verus! {

/// What one delivery of the streaming peer's process callback led to.
#[derive(Clone, Copy, PartialEq, Eq, Structural, Debug)]
pub enum DeliveryOutcome {
    /// The peer had no buffer to dequeue; nothing published.
    NoBuffer,
    /// The dequeued buffer carried zero data entries; skipped, not fatal,
    /// nothing published.
    EmptyFrame,
    /// The first data entry's bytes were published to the relay.
    Published,
}

/// Handle one delivery from the streaming peer, reduced to plain values: the
/// dequeued buffer's data entries, each as its chunk's bytes, or nothing when
/// the peer was out of buffers. A missing buffer or an empty entry list
/// publishes nothing; otherwise the first entry's bytes — and exactly those —
/// are published to the relay, whatever their length.
pub fn on_frame_delivered(relay: &mut FrameRelay, buffer: Option<&Vec<Vec<u8>>>) -> (out:
    DeliveryOutcome)
    requires
        old(relay).model().generation < u64::MAX,
    ensures
        buffer is None ==> out == DeliveryOutcome::NoBuffer && final(relay).model()
            == old(relay).model(),
        buffer matches Some(datas) ==> ({
            &&& datas@.len() == 0 ==> out == DeliveryOutcome::EmptyFrame && final(relay).model()
                == old(relay).model()
            &&& datas@.len() > 0 ==> out == DeliveryOutcome::Published && final(relay).model()
                == publish_model(old(relay).model(), datas@[0]@)
        }),
{
    match buffer {
        None => DeliveryOutcome::NoBuffer,
        Some(datas) => {
            if datas.len() == 0 {
                DeliveryOutcome::EmptyFrame
            } else {
                relay.publish(&datas[0]);
                DeliveryOutcome::Published
            }
        },
    }
}

/// The properties the capture stream is created with: video capture in the
/// camera role, exactly these three pairs in this order.
pub fn stream_properties() -> (props: Vec<(String, String)>)
    ensures
        props@.len() == 3,
        props@[0].0@ == "media.type"@ && props@[0].1@ == "Video"@,
        props@[1].0@ == "media.category"@ && props@[1].1@ == "Capture"@,
        props@[2].0@ == "media.role"@ && props@[2].1@ == "Camera"@,
{
    let mut props: Vec<(String, String)> = Vec::new();
    props.push(("media.type".to_owned(), "Video".to_owned()));
    props.push(("media.category".to_owned(), "Capture".to_owned()));
    props.push(("media.role".to_owned(), "Camera".to_owned()));
    props
}

} // verus!
