//! The outbound relay's decision logic.
//!
//! The relay waits on two sources at once — the stop signal and the audio
//! queue — and reacts to whichever is ready first. The waiting itself lives
//! outside the library; each time an event arrives, [`outbound_step`] says
//! which frames to write to the transport and whether to terminate.

use vstd::prelude::*;
use vstd::string::StringExecFns;

verus! {

/// One event the outbound relay reacts to.
pub enum OutboundEvent {
    /// The stop signal arrived: finalize and close.
    Stop,
    /// An audio frame was dequeued: forward it.
    Frame(Vec<u8>),
}

/// One frame the relay writes to the transport.
pub enum WireFrame {
    /// A binary frame carrying raw audio.
    Binary(Vec<u8>),
    /// A structured (text) frame.
    Text(String),
    /// The close handshake.
    Close,
}

/// The abstract content of a wire frame.
pub enum WireModel {
    Bin(Seq<u8>),
    Txt(Seq<char>),
    CloseMsg,
}

/// The control frame asking the remote to finalize buffered recognition.
pub open spec fn finalize_text() -> Seq<char> {
    "{\"type\":\"Finalize\"}"@
}

/// The abstract content of one wire frame.
pub open spec fn wire_model(w: WireFrame) -> WireModel {
    match w {
        WireFrame::Binary(b) => WireModel::Bin(b@),
        WireFrame::Text(t) => WireModel::Txt(t@),
        WireFrame::Close => WireModel::CloseMsg,
    }
}

/// The payload of a queued audio frame.
pub open spec fn spec_payload(ev: OutboundEvent) -> Seq<u8> {
    match ev {
        OutboundEvent::Frame(c) => c@,
        OutboundEvent::Stop => Seq::empty(),
    }
}

/// Decides the relay's reaction to one event: the frames to write, in
/// order, and whether the relay terminates afterwards.
///
/// A dequeued audio frame is written as a single binary frame and the relay
/// goes on; the stop signal is answered with the finalize control frame,
/// then the close frame, and the relay terminates.
pub fn outbound_step(ev: OutboundEvent) -> (r: (Vec<WireFrame>, bool))
    ensures
        match ev {
            OutboundEvent::Stop => r.1 && r.0@.len() == 2 && wire_model(r.0@[0]) == WireModel::Txt(
                finalize_text(),
            ) && wire_model(r.0@[1]) == WireModel::CloseMsg,
            OutboundEvent::Frame(c) => !r.1 && r.0@.len() == 1 && wire_model(r.0@[0])
                == WireModel::Bin(c@),
        },
{
    match ev {
        OutboundEvent::Stop => {
            let mut frames: Vec<WireFrame> = Vec::new();
            frames.push(WireFrame::Text(String::from_str("{\"type\":\"Finalize\"}")));
            frames.push(WireFrame::Close);
            (frames, true)
        },
        OutboundEvent::Frame(c) => {
            let mut frames: Vec<WireFrame> = Vec::new();
            frames.push(WireFrame::Binary(c));
            (frames, false)
        },
    }
}

/// The error text surfaced to the consumer when a mid-stream write fails.
pub fn send_error_message(detail: &str) -> (r: String)
    ensures
        r@ == "Deepgram send error: "@ + detail@,
{
    let prefix = String::from_str("Deepgram send error: ");
    prefix.concat(detail)
}

/// Everything the relay writes for a stream of events: the queued frames in
/// arrival order, and, at the first stop signal, the finalize frame, the
/// close frame, and nothing more.
pub open spec fn outbound_wire(evs: Seq<OutboundEvent>) -> Seq<WireModel>
    decreases evs.len(),
{
    if evs.len() == 0 {
        Seq::empty()
    } else {
        match evs[0] {
            OutboundEvent::Stop => seq![WireModel::Txt(finalize_text()), WireModel::CloseMsg],
            OutboundEvent::Frame(c) => seq![WireModel::Bin(c@)] + outbound_wire(evs.drop_first()),
        }
    }
}

/// Audio frames reach the transport in the exact order they were dequeued:
/// while no stop signal arrives, the wire carries one binary frame per
/// event, with the same payload, at the same position.
pub proof fn lemma_outbound_fifo(evs: Seq<OutboundEvent>)
    requires
        forall|i: int| 0 <= i < evs.len() ==> (#[trigger] evs[i]) is Frame,
    ensures
        outbound_wire(evs).len() == evs.len(),
        forall|i: int|
            0 <= i < evs.len() ==> outbound_wire(evs)[i] == WireModel::Bin(spec_payload(evs[i])),
    decreases evs.len(),
{
    if evs.len() > 0 {
        lemma_outbound_fifo(evs.drop_first());
        assert forall|i: int| 0 <= i < evs.len() implies outbound_wire(evs)[i] == WireModel::Bin(
            spec_payload(evs[i]),
        ) by {
            if i > 0 {
                assert(outbound_wire(evs.drop_first())[i - 1] == WireModel::Bin(
                    spec_payload(evs.drop_first()[i - 1]),
                ));
            }
        }
    }
}

/// After the stop signal, the transport sees the finalize control frame,
/// then the close frame, in that order, after every frame dequeued earlier,
/// and nothing after the close.
pub proof fn lemma_stop_finalize_then_close(evs: Seq<OutboundEvent>, k: int)
    requires
        0 <= k < evs.len(),
        evs[k] is Stop,
        forall|i: int| 0 <= i < k ==> (#[trigger] evs[i]) is Frame,
    ensures
        outbound_wire(evs).len() == k + 2,
        forall|i: int| 0 <= i < k ==> outbound_wire(evs)[i] == WireModel::Bin(spec_payload(evs[i])),
        outbound_wire(evs)[k] == WireModel::Txt(finalize_text()),
        outbound_wire(evs)[k + 1] == WireModel::CloseMsg,
    decreases k,
{
    if k > 0 {
        lemma_stop_finalize_then_close(evs.drop_first(), k - 1);
        assert forall|i: int| 0 <= i < k implies outbound_wire(evs)[i] == WireModel::Bin(
            spec_payload(evs[i]),
        ) by {
            if i > 0 {
                assert(outbound_wire(evs.drop_first())[i - 1] == WireModel::Bin(
                    spec_payload(evs.drop_first()[i - 1]),
                ));
            }
        }
    }
}

/// Any two frames keep their relative order on the wire. In particular one
/// producer's frames arrive in that producer's own order; how frames of
/// different producers interleave in the queue is left unspecified, and the
/// wire simply preserves the queue's order.
pub proof fn lemma_pairwise_order(evs: Seq<OutboundEvent>, i: int, j: int)
    requires
        forall|k: int| 0 <= k < evs.len() ==> (#[trigger] evs[k]) is Frame,
        0 <= i < j < evs.len(),
    ensures
        outbound_wire(evs)[i] == WireModel::Bin(spec_payload(evs[i])),
        outbound_wire(evs)[j] == WireModel::Bin(spec_payload(evs[j])),
{
    lemma_outbound_fifo(evs);
}

} // verus!
