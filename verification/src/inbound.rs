//! The inbound relay's decision logic.
//!
//! The relay reads one frame at a time from the transport and decides, for
//! each, whether to emit a transcript event, ignore the frame, or terminate.
//! The loop that awaits the transport lives outside the library; it feeds
//! each frame to [`inbound_step`] and performs the returned step.

use vstd::prelude::*;
use vstd::string::StringExecFns;
use crate::json::json_of;
use crate::transcript::{TranscriptPayload, spec_decode, spec_transcript, is_blank, decode_transcript};
use crate::json::JsonModel;

verus! {

/// One frame read from the transport, as the relay sees it.
pub enum InboundFrame {
    /// A structured (text) frame.
    Text(String),
    /// The remote closed the connection.
    CloseFrame,
    /// Reading failed; the payload is the text of the error.
    ReadError(String),
    /// Any other kind of frame.
    Other,
}

/// What the relay does with one frame.
pub enum InboundStep {
    /// Emit this transcript event and keep reading.
    Emit(TranscriptPayload),
    /// Nothing to emit; keep reading.
    Skip,
    /// The remote closed: stop reading, no event.
    Terminate,
    /// Reading failed: emit this error text, then stop reading.
    Fail(String),
}

/// Decides the relay's reaction to one frame.
///
/// A structured frame yields an event exactly when it decodes to one; a
/// malformed or blank-transcript frame is skipped and the relay keeps
/// reading. A close frame terminates cleanly; a read error terminates with
/// an error message; any other frame kind is skipped.
pub fn inbound_step(f: InboundFrame) -> (r: InboundStep)
    ensures
        match f {
            InboundFrame::Text(t) => match spec_decode(json_of(t@)) {
                Some(ev) => r matches InboundStep::Emit(p) && p.text@ == ev.0 && p.is_final
                    == ev.1,
                None => r is Skip,
            },
            InboundFrame::CloseFrame => r is Terminate,
            InboundFrame::ReadError(e) => (r matches InboundStep::Fail(m) && m@
                == "Deepgram read error: "@ + e@),
            InboundFrame::Other => r is Skip,
        },
{
    match f {
        InboundFrame::Text(t) => match decode_transcript(t.as_str()) {
            Some(p) => InboundStep::Emit(p),
            None => InboundStep::Skip,
        },
        InboundFrame::CloseFrame => InboundStep::Terminate,
        InboundFrame::ReadError(e) => {
            let prefix = String::from_str("Deepgram read error: ");
            InboundStep::Fail(prefix.concat(e.as_str()))
        },
        InboundFrame::Other => InboundStep::Skip,
    }
}

/// The event one frame contributes to the stream, if any.
pub open spec fn spec_frame_event(f: InboundFrame) -> Option<(Seq<char>, bool)> {
    match f {
        InboundFrame::Text(t) => spec_decode(json_of(t@)),
        _ => None,
    }
}

/// Whether one frame ends the relay's loop.
pub open spec fn spec_frame_terminates(f: InboundFrame) -> bool {
    f is CloseFrame || f is ReadError
}

/// The transcript events the relay emits for a stream of frames: each
/// frame's event in the order the frames arrive, cut off at the first frame
/// that terminates the loop.
pub open spec fn inbound_events(fs: Seq<InboundFrame>) -> Seq<(Seq<char>, bool)>
    decreases fs.len(),
{
    if fs.len() == 0 {
        Seq::empty()
    } else if spec_frame_terminates(fs[0]) {
        Seq::empty()
    } else {
        match spec_frame_event(fs[0]) {
            Some(ev) => seq![ev] + inbound_events(fs.drop_first()),
            None => inbound_events(fs.drop_first()),
        }
    }
}

/// A malformed structured frame is transparent: it produces no event and
/// does not terminate the relay, so every following frame is processed as
/// if the malformed one had not arrived.
pub proof fn lemma_malformed_frame_transparent(bad: InboundFrame, rest: Seq<InboundFrame>)
    requires
        bad matches InboundFrame::Text(t) && json_of(t@) is None,
    ensures
        inbound_events(seq![bad] + rest) == inbound_events(rest),
{
    assert((seq![bad] + rest).drop_first() =~= rest);
}

/// A frame that neither emits nor terminates — a malformed message, one
/// whose transcript is empty or blank, or a frame of another kind — is
/// transparent wherever it arrives in the stream: the events are those of
/// the stream without it.
pub proof fn lemma_silent_frame_transparent(fs: Seq<InboundFrame>, k: int)
    requires
        0 <= k < fs.len(),
        spec_frame_event(fs[k]) is None,
        !spec_frame_terminates(fs[k]),
    ensures
        inbound_events(fs.remove(k)) == inbound_events(fs),
    decreases k,
{
    if k == 0 {
        assert(fs.remove(0) =~= fs.drop_first());
    } else if !spec_frame_terminates(fs[0]) {
        lemma_silent_frame_transparent(fs.drop_first(), k - 1);
        assert(fs.remove(k).drop_first() =~= fs.drop_first().remove(k - 1));
        assert(fs.remove(k)[0] == fs[0]);
    }
}

/// A message whose transcript is empty or consists of white space alone
/// produces no transcript event.
pub proof fn lemma_blank_transcript_no_event(j: JsonModel)
    requires
        is_blank(spec_transcript(j)),
    ensures
        spec_decode(Some(j)) is None,
{
}

} // verus!
