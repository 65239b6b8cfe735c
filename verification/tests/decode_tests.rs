use deepgram_session::errors::DgError;
use deepgram_session::inbound::{inbound_step, InboundFrame, InboundStep};
use deepgram_session::transcript::{decode_transcript, trimmed_empty};

#[test]
fn decode_wellformed_interim() {
    let msg = "{\"is_final\": false, \"channel\": {\"alternatives\": [{\"transcript\": \"hello\"}]}}";
    let ev = decode_transcript(msg).expect("a transcript event");
    assert_eq!(ev.text, "hello");
    assert_eq!(ev.is_final, false);
}

#[test]
fn decode_wellformed_final() {
    let msg = "{\"is_final\": true, \"channel\": {\"alternatives\": [{\"transcript\": \"over and out\"}]}}";
    let ev = decode_transcript(msg).expect("a transcript event");
    assert_eq!(ev.text, "over and out");
    assert_eq!(ev.is_final, true);
}

#[test]
fn decode_malformed_is_no_event() {
    assert!(decode_transcript("{not json at all").is_none());
    assert!(decode_transcript("").is_none());
}

#[test]
fn decode_blank_transcript_is_no_event() {
    let empty = "{\"is_final\": true, \"channel\": {\"alternatives\": [{\"transcript\": \"\"}]}}";
    assert!(decode_transcript(empty).is_none());
    let blank = "{\"is_final\": true, \"channel\": {\"alternatives\": [{\"transcript\": \"  \\t \"}]}}";
    assert!(decode_transcript(blank).is_none());
}

#[test]
fn decode_missing_path_is_no_event() {
    assert!(decode_transcript("{\"foo\": 1}").is_none());
    assert!(decode_transcript("{\"channel\": {\"alternatives\": []}}").is_none());
    assert!(decode_transcript("{\"channel\": {\"alternatives\": [{\"transcript\": 7}]}}").is_none());
    assert!(decode_transcript("[1, 2, 3]").is_none());
}

#[test]
fn decode_wrong_typed_is_final_defaults_to_false() {
    let msg = "{\"is_final\": \"yes\", \"channel\": {\"alternatives\": [{\"transcript\": \"hi\"}]}}";
    let ev = decode_transcript(msg).expect("a transcript event");
    assert_eq!(ev.text, "hi");
    assert_eq!(ev.is_final, false);
}

#[test]
fn trimmed_empty_on_whitespace() {
    assert!(trimmed_empty(""));
    assert!(trimmed_empty("  \t\r\n "));
    assert!(!trimmed_empty(" a "));
}

#[test]
fn inbound_step_emits_on_wellformed() {
    let msg = "{\"is_final\": false, \"channel\": {\"alternatives\": [{\"transcript\": \"hello\"}]}}";
    match inbound_step(InboundFrame::Text(msg.to_string())) {
        InboundStep::Emit(p) => {
            assert_eq!(p.text, "hello");
            assert_eq!(p.is_final, false);
        },
        _ => panic!("expected an event"),
    }
}

#[test]
fn inbound_step_skips_malformed_then_processes_next() {
    match inbound_step(InboundFrame::Text("garbage%%".to_string())) {
        InboundStep::Skip => {},
        _ => panic!("malformed frame must be skipped"),
    }
    let msg = "{\"is_final\": true, \"channel\": {\"alternatives\": [{\"transcript\": \"still here\"}]}}";
    match inbound_step(InboundFrame::Text(msg.to_string())) {
        InboundStep::Emit(p) => assert_eq!(p.text, "still here"),
        _ => panic!("the relay must still process the next frame"),
    }
}

#[test]
fn inbound_step_terminates_on_close() {
    match inbound_step(InboundFrame::CloseFrame) {
        InboundStep::Terminate => {},
        _ => panic!("close must terminate cleanly"),
    }
}

#[test]
fn inbound_step_fails_on_read_error() {
    match inbound_step(InboundFrame::ReadError("socket gone".to_string())) {
        InboundStep::Fail(m) => assert_eq!(m, "Deepgram read error: socket gone"),
        _ => panic!("a read error must surface"),
    }
}

#[test]
fn inbound_step_ignores_other_frames() {
    match inbound_step(InboundFrame::Other) {
        InboundStep::Skip => {},
        _ => panic!("other frame kinds are ignored"),
    }
}

#[test]
fn error_messages() {
    assert_eq!(DgError::NotStarted.message(), "Deepgram not started");
    assert_eq!(DgError::ChannelClosed.message(), "Audio channel closed");
    assert_eq!(DgError::InvalidRequest("bad".to_string()).message(), "bad");
    assert_eq!(DgError::ConnectFailed("refused".to_string()).message(), "WS connect failed: refused");
}
