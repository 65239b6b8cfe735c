use deepgram_session::errors::DgError;
use deepgram_session::outbound::{outbound_step, send_error_message, OutboundEvent, WireFrame};
use deepgram_session::request::{auth_header_value, build_connect_request, endpoint_url};
use deepgram_session::session::{open_session, SessionSlot};
use deepgram_session::transcript::decode_transcript;

#[test]
fn send_audio_before_start_fails_and_enqueues_nothing() {
    let mut slot = SessionSlot::new();
    match slot.send_audio(vec![1, 2, 3]) {
        Err(DgError::NotStarted) => {},
        _ => panic!("send_audio with no session must fail with the not-started error"),
    }
}

#[test]
fn frames_arrive_in_fifo_order() {
    let mut slot = SessionSlot::new();
    let (sess, mut rx_audio, _stop_rx) = open_session();
    slot.install(sess);
    assert!(slot.present());

    slot.send_audio(vec![1]).unwrap();
    slot.send_audio(vec![2, 2]).unwrap();
    slot.send_audio(vec![3, 3, 3]).unwrap();

    assert_eq!(rx_audio.try_recv().unwrap(), vec![1]);
    assert_eq!(rx_audio.try_recv().unwrap(), vec![2, 2]);
    assert_eq!(rx_audio.try_recv().unwrap(), vec![3, 3, 3]);
    assert!(rx_audio.try_recv().is_err());
}

#[test]
fn send_audio_after_relay_exit_reports_closed_channel() {
    let mut slot = SessionSlot::new();
    let (sess, rx_audio, _stop_rx) = open_session();
    slot.install(sess);
    drop(rx_audio);
    match slot.send_audio(vec![9]) {
        Err(DgError::ChannelClosed) => {},
        _ => panic!("a dropped consumer must surface as a closed channel"),
    }
}

#[test]
fn stop_clears_slot_and_signals() {
    let mut slot = SessionSlot::new();
    let (sess, _rx_audio, mut stop_rx) = open_session();
    slot.install(sess);

    assert!(slot.stop().is_ok());
    assert!(!slot.present());
    stop_rx.try_recv().expect("the stop signal must have been sent");

    // Stopping again is a no-op that still succeeds.
    assert!(slot.stop().is_ok());
}

#[test]
fn stop_produces_finalize_then_close() {
    let (frames, done) = outbound_step(OutboundEvent::Stop);
    assert!(done);
    assert_eq!(frames.len(), 2);
    match &frames[0] {
        WireFrame::Text(t) => assert_eq!(t, "{\"type\":\"Finalize\"}"),
        _ => panic!("the finalize control frame must come first"),
    }
    match &frames[1] {
        WireFrame::Close => {},
        _ => panic!("the close frame must follow the finalize frame"),
    }
}

#[test]
fn audio_event_becomes_one_binary_frame() {
    let (frames, done) = outbound_step(OutboundEvent::Frame(vec![7, 8, 9]));
    assert!(!done);
    assert_eq!(frames.len(), 1);
    match &frames[0] {
        WireFrame::Binary(b) => assert_eq!(b, &vec![7, 8, 9]),
        _ => panic!("an audio frame is written as binary"),
    }
}

#[test]
fn end_to_end_session_scenario() {
    // start succeeds: the session is stored only after the transport opens.
    let mut slot = SessionSlot::new();
    let (sess, mut rx_audio, mut stop_rx) = open_session();
    slot.install(sess);

    // A 320-byte audio frame reaches the outbound relay unchanged.
    let frame = vec![0u8; 320];
    slot.send_audio(frame.clone()).unwrap();
    let dequeued = rx_audio.try_recv().unwrap();
    assert_eq!(dequeued.len(), 320);
    let (wire, done) = outbound_step(OutboundEvent::Frame(dequeued));
    assert!(!done);
    match &wire[0] {
        WireFrame::Binary(b) => assert_eq!(b.len(), 320),
        _ => panic!("audio goes out as a binary frame"),
    }

    // The remote echoes a transcript message; the consumer sees the event.
    let echo = "{\"is_final\": false, \"channel\": {\"alternatives\": [{\"transcript\": \"hello\"}]}}";
    let ev = decode_transcript(echo).expect("a transcript event");
    assert_eq!(ev.text, "hello");
    assert_eq!(ev.is_final, false);

    // stop: the slot empties, the signal arrives, the transport sees the
    // finalize frame and then the close frame.
    slot.stop().unwrap();
    stop_rx.try_recv().expect("stop signal");
    let (frames, done) = outbound_step(OutboundEvent::Stop);
    assert!(done);
    match (&frames[0], &frames[1]) {
        (WireFrame::Text(t), WireFrame::Close) => assert_eq!(t, "{\"type\":\"Finalize\"}"),
        _ => panic!("finalize then close"),
    }

    // A send after stop fails with the not-started error.
    match slot.send_audio(vec![1]) {
        Err(DgError::NotStarted) => {},
        _ => panic!("send after stop must report not started"),
    }
}

#[test]
fn send_error_text_is_prefixed() {
    assert_eq!(send_error_message("boom"), "Deepgram send error: boom");
}

#[test]
fn auth_header_text_is_token_prefixed() {
    assert_eq!(auth_header_value("abc123"), "Token abc123");
}

#[test]
fn endpoint_has_the_fixed_parameters() {
    let url = endpoint_url();
    assert_eq!(
        url,
        "wss://api.deepgram.com/v1/listen?model=nova-2&encoding=linear16&sample_rate=16000&channels=1&punctuate=true&interim_results=true&endpointing=300&vad_events=true"
    );
}

#[test]
fn connect_request_carries_the_credential() {
    let req = build_connect_request("abc123").expect("a valid credential builds a request");
    let auth = req.headers().get("Authorization").expect("authorization header");
    assert_eq!(auth.to_str().unwrap(), "Token abc123");
    assert_eq!(req.uri().scheme_str(), Some("wss"));
    assert_eq!(req.uri().host(), Some("api.deepgram.com"));
}

#[test]
fn connect_request_rejects_control_characters() {
    match build_connect_request("bad\nkey") {
        Err(e) => assert_eq!(e.message(), "failed to parse header value"),
        Ok(_) => panic!("a control character cannot be carried in a header"),
    }
}
