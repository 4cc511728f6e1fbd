use doubao_tts::codec::parse_event;
use doubao_tts::driver::{
    synthesize, AudioFormat, TransportEvent, TtsError, VoiceParams,
};

/// A server-style frame built by hand.
fn server_frame(msg_type: u8, event: i32, session_id: Option<&[u8]>, payload: &[u8]) -> Vec<u8> {
    let mut frame = vec![0x11, msg_type, 0x10, 0x00];
    frame.extend_from_slice(&event.to_be_bytes());
    if let Some(sid) = session_id {
        frame.extend_from_slice(&(sid.len() as u32).to_be_bytes());
        frame.extend_from_slice(sid);
    }
    frame.extend_from_slice(&(payload.len() as u32).to_be_bytes());
    frame.extend_from_slice(payload);
    frame
}

fn params() -> VoiceParams {
    VoiceParams { speaker: b"narrator".to_vec(), sample_rate: 24000, speech_rate: 0 }
}

fn connection_started() -> TransportEvent {
    TransportEvent::Frame(server_frame(0x94, 50, None, b"{}"))
}

fn session_started() -> TransportEvent {
    TransportEvent::Frame(server_frame(0x94, 150, Some(b"s"), b"{}"))
}

fn audio_chunk(bytes: &[u8]) -> TransportEvent {
    TransportEvent::Frame(server_frame(0xB4, 352, Some(b"s"), bytes))
}

fn session_finished() -> TransportEvent {
    TransportEvent::Frame(server_frame(0x94, 152, Some(b"s"), b"{}"))
}

#[test]
fn successful_session_returns_audio() {
    let script = vec![
        connection_started(),
        session_started(),
        audio_chunk(b"AB"),
        session_finished(),
    ];
    let log = synthesize(b"hello".to_vec(), params(), &script);
    let result = log.result.unwrap();
    assert_eq!(result.audio, b"AB".to_vec());
    assert_eq!(result.format, AudioFormat::Mp3);
    assert_eq!(result.sample_rate, 24000);
    // StartConnection, StartSession, TaskRequest, FinishSession, FinishConnection.
    assert_eq!(log.sent.len(), 5);
    assert_eq!(parse_event(&log.sent[0]), Ok(1));
    assert_eq!(parse_event(&log.sent[1]), Ok(100));
    assert_eq!(parse_event(&log.sent[2]), Ok(200));
    assert_eq!(parse_event(&log.sent[3]), Ok(102));
    assert_eq!(parse_event(&log.sent[4]), Ok(2));
}

#[test]
fn audio_chunks_concatenate_in_order() {
    let script = vec![
        connection_started(),
        session_started(),
        audio_chunk(b"A"),
        audio_chunk(b""),
        audio_chunk(b"BC"),
        session_finished(),
    ];
    let log = synthesize(b"hello".to_vec(), params(), &script);
    assert_eq!(log.result.unwrap().audio, b"ABC".to_vec());
}

#[test]
fn missing_session_started_times_out() {
    // The transport never delivers SessionStarted before the phase
    // deadline; the call fails with Timeout and FinishConnection was
    // still attempted.
    let script = vec![connection_started()];
    let log = synthesize(b"hello".to_vec(), params(), &script);
    assert_eq!(log.result.unwrap_err(), TtsError::Timeout);
    let last = log.sent.last().unwrap();
    assert_eq!(parse_event(last), Ok(2));
}

#[test]
fn truncated_frame_fails_session_with_teardown() {
    // A 3-byte frame is too short to carry an event field.
    let script = vec![TransportEvent::Frame(vec![0x11, 0x94, 0x10])];
    let log = synthesize(b"hello".to_vec(), params(), &script);
    assert_eq!(log.result.unwrap_err(), TtsError::Protocol);
    // StartConnection, then the best-effort FinishSession and FinishConnection.
    assert_eq!(log.sent.len(), 3);
    assert_eq!(parse_event(&log.sent[1]), Ok(102));
    assert_eq!(parse_event(&log.sent[2]), Ok(2));
}

#[test]
fn out_of_range_speech_rate_is_rejected_before_io() {
    let too_fast = VoiceParams { speaker: b"n".to_vec(), sample_rate: 24000, speech_rate: 101 };
    let log = synthesize(b"hello".to_vec(), too_fast, &Vec::new());
    assert_eq!(log.result.unwrap_err(), TtsError::InvalidParams);
    assert!(log.sent.is_empty());

    let too_slow = VoiceParams { speaker: b"n".to_vec(), sample_rate: 24000, speech_rate: -51 };
    let log = synthesize(b"hello".to_vec(), too_slow, &Vec::new());
    assert_eq!(log.result.unwrap_err(), TtsError::InvalidParams);
    assert!(log.sent.is_empty());
}

#[test]
fn boundary_speech_rates_are_accepted() {
    for rate in [-50, 100] {
        let p = VoiceParams { speaker: b"n".to_vec(), sample_rate: 24000, speech_rate: rate };
        let script = vec![connection_started()];
        let log = synthesize(b"hello".to_vec(), p, &script);
        // The session proceeds past validation (and then times out).
        assert_eq!(log.result.unwrap_err(), TtsError::Timeout);
        assert!(!log.sent.is_empty());
    }
}

#[test]
fn session_with_no_audio_is_an_explicit_error() {
    let script = vec![connection_started(), session_started(), session_finished()];
    let log = synthesize(b"hello".to_vec(), params(), &script);
    assert_eq!(log.result.unwrap_err(), TtsError::EmptyResult);
    // Teardown still completed normally.
    assert_eq!(parse_event(log.sent.last().unwrap()), Ok(2));
}

#[test]
fn unexpected_event_fails_session() {
    // SessionStarted arrives while ConnectionStarted is awaited.
    let script = vec![session_started()];
    let log = synthesize(b"hello".to_vec(), params(), &script);
    assert_eq!(log.result.unwrap_err(), TtsError::Protocol);
    assert_eq!(parse_event(&log.sent[1]), Ok(102));
    assert_eq!(parse_event(&log.sent[2]), Ok(2));
}

#[test]
fn full_server_frame_during_streaming_is_a_protocol_error() {
    // An event-352 frame that is not audio-only must not be silently
    // dropped: the session fails.
    let not_audio = TransportEvent::Frame(server_frame(0x94, 352, Some(b"s"), b"AB"));
    let script = vec![connection_started(), session_started(), not_audio];
    let log = synthesize(b"hello".to_vec(), params(), &script);
    assert_eq!(log.result.unwrap_err(), TtsError::Protocol);
}

#[test]
fn end_of_stream_mid_session_is_a_protocol_error() {
    let script = vec![connection_started(), session_started(), TransportEvent::EndOfStream];
    let log = synthesize(b"hello".to_vec(), params(), &script);
    assert_eq!(log.result.unwrap_err(), TtsError::Protocol);
}

#[test]
fn io_error_mid_session_is_a_protocol_error() {
    let script = vec![TransportEvent::IoError];
    let log = synthesize(b"hello".to_vec(), params(), &script);
    assert_eq!(log.result.unwrap_err(), TtsError::Protocol);
}

#[test]
fn session_id_is_fresh_and_carried_in_frames() {
    let script = vec![connection_started()];
    let log = synthesize(b"hello".to_vec(), params(), &script);
    // The generated identifier has uuid's hyphenated shape.
    assert_eq!(log.session_id.len(), 36);
    assert!(log.session_id.iter().all(
        |b| *b == b'-' || b.is_ascii_digit() || (b'a'..=b'f').contains(b),
    ));
    // The StartSession frame carries it, length-prefixed, after the event.
    let start_session = &log.sent[1];
    assert_eq!(start_session[8..12], 36u32.to_be_bytes());
    assert_eq!(&start_session[12..48], log.session_id.as_slice());
}

#[test]
fn start_session_payload_is_exact_json() {
    let script = vec![connection_started()];
    let log = synthesize(b"hello".to_vec(), params(), &script);
    let start_session = &log.sent[1];
    // Header 4 + event 4 + id length 4 + id 36 + payload length 4.
    let payload = &start_session[52..];
    let expected = "{\"user\":{\"uid\":\"user_001\"},\"req_params\":{\"speaker\":\"narrator\",\"audio_params\":{\"format\":\"mp3\",\"sample_rate\":24000,\"speech_rate\":0}}}";
    assert_eq!(payload, expected.as_bytes());
}

#[test]
fn task_payload_escapes_text() {
    let script = vec![connection_started(), session_started()];
    let text = b"a\"b\\c\nd".to_vec();
    let log = synthesize(text, params(), &script);
    let task = &log.sent[2];
    let payload = &task[52..];
    assert_eq!(payload, b"{\"text\":\"a\\\"b\\\\c\\u000ad\"}");
}

#[test]
fn negative_speech_rate_appears_signed_in_payload() {
    let p = VoiceParams { speaker: b"n".to_vec(), sample_rate: 8000, speech_rate: -50 };
    let script = vec![connection_started()];
    let log = synthesize(b"x".to_vec(), p, &script);
    let payload = &log.sent[1][52..];
    let expected = "{\"user\":{\"uid\":\"user_001\"},\"req_params\":{\"speaker\":\"n\",\"audio_params\":{\"format\":\"mp3\",\"sample_rate\":8000,\"speech_rate\":-50}}}";
    assert_eq!(payload, expected.as_bytes());
}
