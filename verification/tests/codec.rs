use doubao_tts::codec::{
    decode, decode_audio_payload, encode, extract_audio_from_frame, parse_event, CodecError,
    EventTag, MsgType,
};

/// A server-style frame built by hand, independent of the encoder.
fn server_frame(msg_type: u8, event: i32, session_id: Option<&[u8]>, payload: &[u8]) -> Vec<u8> {
    let mut frame = vec![0x11, msg_type, 0x10, 0x00];
    frame.extend_from_slice(&event.to_be_bytes());
    if let Some(sid) = session_id {
        frame.extend_from_slice(&(sid.len() as u32).to_be_bytes());
        frame.extend_from_slice(sid);
    }
    frame.extend_from_slice(&(payload.len() as u32).to_be_bytes());
    frame.extend_from_slice(payload);
    frame
}

#[test]
fn encode_start_connection_layout() {
    let payload = b"{}".to_vec();
    let frame = encode(1, None, &payload);
    assert_eq!(
        frame,
        vec![0x11, 0x14, 0x10, 0x00, 0, 0, 0, 1, 0, 0, 0, 2, b'{', b'}']
    );
}

#[test]
fn encode_with_session_id_layout() {
    let payload = b"{}".to_vec();
    let sid = b"abc".to_vec();
    let frame = encode(100, Some(&sid), &payload);
    let mut expected = vec![0x11, 0x14, 0x10, 0x00, 0, 0, 0, 100, 0, 0, 0, 3];
    expected.extend_from_slice(b"abc");
    expected.extend_from_slice(&[0, 0, 0, 2, b'{', b'}']);
    assert_eq!(frame, expected);
}

#[test]
fn round_trip_with_session_id() {
    let payload = b"{\"text\":\"hi\"}".to_vec();
    let sid = b"session-1".to_vec();
    let frame = encode(100, Some(&sid), &payload);
    let decoded = decode(&frame).unwrap();
    assert_eq!(decoded.event, 100);
    assert_eq!(decoded.msg_type, MsgType::FullClientRequest);
    assert_eq!(decoded.session_id, Some(sid));
    assert_eq!(decoded.payload, payload);
    assert_eq!(decoded.event_tag(), EventTag::Known);
}

#[test]
fn round_trip_without_session_id() {
    let payload = b"{}".to_vec();
    let frame = encode(2, None, &payload);
    let decoded = decode(&frame).unwrap();
    assert_eq!(decoded.event, 2);
    assert_eq!(decoded.session_id, None);
    assert_eq!(decoded.payload, payload);
}

#[test]
fn decode_rejects_short_inputs() {
    assert_eq!(decode(&[]), Err(CodecError::Truncated));
    assert_eq!(decode(&[0x11, 0x94, 0x10]), Err(CodecError::Truncated));
    assert_eq!(
        decode(&[0x11, 0x94, 0x10, 0x00, 0, 0, 0]),
        Err(CodecError::Truncated)
    );
}

#[test]
fn decode_rejects_bad_header() {
    let mut frame = server_frame(0x94, 50, None, b"{}");
    frame[0] = 0x12;
    assert_eq!(decode(&frame), Err(CodecError::InvalidHeader));
    let mut frame2 = server_frame(0x94, 50, None, b"{}");
    frame2[1] = 0x15;
    assert_eq!(decode(&frame2), Err(CodecError::InvalidHeader));
}

#[test]
fn decode_session_id_length_past_buffer() {
    // Event 100 is session-scoped; the declared id length runs far past
    // the end of the buffer.
    let mut frame = vec![0x11, 0x94, 0x10, 0x00, 0, 0, 0, 100];
    frame.extend_from_slice(&1000u32.to_be_bytes());
    frame.extend_from_slice(b"abc");
    assert_eq!(decode(&frame), Err(CodecError::Truncated));
}

#[test]
fn decode_payload_length_past_buffer() {
    let mut frame = vec![0x11, 0x94, 0x10, 0x00, 0, 0, 0, 50];
    frame.extend_from_slice(&10u32.to_be_bytes());
    frame.extend_from_slice(b"abc");
    assert_eq!(decode(&frame), Err(CodecError::Truncated));
}

#[test]
fn decode_unknown_event_is_not_fatal() {
    let frame = server_frame(0x94, 9999, None, b"ok");
    let decoded = decode(&frame).unwrap();
    assert_eq!(decoded.event, 9999);
    assert_eq!(decoded.event_tag(), EventTag::UnknownEvent);
    assert_eq!(decoded.session_id, None);
    assert_eq!(decoded.payload, b"ok".to_vec());
}

#[test]
fn audio_payload_of_well_formed_frame() {
    let frame = server_frame(0xB4, 352, Some(b"s"), b"AB");
    assert_eq!(decode_audio_payload(&frame), Ok(b"AB".to_vec()));
}

#[test]
fn audio_payload_of_truncated_frame() {
    let frame = server_frame(0xB4, 352, Some(b"s"), b"AB");
    // Cut the buffer before the computed audio offset.
    assert_eq!(decode_audio_payload(&frame[..14]), Err(CodecError::Truncated));
    assert_eq!(decode_audio_payload(&[0x11, 0xB4, 0x00]), Err(CodecError::Truncated));
}

#[test]
fn audio_payload_of_other_frame_types() {
    let frame = server_frame(0x94, 352, Some(b"s"), b"AB");
    assert_eq!(decode_audio_payload(&frame), Err(CodecError::InvalidHeader));
}

#[test]
fn audio_payload_may_be_empty() {
    let frame = server_frame(0xB4, 352, Some(b"s"), b"");
    assert_eq!(decode_audio_payload(&frame), Ok(Vec::new()));
}

#[test]
fn extract_audio_follows_the_offset_rule() {
    let frame = server_frame(0xB4, 352, Some(b"s"), b"AB");
    assert_eq!(extract_audio_from_frame(&frame), Some(b"AB".to_vec()));
    // A buffer ending exactly at the computed offset is still a
    // well-formed frame: its audio chunk is empty, not missing.
    let empty = server_frame(0xB4, 352, Some(b"s"), b"");
    assert_eq!(extract_audio_from_frame(&empty), Some(Vec::new()));
    let other = server_frame(0x94, 352, Some(b"s"), b"AB");
    assert_eq!(extract_audio_from_frame(&other), None);
    assert_eq!(extract_audio_from_frame(&[0x11, 0xB4]), None);
}

#[test]
fn parse_event_reads_big_endian_field() {
    let frame = server_frame(0x94, 352, Some(b"s"), b"");
    assert_eq!(parse_event(&frame), Ok(352));
    assert_eq!(parse_event(&[0x11, 0x94, 0x10]), Err(CodecError::Truncated));
}
