//! Frame codec for the wire format: a 4-byte header, a 32-bit big-endian
//! event code, an optional length-prefixed session id (present exactly for
//! session-scoped events), and a length-prefixed payload.

use vstd::prelude::*;
use vstd::slice::{slice_subrange, slice_to_vec};

use crate::numbers::{be_to_u32, lemma_u32_be_round_trip, push_u32_be, read_u32_be, u32_to_be};

verus! {

/// Protocol version byte: version 1 with a 4-byte header.
pub const PROTOCOL_VERSION: u8 = 0x11;

/// Message type byte: full client request carrying an event.
pub const MSG_TYPE_FULL_CLIENT: u8 = 0x14;

/// Message type byte: full server response carrying an event.
pub const MSG_TYPE_FULL_SERVER: u8 = 0x94;

/// Message type byte: audio-only server response carrying an event.
pub const MSG_TYPE_AUDIO_ONLY: u8 = 0xB4;

/// Serialization marker: JSON payload, no compression.
pub const SERIALIZATION_JSON: u8 = 0x10;

/// Serialization marker: raw payload, no compression.
pub const SERIALIZATION_RAW: u8 = 0x00;

/// Reserved header byte.
pub const RESERVED: u8 = 0x00;

pub const EVENT_START_CONNECTION: i32 = 1;

pub const EVENT_FINISH_CONNECTION: i32 = 2;

pub const EVENT_CONNECTION_STARTED: i32 = 50;

pub const EVENT_START_SESSION: i32 = 100;

pub const EVENT_FINISH_SESSION: i32 = 102;

pub const EVENT_SESSION_STARTED: i32 = 150;

pub const EVENT_SESSION_FINISHED: i32 = 152;

pub const EVENT_TASK_REQUEST: i32 = 200;

pub const EVENT_TTS_RESPONSE: i32 = 352;

/// The message type of a frame, from byte 1 of its header.
#[derive(Clone, Copy, Debug, PartialEq, Eq, Structural)]
pub enum MsgType {
    FullClientRequest,
    FullServerResponse,
    AudioOnlyResponse,
}

/// Whether a frame was decoded as a known protocol event or carries an
/// event code outside the closed enumeration (kept for forward
/// compatibility, never a decode failure).
#[derive(Clone, Copy, Debug, PartialEq, Eq, Structural)]
pub enum EventTag {
    Known,
    UnknownEvent,
}

/// A decode failure: the buffer ended before a declared field, or the
/// header bytes are outside the supported set.
#[derive(Clone, Copy, Debug, PartialEq, Eq, Structural)]
pub enum CodecError {
    Truncated,
    InvalidHeader,
}

/// A decoded frame.
#[derive(Debug, Clone, PartialEq, Eq)]
pub struct Frame {
    pub msg_type: MsgType,
    pub serialization: u8,
    pub event: i32,
    pub session_id: Option<Vec<u8>>,
    pub payload: Vec<u8>,
}

/// The mathematical model of a frame.
pub struct FrameView {
    pub msg_type: MsgType,
    pub serialization: u8,
    pub event: i32,
    pub session_id: Option<Seq<u8>>,
    pub payload: Seq<u8>,
}

impl View for Frame {
    type V = FrameView;

    open spec fn view(&self) -> FrameView {
        FrameView {
            msg_type: self.msg_type,
            serialization: self.serialization,
            event: self.event,
            session_id: match self.session_id {
                Some(sid) => Some(sid@),
                None => None,
            },
            payload: self.payload@,
        }
    }
}

/// True for the nine event codes of the protocol's closed enumeration.
pub open spec fn is_known_event(e: i32) -> bool {
    ||| e == EVENT_START_CONNECTION
    ||| e == EVENT_FINISH_CONNECTION
    ||| e == EVENT_CONNECTION_STARTED
    ||| e == EVENT_START_SESSION
    ||| e == EVENT_FINISH_SESSION
    ||| e == EVENT_SESSION_STARTED
    ||| e == EVENT_SESSION_FINISHED
    ||| e == EVENT_TASK_REQUEST
    ||| e == EVENT_TTS_RESPONSE
}

/// True for the known events that are scoped to one session; frames for
/// these carry a length-prefixed session id between event and payload.
pub open spec fn event_has_session(e: i32) -> bool {
    ||| e == EVENT_START_SESSION
    ||| e == EVENT_FINISH_SESSION
    ||| e == EVENT_SESSION_STARTED
    ||| e == EVENT_SESSION_FINISHED
    ||| e == EVENT_TASK_REQUEST
    ||| e == EVENT_TTS_RESPONSE
}

/// Executable mirror of [`is_known_event`].
pub fn known_event(e: i32) -> (b: bool)
    ensures
        b == is_known_event(e),
{
    e == EVENT_START_CONNECTION || e == EVENT_FINISH_CONNECTION || e == EVENT_CONNECTION_STARTED
        || e == EVENT_START_SESSION || e == EVENT_FINISH_SESSION || e == EVENT_SESSION_STARTED
        || e == EVENT_SESSION_FINISHED || e == EVENT_TASK_REQUEST || e == EVENT_TTS_RESPONSE
}

/// Executable mirror of [`event_has_session`].
pub fn session_scoped_event(e: i32) -> (b: bool)
    ensures
        b == event_has_session(e),
{
    e == EVENT_START_SESSION || e == EVENT_FINISH_SESSION || e == EVENT_SESSION_STARTED
        || e == EVENT_SESSION_FINISHED || e == EVENT_TASK_REQUEST || e == EVENT_TTS_RESPONSE
}

/// True for header bytes that name a supported message type.
pub open spec fn is_msg_type_code(b: u8) -> bool {
    b == MSG_TYPE_FULL_CLIENT || b == MSG_TYPE_FULL_SERVER || b == MSG_TYPE_AUDIO_ONLY
}

/// The message type named by a supported header byte.
pub open spec fn msg_type_of_code(b: u8) -> MsgType
    recommends
        is_msg_type_code(b),
{
    if b == MSG_TYPE_FULL_CLIENT {
        MsgType::FullClientRequest
    } else if b == MSG_TYPE_FULL_SERVER {
        MsgType::FullServerResponse
    } else {
        MsgType::AudioOnlyResponse
    }
}

impl Frame {
    /// Whether this frame's event code belongs to the closed enumeration.
    pub fn event_tag(&self) -> (t: EventTag)
        ensures
            t == EventTag::Known <==> is_known_event(self.event),
    {
        if known_event(self.event) {
            EventTag::Known
        } else {
            EventTag::UnknownEvent
        }
    }
}

/// The encoded bytes of a client frame: header, big-endian event code, the
/// session id (length-prefixed) when one is given, then the
/// length-prefixed payload.
pub open spec fn spec_encode(event: i32, session_id: Option<Seq<u8>>, payload: Seq<u8>) -> Seq<
    u8,
> {
    seq![PROTOCOL_VERSION, MSG_TYPE_FULL_CLIENT, SERIALIZATION_JSON, RESERVED] + u32_to_be(
        event as u32,
    ) + (match session_id {
        Some(sid) => u32_to_be(sid.len() as u32) + sid,
        None => Seq::empty(),
    }) + u32_to_be(payload.len() as u32) + payload
}

/// Encodes one client frame; deterministic and pure.
pub fn encode(event: i32, session_id: Option<&Vec<u8>>, payload: &Vec<u8>) -> (frame: Vec<u8>)
    requires
        session_id matches Some(sid) ==> sid@.len() <= u32::MAX,
        payload@.len() <= u32::MAX,
    ensures
        frame@ == spec_encode(
            event,
            match session_id {
                Some(sid) => Some(sid@),
                None => None,
            },
            payload@,
        ),
{
    let mut frame: Vec<u8> = Vec::new();
    frame.push(PROTOCOL_VERSION);
    frame.push(MSG_TYPE_FULL_CLIENT);
    frame.push(SERIALIZATION_JSON);
    frame.push(RESERVED);
    push_u32_be(&mut frame, #[verifier::truncate] (event as u32));
    match session_id {
        Some(sid) => {
            push_u32_be(&mut frame, sid.len() as u32);
            frame.extend_from_slice(sid.as_slice());
        },
        None => {},
    }
    push_u32_be(&mut frame, payload.len() as u32);
    frame.extend_from_slice(payload.as_slice());
    proof {
        assert(frame@ =~= spec_encode(
            event,
            match session_id {
                Some(sid) => Some(sid@),
                None => None,
            },
            payload@,
        ));
    }
    frame
}

/// The length-prefixed payload starting at offset `off`, or `Truncated`
/// when the length field or the declared bytes run past the buffer.
pub open spec fn spec_payload_at(data: Seq<u8>, off: int) -> Result<Seq<u8>, CodecError> {
    if off + 4 > data.len() {
        Err(CodecError::Truncated)
    } else {
        let pl = be_to_u32(data.subrange(off, off + 4)) as int;
        if off + 4 + pl > data.len() {
            Err(CodecError::Truncated)
        } else {
            Ok(data.subrange(off + 4, off + 4 + pl))
        }
    }
}

/// The frame a byte buffer decodes to, or the exact error it is rejected
/// with.  Fewer than 8 bytes: `Truncated`.  Unsupported version or type
/// byte: `InvalidHeader`.  A session id is read exactly for known
/// session-scoped events; unknown events decode with no session id.  Any
/// declared length running past the buffer: `Truncated`.  Bytes after the
/// declared payload are ignored.
pub open spec fn spec_decode(data: Seq<u8>) -> Result<FrameView, CodecError> {
    if data.len() < 8 {
        Err(CodecError::Truncated)
    } else if data[0] != PROTOCOL_VERSION || !is_msg_type_code(data[1]) {
        Err(CodecError::InvalidHeader)
    } else {
        let event = be_to_u32(data.subrange(4, 8)) as i32;
        if is_known_event(event) && event_has_session(event) {
            if data.len() < 12 {
                Err(CodecError::Truncated)
            } else {
                let sl = be_to_u32(data.subrange(8, 12)) as int;
                if 12 + sl > data.len() {
                    Err(CodecError::Truncated)
                } else {
                    match spec_payload_at(data, 12 + sl) {
                        Ok(payload) => Ok(
                            (FrameView {
                                msg_type: msg_type_of_code(data[1]),
                                serialization: data[2],
                                event,
                                session_id: Some(data.subrange(12, 12 + sl)),
                                payload,
                            }),
                        ),
                        Err(e) => Err(e),
                    }
                }
            }
        } else {
            match spec_payload_at(data, 8) {
                Ok(payload) => Ok(
                    (FrameView {
                        msg_type: msg_type_of_code(data[1]),
                        serialization: data[2],
                        event,
                        session_id: None,
                        payload,
                    }),
                ),
                Err(e) => Err(e),
            }
        }
    }
}

/// Reads the length-prefixed payload at `off`; see [`spec_payload_at`].
fn payload_at(data: &[u8], off: usize) -> (r: Result<Vec<u8>, CodecError>)
    requires
        off <= data@.len(),
    ensures
        (match r {
            Ok(payload) => spec_payload_at(data@, off as int) == Ok::<Seq<u8>, CodecError>(
                payload@,
            ),
            Err(e) => spec_payload_at(data@, off as int) == Err::<Seq<u8>, CodecError>(e),
        }),
{
    let n: usize = data.len();
    if n - off < 4 {
        return Err(CodecError::Truncated);
    }
    let pl: usize = read_u32_be(data, off) as usize;
    if pl > n - off - 4 {
        return Err(CodecError::Truncated);
    }
    Ok(slice_to_vec(slice_subrange(data, off + 4, off + 4 + pl)))
}

/// Decodes one frame, per [`spec_decode`]; never panics on any input.
pub fn decode(data: &[u8]) -> (r: Result<Frame, CodecError>)
    ensures
        (match r {
            Ok(frame) => spec_decode(data@) == Ok::<FrameView, CodecError>(frame@),
            Err(e) => spec_decode(data@) == Err::<FrameView, CodecError>(e),
        }),
        data@.len() < 8 ==> r == Err::<Frame, CodecError>(CodecError::Truncated),
{
    let n: usize = data.len();
    if n < 8 {
        return Err(CodecError::Truncated);
    }
    if data[0] != PROTOCOL_VERSION {
        return Err(CodecError::InvalidHeader);
    }
    let type_code: u8 = data[1];
    let msg_type: MsgType = if type_code == MSG_TYPE_FULL_CLIENT {
        MsgType::FullClientRequest
    } else if type_code == MSG_TYPE_FULL_SERVER {
        MsgType::FullServerResponse
    } else if type_code == MSG_TYPE_AUDIO_ONLY {
        MsgType::AudioOnlyResponse
    } else {
        return Err(CodecError::InvalidHeader);
    };
    let serialization: u8 = data[2];
    let event: i32 = #[verifier::truncate] (read_u32_be(data, 4) as i32);
    if known_event(event) && session_scoped_event(event) {
        if n < 12 {
            return Err(CodecError::Truncated);
        }
        let sl: usize = read_u32_be(data, 8) as usize;
        if sl > n - 12 {
            return Err(CodecError::Truncated);
        }
        let session_id: Vec<u8> = slice_to_vec(slice_subrange(data, 12, 12 + sl));
        match payload_at(data, 12 + sl) {
            Ok(payload) => Ok(
                Frame { msg_type, serialization, event, session_id: Some(session_id), payload },
            ),
            Err(e) => Err(e),
        }
    } else {
        match payload_at(data, 8) {
            Ok(payload) => Ok(
                Frame { msg_type, serialization, event, session_id: None, payload },
            ),
            Err(e) => Err(e),
        }
    }
}

/// The event code stored in bytes 4 to 7 of a frame.
pub open spec fn spec_event_of(data: Seq<u8>) -> i32
    recommends
        data.len() >= 8,
{
    be_to_u32(data.subrange(4, 8)) as i32
}

/// Reads the event code of a frame, failing with `Truncated` on buffers
/// too short to hold one.
pub fn parse_event(data: &[u8]) -> (r: Result<i32, CodecError>)
    ensures
        data@.len() < 8 ==> r == Err::<i32, CodecError>(CodecError::Truncated),
        data@.len() >= 8 ==> r == Ok::<i32, CodecError>(spec_event_of(data@)),
{
    if data.len() < 8 {
        return Err(CodecError::Truncated);
    }
    Ok(#[verifier::truncate] (read_u32_be(data, 4) as i32))
}

/// The audio bytes of an audio-only frame: everything after the computed
/// offset header(4) + event(4) + session-id-length(4) + session-id +
/// payload-length(4).  `InvalidHeader` for other message types,
/// `Truncated` when the buffer ends before the offset.
pub open spec fn spec_audio_payload(data: Seq<u8>) -> Result<Seq<u8>, CodecError> {
    if data.len() < 2 {
        Err(CodecError::Truncated)
    } else if data[1] != MSG_TYPE_AUDIO_ONLY {
        Err(CodecError::InvalidHeader)
    } else if data.len() < 12 {
        Err(CodecError::Truncated)
    } else {
        let sl = be_to_u32(data.subrange(8, 12)) as int;
        if 16 + sl > data.len() {
            Err(CodecError::Truncated)
        } else {
            Ok(data.subrange(16 + sl, data.len() as int))
        }
    }
}

/// Returns the audio payload suffix of an audio-only response frame, per
/// [`spec_audio_payload`]; never reads out of bounds.
pub fn decode_audio_payload(data: &[u8]) -> (r: Result<Vec<u8>, CodecError>)
    ensures
        (match r {
            Ok(audio) => spec_audio_payload(data@) == Ok::<Seq<u8>, CodecError>(audio@),
            Err(e) => spec_audio_payload(data@) == Err::<Seq<u8>, CodecError>(e),
        }),
{
    let n: usize = data.len();
    if n < 2 {
        return Err(CodecError::Truncated);
    }
    if data[1] != MSG_TYPE_AUDIO_ONLY {
        return Err(CodecError::InvalidHeader);
    }
    if n < 12 {
        return Err(CodecError::Truncated);
    }
    let sl: usize = read_u32_be(data, 8) as usize;
    if n < 16 || sl > n - 16 {
        return Err(CodecError::Truncated);
    }
    Ok(slice_to_vec(slice_subrange(data, 16 + sl, n)))
}

/// The audio bytes of an audio-only frame as an option: `Some` exactly
/// where [`spec_audio_payload`] succeeds — the empty chunk included, as
/// only a buffer shorter than the computed offset is an error — and
/// `None` for any other or too-short frame.
pub open spec fn spec_extract_audio(data: Seq<u8>) -> Option<Seq<u8>> {
    match spec_audio_payload(data) {
        Ok(audio) => Some(audio),
        Err(_) => None,
    }
}

/// Extracts the audio chunk of an audio-only response frame, or `None`
/// for any other or too-short frame, per [`spec_extract_audio`].
pub fn extract_audio_from_frame(data: &[u8]) -> (r: Option<Vec<u8>>)
    ensures
        (match r {
            Some(audio) => spec_extract_audio(data@) == Some(audio@),
            None => spec_extract_audio(data@) is None,
        }),
{
    match decode_audio_payload(data) {
        Ok(audio) => Some(audio),
        Err(_) => None,
    }
}

/// Round-trip law of the codec: an encoded frame decodes back to the
/// same event, session id, and payload.  A session id must be present
/// exactly for the known session-scoped events — on the wire, nothing
/// but the event code says whether the id field exists, so no decoder
/// could recover an id attached to any other event.
pub proof fn lemma_encode_decode_round_trip(
    event: i32,
    session_id: Option<Seq<u8>>,
    payload: Seq<u8>,
)
    requires
        session_id is Some <==> (is_known_event(event) && event_has_session(event)),
        session_id matches Some(sid) ==> sid.len() <= u32::MAX,
        payload.len() <= u32::MAX,
    ensures
        spec_decode(spec_encode(event, session_id, payload)) == Ok::<FrameView, CodecError>(
            (FrameView {
                msg_type: MsgType::FullClientRequest,
                serialization: SERIALIZATION_JSON,
                event,
                session_id,
                payload,
            }),
        ),
{
    let data = spec_encode(event, session_id, payload);
    let eu = #[verifier::truncate] (event as u32);
    lemma_u32_be_round_trip(eu);
    assert((event as u32) as i32 == event) by (bit_vector);
    match session_id {
        Some(sid) => {
            let sl = sid.len() as u32;
            let pl = payload.len() as u32;
            lemma_u32_be_round_trip(sl);
            lemma_u32_be_round_trip(pl);
            assert(data.len() == 16 + sid.len() + payload.len());
            assert(data.subrange(4, 8) =~= u32_to_be(eu));
            assert(data.subrange(8, 12) =~= u32_to_be(sl));
            assert(12 + (be_to_u32(data.subrange(8, 12)) as int) == 12 + sid.len());
            assert(data.subrange(12, 12 + sid.len() as int) =~= sid);
            let off = 12 + sid.len() as int;
            assert(data.subrange(off, off + 4) =~= u32_to_be(pl));
            assert(data.subrange(off + 4, off + 4 + payload.len() as int) =~= payload);
        },
        None => {
            let pl = payload.len() as u32;
            lemma_u32_be_round_trip(pl);
            assert(data.len() == 12 + payload.len());
            assert(data.subrange(4, 8) =~= u32_to_be(eu));
            assert(data.subrange(8, 12) =~= u32_to_be(pl));
            assert(data.subrange(12, 12 + payload.len() as int) =~= payload);
        },
    }
}

} // verus!
