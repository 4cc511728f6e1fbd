//! Builders for the JSON control payloads that client frames carry, with
//! byte-exact specifications: JSON string escaping and the three payload
//! shapes the protocol sends.

use vstd::prelude::*;
use vstd::string::StrSliceExecFns;
use vstd::string::StringSliceAdditionalSpecFns;

use crate::numbers::{dec_digits, dec_int, push_decimal_i32, push_decimal_u32};

verus! {

/// The ASCII code of a hexadecimal digit, lower case.
pub open spec fn hex_digit(d: u8) -> u8
    recommends
        d < 16,
{
    if d < 10 {
        (0x30 + d) as u8
    } else {
        (0x57 + d) as u8
    }
}

/// How one byte appears inside a JSON string literal: quote and backslash
/// get a backslash escape, control bytes become `\u00XX`, and every other
/// byte (UTF-8 continuation bytes included) stands as itself.
pub open spec fn esc_byte(b: u8) -> Seq<u8> {
    if b == 0x22 {
        seq![0x5cu8, 0x22u8]
    } else if b == 0x5c {
        seq![0x5cu8, 0x5cu8]
    } else if b < 0x20 {
        seq![0x5cu8, 0x75u8, 0x30u8, 0x30u8, hex_digit(b / 16), hex_digit(b % 16)]
    } else {
        seq![b]
    }
}

/// The escaped form of a byte sequence: each byte replaced by
/// [`esc_byte`], in order.
pub open spec fn json_escaped(s: Seq<u8>) -> Seq<u8>
    decreases s.len(),
{
    if s.len() == 0 {
        Seq::empty()
    } else {
        json_escaped(s.drop_last()) + esc_byte(s.last())
    }
}

/// A JSON string literal: the escaped bytes between double quotes.
pub open spec fn json_string(s: Seq<u8>) -> Seq<u8> {
    seq![0x22u8] + json_escaped(s) + seq![0x22u8]
}

/// A UTF-8 encoding takes at least one and at most four bytes per
/// character.
pub proof fn lemma_encode_utf8_len(chars: Seq<char>)
    ensures
        chars.len() <= vstd::utf8::encode_utf8(chars).len() <= 4 * chars.len(),
    decreases chars.len(),
{
    if chars.len() == 0 {
    } else {
        lemma_encode_utf8_len(chars.drop_first());
    }
}

/// Escaping grows a string by at most a factor of six.
pub proof fn lemma_json_escaped_len(s: Seq<u8>)
    ensures
        s.len() <= json_escaped(s).len() <= 6 * s.len(),
    decreases s.len(),
{
    if s.len() == 0 {
    } else {
        lemma_json_escaped_len(s.drop_last());
    }
}

/// Size of the empty-object payload.
pub proof fn lemma_empty_object_len()
    ensures
        empty_object().len() <= 8,
{
    reveal_strlit("{}");
    lemma_encode_utf8_len("{}"@);
}

/// Size bound of the task payload: fixed framing plus the escaped text.
pub proof fn lemma_task_payload_len(text: Seq<u8>)
    ensures
        task_payload_bytes(text).len() <= 64 + 6 * text.len(),
{
    reveal_strlit("{\"text\":");
    reveal_strlit("}");
    lemma_encode_utf8_len("{\"text\":"@);
    lemma_encode_utf8_len("}"@);
    lemma_json_escaped_len(text);
}

/// Size bound of the session-setup payload: fixed framing, the escaped
/// speaker name, and at most 21 digit bytes for the two numbers.
pub proof fn lemma_session_meta_len(speaker: Seq<u8>, sample_rate: u32, speech_rate: int)
    requires
        -(u32::MAX as int) <= speech_rate <= u32::MAX,
    ensures
        session_meta_bytes(speaker, sample_rate, speech_rate).len() <= 512 + 6 * speaker.len(),
{
    reveal_strlit("{\"user\":{\"uid\":\"user_001\"},\"req_params\":{\"speaker\":");
    reveal_strlit(",\"audio_params\":{\"format\":\"mp3\",\"sample_rate\":");
    reveal_strlit(",\"speech_rate\":");
    reveal_strlit("}}}");
    lemma_encode_utf8_len("{\"user\":{\"uid\":\"user_001\"},\"req_params\":{\"speaker\":"@);
    lemma_encode_utf8_len(",\"audio_params\":{\"format\":\"mp3\",\"sample_rate\":"@);
    lemma_encode_utf8_len(",\"speech_rate\":"@);
    lemma_encode_utf8_len("}}}"@);
    lemma_json_escaped_len(speaker);
    crate::numbers::lemma_pow10_ten();
    crate::numbers::lemma_dec_digits_len(sample_rate as nat, 10);
    crate::numbers::lemma_dec_int_len(speech_rate);
}

fn hex_digit_of(d: u8) -> (r: u8)
    requires
        d < 16,
    ensures
        r == hex_digit(d),
{
    if d < 10 {
        0x30 + d
    } else {
        0x57 + d
    }
}

/// Appends the JSON string literal holding `s` to `out`.
pub fn push_json_string(out: &mut Vec<u8>, s: &[u8])
    ensures
        final(out)@ == old(out)@ + json_string(s@),
{
    let ghost out0: Seq<u8> = out@;
    out.push(0x22);
    let n: usize = s.len();
    for i in 0..n
        invariant
            n == s@.len(),
            out@ == out0 + seq![0x22u8] + json_escaped(s@.take(i as int)),
    {
        let b: u8 = s[i];
        proof {
            assert(s@.take(i + 1).drop_last() =~= s@.take(i as int));
            assert(s@.take(i + 1).last() == b);
        }
        if b == 0x22 {
            out.push(0x5c);
            out.push(0x22);
        } else if b == 0x5c {
            out.push(0x5c);
            out.push(0x5c);
        } else if b < 0x20 {
            out.push(0x5c);
            out.push(0x75);
            out.push(0x30);
            out.push(0x30);
            out.push(hex_digit_of(b / 16));
            out.push(hex_digit_of(b % 16));
        } else {
            out.push(b);
        }
        proof {
            assert(out@ =~= out0 + seq![0x22u8] + json_escaped(s@.take(i + 1)));
        }
    }
    proof {
        assert(s@.take(n as int) =~= s@);
    }
    out.push(0x22);
    proof {
        assert(out@ =~= out0 + json_string(s@));
    }
}

/// The empty JSON object sent with connection-level events.
pub open spec fn empty_object() -> Seq<u8> {
    "{}".spec_bytes()
}

/// Builds the empty-object payload.
pub fn empty_object_payload() -> (r: Vec<u8>)
    ensures
        r@ == empty_object(),
{
    "{}".as_bytes_vec()
}

/// The task-request payload: an object holding the text to synthesize.
pub open spec fn task_payload_bytes(text: Seq<u8>) -> Seq<u8> {
    "{\"text\":".spec_bytes() + json_string(text) + "}".spec_bytes()
}

/// Builds the task-request payload for `text`.
pub fn task_payload(text: &[u8]) -> (r: Vec<u8>)
    ensures
        r@ == task_payload_bytes(text@),
{
    let mut out: Vec<u8> = "{\"text\":".as_bytes_vec();
    push_json_string(&mut out, text);
    let mut tail: Vec<u8> = "}".as_bytes_vec();
    out.append(&mut tail);
    proof {
        assert(out@ =~= task_payload_bytes(text@));
    }
    out
}

/// The session-setup payload: user identity and the requested voice,
/// audio format, sample rate, and speech rate.
pub open spec fn session_meta_bytes(speaker: Seq<u8>, sample_rate: u32, speech_rate: int) -> Seq<
    u8,
> {
    "{\"user\":{\"uid\":\"user_001\"},\"req_params\":{\"speaker\":".spec_bytes() + json_string(
        speaker,
    ) + ",\"audio_params\":{\"format\":\"mp3\",\"sample_rate\":".spec_bytes() + dec_digits(
        sample_rate as nat,
    ) + ",\"speech_rate\":".spec_bytes() + dec_int(speech_rate) + "}}}".spec_bytes()
}

/// Builds the session-setup payload.
pub fn session_meta_payload(speaker: &[u8], sample_rate: u32, speech_rate: i32) -> (r: Vec<u8>)
    requires
        speech_rate > i32::MIN,
    ensures
        r@ == session_meta_bytes(speaker@, sample_rate, speech_rate as int),
{
    let mut out: Vec<u8> =
        "{\"user\":{\"uid\":\"user_001\"},\"req_params\":{\"speaker\":".as_bytes_vec();
    push_json_string(&mut out, speaker);
    let mut mid: Vec<u8> = ",\"audio_params\":{\"format\":\"mp3\",\"sample_rate\":".as_bytes_vec();
    out.append(&mut mid);
    push_decimal_u32(&mut out, sample_rate);
    let mut mid2: Vec<u8> = ",\"speech_rate\":".as_bytes_vec();
    out.append(&mut mid2);
    push_decimal_i32(&mut out, speech_rate);
    let mut tail: Vec<u8> = "}}}".as_bytes_vec();
    out.append(&mut tail);
    proof {
        assert(out@ =~= session_meta_bytes(speaker@, sample_rate, speech_rate as int));
    }
    out
}

} // verus!
