//! The session driver: the public entry point of the protocol core.  It
//! owns one state machine and one reassembler for a session's lifetime,
//! produces every frame the client sends, consumes the frames the
//! transport delivers, and ends in exactly one typed outcome: finished
//! audio or one error.
//!
//! The driver performs no I/O itself.  A caller (the network shell, or a
//! test with a scripted transport) feeds it [`TransportEvent`]s and sends
//! the frames each step hands back.

use vstd::prelude::*;
use vstd::slice::slice_to_vec;

use crate::codec::{
    encode, spec_decode, spec_encode, Frame, MsgType,
    EVENT_CONNECTION_STARTED, EVENT_FINISH_CONNECTION, EVENT_FINISH_SESSION,
    EVENT_SESSION_FINISHED, EVENT_SESSION_STARTED, EVENT_START_CONNECTION, EVENT_START_SESSION,
    EVENT_TASK_REQUEST, EVENT_TTS_RESPONSE,
};
use crate::json::{
    empty_object, empty_object_payload, lemma_empty_object_len, lemma_session_meta_len,
    lemma_task_payload_len, session_meta_bytes, session_meta_payload, task_payload,
    task_payload_bytes,
};
use crate::machine::{SessionMachine, SessionState};
use crate::reassembler::AudioReassembler;

verus! {

/// Smallest accepted speech-rate offset.
pub const MIN_SPEECH_RATE: i32 = -50;

/// Largest accepted speech-rate offset.
pub const MAX_SPEECH_RATE: i32 = 100;

/// Machine limit on the speaker-name bytes, so that every frame length
/// fits its 32-bit field.
pub const MAX_SPEAKER_BYTES: usize = 0x00ff_ffff;

/// Machine limit on the text bytes, so that every frame length fits its
/// 32-bit field.
pub const MAX_TEXT_BYTES: usize = 0x00ff_ffff;

/// The voice parameters of one synthesis request.
pub struct VoiceParams {
    pub speaker: Vec<u8>,
    pub sample_rate: u32,
    pub speech_rate: i32,
}

/// The mathematical model of [`VoiceParams`].
pub struct VoiceParamsView {
    pub speaker: Seq<u8>,
    pub sample_rate: u32,
    pub speech_rate: int,
}

impl View for VoiceParams {
    type V = VoiceParamsView;

    open spec fn view(&self) -> VoiceParamsView {
        VoiceParamsView {
            speaker: self.speaker@,
            sample_rate: self.sample_rate,
            speech_rate: self.speech_rate as int,
        }
    }
}

impl VoiceParamsView {
    /// Accepted parameters: the speech-rate offset lies in the contract
    /// range and the speaker name respects the machine limit.
    pub open spec fn valid(self) -> bool {
        &&& MIN_SPEECH_RATE <= self.speech_rate <= MAX_SPEECH_RATE
        &&& self.speaker.len() <= MAX_SPEAKER_BYTES
    }
}

impl VoiceParams {
    /// Checks [`VoiceParamsView::valid`] at run time.
    pub fn check(&self) -> (b: bool)
        ensures
            b == self@.valid(),
    {
        MIN_SPEECH_RATE <= self.speech_rate && self.speech_rate <= MAX_SPEECH_RATE
            && self.speaker.len() <= MAX_SPEAKER_BYTES
    }
}

/// The audio container format of a finished synthesis.
#[derive(Clone, Copy, Debug, PartialEq, Eq, Structural)]
pub enum AudioFormat {
    Mp3,
}

/// A finished synthesis: the reassembled audio, its format tag, and the
/// sample rate it was requested at.
#[derive(Debug)]
pub struct AudioResult {
    pub audio: Vec<u8>,
    pub format: AudioFormat,
    pub sample_rate: u32,
}

/// The failure taxonomy of one synthesis call.  Mid-session transport
/// failures (a closed stream, an I/O error) surface as `Protocol`.
#[derive(Clone, Copy, Debug, PartialEq, Eq, Structural)]
pub enum TtsError {
    InvalidParams,
    Connect,
    Protocol,
    Timeout,
    EmptyResult,
}

/// One observation from the transport: a binary frame, the end of the
/// stream, an I/O failure, or an expired phase deadline.
#[derive(Debug)]
pub enum TransportEvent {
    Frame(Vec<u8>),
    EndOfStream,
    IoError,
    DeadlineExceeded,
}

/// The mathematical model of a [`TransportEvent`].
pub enum TransportEventView {
    Frame(Seq<u8>),
    EndOfStream,
    IoError,
    DeadlineExceeded,
}

impl View for TransportEvent {
    type V = TransportEventView;

    open spec fn view(&self) -> TransportEventView {
        match self {
            TransportEvent::Frame(data) => TransportEventView::Frame(data@),
            TransportEvent::EndOfStream => TransportEventView::EndOfStream,
            TransportEvent::IoError => TransportEventView::IoError,
            TransportEvent::DeadlineExceeded => TransportEventView::DeadlineExceeded,
        }
    }
}

/// What one driver step decides: keep waiting, finish with audio, or
/// fail with one typed error.
#[derive(Debug)]
pub enum Outcome {
    Continue,
    Done(AudioResult),
    Failed(TtsError),
}

/// One driver step: the frames to send now, in order, and the decision.
#[derive(Debug)]
pub struct Step {
    pub frames: Vec<Vec<u8>>,
    pub outcome: Outcome,
}

/// The model of a step: successor state, accumulated audio, frames to
/// send, and the decision.
pub struct StepModel {
    pub state: SessionState,
    pub audio: Seq<u8>,
    pub frames: Seq<Seq<u8>>,
    pub outcome: OutcomeModel,
}

/// The model of a decision; `Done` carries the audio bytes and the
/// sample rate of the result.
pub enum OutcomeModel {
    Continue,
    Done(Seq<u8>, u32),
    Failed(TtsError),
}

/// The views of a sequence of byte frames.
pub open spec fn views_of(frames: Seq<Vec<u8>>) -> Seq<Seq<u8>> {
    Seq::new(frames.len(), |i: int| frames[i]@)
}

/// The views of a sequence of transport events.
pub open spec fn events_view(script: Seq<TransportEvent>) -> Seq<TransportEventView> {
    Seq::new(script.len(), |i: int| script[i]@)
}

/// The frame that opens the connection.
pub open spec fn start_connection_frame() -> Seq<u8> {
    spec_encode(EVENT_START_CONNECTION, None, empty_object())
}

/// The frame that opens the session, carrying the voice parameters.
pub open spec fn start_session_frame(sid: Seq<u8>, params: VoiceParamsView) -> Seq<u8> {
    spec_encode(
        EVENT_START_SESSION,
        Some(sid),
        session_meta_bytes(params.speaker, params.sample_rate, params.speech_rate),
    )
}

/// The frame that submits the text to synthesize.
pub open spec fn task_frame(sid: Seq<u8>, text: Seq<u8>) -> Seq<u8> {
    spec_encode(EVENT_TASK_REQUEST, Some(sid), task_payload_bytes(text))
}

/// The frame that releases the session.
pub open spec fn finish_session_frame(sid: Seq<u8>) -> Seq<u8> {
    spec_encode(EVENT_FINISH_SESSION, Some(sid), empty_object())
}

/// The frame that releases the connection.
pub open spec fn finish_connection_frame() -> Seq<u8> {
    spec_encode(EVENT_FINISH_CONNECTION, None, empty_object())
}

/// The best-effort teardown pair sent on every exit path, so that no
/// server-side session state is leaked.
pub open spec fn teardown_frames(sid: Seq<u8>) -> Seq<Seq<u8>> {
    seq![finish_session_frame(sid), finish_connection_frame()]
}

/// The states in which the driver waits for the transport.
pub open spec fn waiting_state(s: SessionState) -> bool {
    ||| s == SessionState::ConnectionPending
    ||| s == SessionState::SessionPending
    ||| s == SessionState::Streaming
}

/// A failing step: the machine moves to `Failed` and the teardown pair
/// is still sent.  The partial audio is kept internally but never
/// returned.
pub open spec fn fail_model(audio: Seq<u8>, sid: Seq<u8>, e: TtsError) -> StepModel {
    StepModel {
        state: SessionState::Failed,
        audio,
        frames: teardown_frames(sid),
        outcome: OutcomeModel::Failed(e),
    }
}

/// The exact step the driver takes in a waiting state on one transport
/// event: the protocol's receive-side transition table, with the frames
/// each transition sends.
pub open spec fn step_model(
    state: SessionState,
    audio: Seq<u8>,
    sid: Seq<u8>,
    text: Seq<u8>,
    params: VoiceParamsView,
    ev: TransportEventView,
) -> StepModel {
    match ev {
        TransportEventView::DeadlineExceeded => fail_model(audio, sid, TtsError::Timeout),
        TransportEventView::EndOfStream => fail_model(audio, sid, TtsError::Protocol),
        TransportEventView::IoError => fail_model(audio, sid, TtsError::Protocol),
        TransportEventView::Frame(data) => match spec_decode(data) {
            Err(_) => fail_model(audio, sid, TtsError::Protocol),
            Ok(f) => {
                if state == SessionState::ConnectionPending && f.event
                    == EVENT_CONNECTION_STARTED {
                    StepModel {
                        state: SessionState::SessionPending,
                        audio,
                        frames: seq![start_session_frame(sid, params)],
                        outcome: OutcomeModel::Continue,
                    }
                } else if state == SessionState::SessionPending && f.event
                    == EVENT_SESSION_STARTED {
                    StepModel {
                        state: SessionState::Streaming,
                        audio,
                        frames: seq![task_frame(sid, text)],
                        outcome: OutcomeModel::Continue,
                    }
                } else if state == SessionState::Streaming && f.event == EVENT_TTS_RESPONSE
                    && f.msg_type == MsgType::AudioOnlyResponse {
                    StepModel {
                        state: SessionState::Streaming,
                        audio: audio + f.payload,
                        frames: Seq::empty(),
                        outcome: OutcomeModel::Continue,
                    }
                } else if state == SessionState::Streaming && f.event == EVENT_SESSION_FINISHED {
                    StepModel {
                        state: SessionState::Closed,
                        audio: Seq::empty(),
                        frames: teardown_frames(sid),
                        outcome: if audio.len() > 0 {
                            OutcomeModel::Done(audio, params.sample_rate)
                        } else {
                            OutcomeModel::Failed(TtsError::EmptyResult)
                        },
                    }
                } else {
                    fail_model(audio, sid, TtsError::Protocol)
                }
            },
        },
    }
}

/// Whether an executable decision realises a modelled one.
pub open spec fn outcome_matches(o: Outcome, m: OutcomeModel) -> bool {
    match m {
        OutcomeModel::Continue => o matches Outcome::Continue,
        OutcomeModel::Done(audio, sample_rate) => {
            &&& o matches Outcome::Done(res)
            &&& res.audio@ == audio
            &&& res.format == AudioFormat::Mp3
            &&& res.sample_rate == sample_rate
        },
        OutcomeModel::Failed(e) => o matches Outcome::Failed(e2) && e2 == e,
    }
}

/// Whether a final result realises a modelled decision (which is then
/// never `Continue`).
pub open spec fn result_matches(r: Result<AudioResult, TtsError>, m: OutcomeModel) -> bool {
    match m {
        OutcomeModel::Continue => false,
        OutcomeModel::Done(audio, sample_rate) => {
            &&& r matches Ok(res)
            &&& res.audio@ == audio
            &&& res.format == AudioFormat::Mp3
            &&& res.sample_rate == sample_rate
        },
        OutcomeModel::Failed(e) => r matches Err(e2) && e2 == e,
    }
}

/// The model of a whole run: every frame sent after the opening frame,
/// and the one decision the run ends in.
pub struct RunModel {
    pub frames: Seq<Seq<u8>>,
    pub outcome: OutcomeModel,
}

/// Runs the step model over a script of transport events, starting in a
/// waiting state.  A script that ends while the driver still waits is an
/// expired phase deadline.
pub open spec fn run_model(
    state: SessionState,
    audio: Seq<u8>,
    sid: Seq<u8>,
    text: Seq<u8>,
    params: VoiceParamsView,
    script: Seq<TransportEventView>,
) -> RunModel
    decreases script.len(),
{
    if script.len() == 0 {
        let m = step_model(state, audio, sid, text, params, TransportEventView::DeadlineExceeded);
        RunModel { frames: m.frames, outcome: m.outcome }
    } else {
        let m = step_model(state, audio, sid, text, params, script[0]);
        if m.outcome is Continue {
            let rest = run_model(m.state, m.audio, sid, text, params, script.drop_first());
            RunModel { frames: m.frames + rest.frames, outcome: rest.outcome }
        } else {
            RunModel { frames: m.frames, outcome: m.outcome }
        }
    }
}

/// Relies on uuid's `Uuid::new_v4` and its `Display` form: a fresh
/// random identifier, printed as 36 ASCII bytes — lowercase hex digits
/// and four hyphens.  Nothing is assumed about which identifier comes
/// back.
#[verifier::external_body]
fn fresh_session_id() -> (r: Vec<u8>)
    ensures
        r@.len() == 36,
        forall|i: int|
            0 <= i < r@.len() ==> ((#[trigger] r@[i]) == 0x2d || (0x30 <= r@[i] <= 0x39) || (0x61
                <= r@[i] <= 0x66)),
{
    uuid::Uuid::new_v4().to_string().into_bytes()
}

/// The driver of one session.  It is created with the text and voice
/// parameters, hands out the opening frame, and is then stepped with one
/// transport event at a time until it reports a terminal outcome.
pub struct SessionDriver {
    machine: SessionMachine,
    reassembler: AudioReassembler,
    session_id: Vec<u8>,
    text: Vec<u8>,
    params: VoiceParams,
}

impl SessionDriver {
    /// The current protocol phase.
    pub closed spec fn state(&self) -> SessionState {
        self.machine.state
    }

    /// The audio accumulated so far.
    pub closed spec fn audio(&self) -> Seq<u8> {
        self.reassembler.buffer()
    }

    /// The session identifier generated for this call.
    pub closed spec fn session_id(&self) -> Seq<u8> {
        self.session_id@
    }

    /// The text being synthesized.
    pub closed spec fn text(&self) -> Seq<u8> {
        self.text@
    }

    /// The voice parameters of this call.
    pub closed spec fn params(&self) -> VoiceParamsView {
        self.params@
    }

    /// Well-formedness: valid parameters, bounded text, a session id
    /// that fits its length field, and a consistent reassembler.
    pub closed spec fn wf(&self) -> bool {
        &&& self.params().valid()
        &&& self.text().len() <= MAX_TEXT_BYTES
        &&& self.session_id().len() <= u32::MAX
        &&& self.reassembler.wf()
    }

    /// The session identifier as bytes.
    pub fn session_id_bytes(&self) -> (r: Vec<u8>)
        ensures
            r@ == self.session_id(),
    {
        slice_to_vec(self.session_id.as_slice())
    }

    /// Starts a session: validates the voice parameters before any
    /// network activity, generates a fresh session id, and returns the
    /// driver together with the opening frame.  Out-of-range parameters
    /// are the error `InvalidParams` and nothing else happens.
    pub fn new(text: Vec<u8>, params: VoiceParams) -> (r: Result<(SessionDriver, Vec<u8>), TtsError>)
        requires
            text@.len() <= MAX_TEXT_BYTES,
        ensures
            (match r {
                Ok(p) => {
                    &&& params@.valid()
                    &&& p.0.wf()
                    &&& p.0.state() == SessionState::ConnectionPending
                    &&& p.0.audio() == Seq::<u8>::empty()
                    &&& p.0.text() == text@
                    &&& p.0.params() == params@
                    &&& p.1@ == start_connection_frame()
                },
                Err(e) => e == TtsError::InvalidParams && !params@.valid(),
            }),
    {
        if !params.check() {
            return Err(TtsError::InvalidParams);
        }
        let session_id = fresh_session_id();
        let mut machine = SessionMachine::new();
        machine.record_send(EVENT_START_CONNECTION);
        let payload = empty_object_payload();
        proof {
            lemma_empty_object_len();
        }
        let frame = encode(EVENT_START_CONNECTION, None, &payload);
        let driver = SessionDriver {
            machine,
            reassembler: AudioReassembler::new(),
            session_id,
            text,
            params,
        };
        Ok((driver, frame))
    }

    /// Builds the best-effort teardown pair.
    fn make_teardown(&self) -> (frames: Vec<Vec<u8>>)
        requires
            self.session_id().len() <= u32::MAX,
        ensures
            views_of(frames@) == teardown_frames(self.session_id()),
    {
        proof {
            lemma_empty_object_len();
        }
        let payload = empty_object_payload();
        let f1 = encode(EVENT_FINISH_SESSION, Some(&self.session_id), &payload);
        let f2 = encode(EVENT_FINISH_CONNECTION, None, &payload);
        let mut frames: Vec<Vec<u8>> = Vec::new();
        frames.push(f1);
        frames.push(f2);
        proof {
            assert(views_of(frames@) =~= teardown_frames(self.session_id()));
        }
        frames
    }

    /// Fails the session: the machine moves to `Failed` and the step
    /// carries the teardown pair and the error.
    fn fail_with(&mut self, e: TtsError) -> (step: Step)
        requires
            old(self).wf(),
        ensures
            final(self).wf(),
            final(self).state() == SessionState::Failed,
            final(self).audio() == old(self).audio(),
            final(self).session_id() == old(self).session_id(),
            final(self).text() == old(self).text(),
            final(self).params() == old(self).params(),
            views_of(step.frames@) == teardown_frames(old(self).session_id()),
            step.outcome matches Outcome::Failed(e2) && e2 == e,
    {
        self.machine.fail();
        let frames = self.make_teardown();
        Step { frames, outcome: Outcome::Failed(e) }
    }

    /// Steps the driver on one transport event, per [`step_model`]: it
    /// returns the frames to send now and either keeps waiting, finishes
    /// with the reassembled audio (`EmptyResult` if no audio frame ever
    /// arrived), or fails with one typed error after emitting the
    /// teardown pair.
    pub fn on_event(&mut self, ev: &TransportEvent) -> (step: Step)
        requires
            old(self).wf(),
            waiting_state(old(self).state()),
        ensures
            final(self).wf(),
            final(self).session_id() == old(self).session_id(),
            final(self).text() == old(self).text(),
            final(self).params() == old(self).params(),
            ({
                let m = step_model(
                    old(self).state(),
                    old(self).audio(),
                    old(self).session_id(),
                    old(self).text(),
                    old(self).params(),
                    ev@,
                );
                &&& final(self).state() == m.state
                &&& final(self).audio() == m.audio
                &&& views_of(step.frames@) == m.frames
                &&& outcome_matches(step.outcome, m.outcome)
                &&& ((step.outcome matches Outcome::Continue) <==> waiting_state(
                    final(self).state(),
                ))
            }),
    {
        let data: &Vec<u8> = match ev {
            TransportEvent::DeadlineExceeded => {
                return self.fail_with(TtsError::Timeout);
            },
            TransportEvent::EndOfStream => {
                return self.fail_with(TtsError::Protocol);
            },
            TransportEvent::IoError => {
                return self.fail_with(TtsError::Protocol);
            },
            TransportEvent::Frame(data) => data,
        };
        let frame: Frame = match crate::codec::decode(data.as_slice()) {
            Err(_) => {
                return self.fail_with(TtsError::Protocol);
            },
            Ok(frame) => frame,
        };
        if self.machine.state == SessionState::ConnectionPending && frame.event
            == EVENT_CONNECTION_STARTED {
            self.machine.record_recv(EVENT_CONNECTION_STARTED);
            let f = self.build_start_session();
            self.machine.record_send(EVENT_START_SESSION);
            let mut frames: Vec<Vec<u8>> = Vec::new();
            frames.push(f);
            proof {
                assert(views_of(frames@) =~= seq![
                    start_session_frame(self.session_id(), self.params()),
                ]);
            }
            Step { frames, outcome: Outcome::Continue }
        } else if self.machine.state == SessionState::SessionPending && frame.event
            == EVENT_SESSION_STARTED {
            self.machine.record_recv(EVENT_SESSION_STARTED);
            let f = self.build_task();
            self.machine.record_send(EVENT_TASK_REQUEST);
            let mut frames: Vec<Vec<u8>> = Vec::new();
            frames.push(f);
            proof {
                assert(views_of(frames@) =~= seq![task_frame(self.session_id(), self.text())]);
            }
            Step { frames, outcome: Outcome::Continue }
        } else if self.machine.state == SessionState::Streaming && frame.event
            == EVENT_TTS_RESPONSE && frame.msg_type == MsgType::AudioOnlyResponse {
            self.machine.record_recv(EVENT_TTS_RESPONSE);
            self.reassembler.append(frame.payload.as_slice());
            proof {
                assert(views_of(Seq::<Vec<u8>>::empty()) =~= Seq::<Seq<u8>>::empty());
            }
            Step { frames: Vec::new(), outcome: Outcome::Continue }
        } else if self.machine.state == SessionState::Streaming && frame.event
            == EVENT_SESSION_FINISHED {
            self.machine.record_recv(EVENT_SESSION_FINISHED);
            let frames = self.make_teardown();
            self.machine.record_send(EVENT_FINISH_SESSION);
            self.machine.record_send(EVENT_FINISH_CONNECTION);
            let mut fresh = AudioReassembler::new();
            core::mem::swap(&mut self.reassembler, &mut fresh);
            let audio = fresh.finalize();
            if audio.len() > 0 {
                let result = AudioResult {
                    audio,
                    format: AudioFormat::Mp3,
                    sample_rate: self.params.sample_rate,
                };
                Step { frames, outcome: Outcome::Done(result) }
            } else {
                Step { frames, outcome: Outcome::Failed(TtsError::EmptyResult) }
            }
        } else {
            self.fail_with(TtsError::Protocol)
        }
    }

    /// Builds the session-setup frame.
    fn build_start_session(&self) -> (f: Vec<u8>)
        requires
            self.wf(),
        ensures
            f@ == start_session_frame(self.session_id(), self.params()),
    {
        proof {
            lemma_session_meta_len(
                self.params().speaker,
                self.params().sample_rate,
                self.params().speech_rate,
            );
        }
        let payload = session_meta_payload(
            self.params.speaker.as_slice(),
            self.params.sample_rate,
            self.params.speech_rate,
        );
        encode(EVENT_START_SESSION, Some(&self.session_id), &payload)
    }

    /// Builds the task-request frame.
    fn build_task(&self) -> (f: Vec<u8>)
        requires
            self.wf(),
        ensures
            f@ == task_frame(self.session_id(), self.text()),
    {
        proof {
            lemma_task_payload_len(self.text());
        }
        let payload = task_payload(self.text.as_slice());
        encode(EVENT_TASK_REQUEST, Some(&self.session_id), &payload)
    }
}

/// The record of one synthesis call: the one result, every frame that
/// was handed to the transport, in order, and the session id the call
/// generated.
#[derive(Debug)]
pub struct SessionLog {
    pub result: Result<AudioResult, TtsError>,
    pub sent: Vec<Vec<u8>>,
    pub session_id: Vec<u8>,
}

/// Drives `driver` over `script[i..]`, appending every sent frame to
/// `sent`, and returns the run's one result, per [`run_model`].
fn run_events(
    driver: &mut SessionDriver,
    script: &Vec<TransportEvent>,
    i: usize,
    sent: &mut Vec<Vec<u8>>,
) -> (r: Result<AudioResult, TtsError>)
    requires
        old(driver).wf(),
        waiting_state(old(driver).state()),
        i <= script@.len(),
    ensures
        ({
            let run = run_model(
                old(driver).state(),
                old(driver).audio(),
                old(driver).session_id(),
                old(driver).text(),
                old(driver).params(),
                events_view(script@).skip(i as int),
            );
            &&& views_of(final(sent)@) == views_of(old(sent)@) + run.frames
            &&& result_matches(r, run.outcome)
        }),
    decreases script@.len() - i,
{
    let ghost st0 = driver.state();
    let ghost au0 = driver.audio();
    let ghost sid0 = driver.session_id();
    let ghost tx0 = driver.text();
    let ghost pr0 = driver.params();
    let ghost sent0 = sent@;
    let ghost tail = events_view(script@).skip(i as int);
    if i == script.len() {
        let deadline = TransportEvent::DeadlineExceeded;
        let mut step = driver.on_event(&deadline);
        let ghost fs = step.frames@;
        sent.append(&mut step.frames);
        proof {
            assert(views_of(sent@) =~= views_of(sent0) + views_of(fs));
        }
        match step.outcome {
            Outcome::Failed(e) => Err(e),
            Outcome::Done(res) => Ok(res),
            Outcome::Continue => {
                // An expired deadline never continues the session.
                proof {
                    assert(false);
                }
                Err(TtsError::Protocol)
            },
        }
    } else {
        proof {
            assert(tail[0] == script@[i as int]@);
            assert(tail.drop_first() =~= events_view(script@).skip(i as int + 1));
        }
        let mut step = driver.on_event(&script[i]);
        let ghost fs = step.frames@;
        sent.append(&mut step.frames);
        proof {
            assert(views_of(sent@) =~= views_of(sent0) + views_of(fs));
        }
        match step.outcome {
            Outcome::Continue => {
                let r = run_events(driver, script, i + 1, sent);
                proof {
                    let m = step_model(st0, au0, sid0, tx0, pr0, tail[0]);
                    let rest = run_model(m.state, m.audio, sid0, tx0, pr0, tail.drop_first());
                    let run = run_model(st0, au0, sid0, tx0, pr0, tail);
                    assert(run.frames == m.frames + rest.frames);
                    assert(views_of(sent@) =~= (views_of(sent0) + m.frames) + rest.frames);
                    assert((views_of(sent0) + m.frames) + rest.frames =~= views_of(sent0) + (
                    m.frames + rest.frames));
                }
                r
            },
            Outcome::Done(res) => Ok(res),
            Outcome::Failed(e) => Err(e),
        }
    }
}

/// One whole synthesis call against a scripted transport: validates the
/// parameters, opens with `StartConnection`, drives the handshake, task
/// submission, streaming and teardown over the script's events, and
/// returns exactly one result together with every frame sent.
///
/// Rejected parameters produce `InvalidParams` before anything is sent.
/// Otherwise the sent frames are the opening frame followed by the
/// frames of [`run_model`], and the result realises its outcome.
pub fn synthesize(text: Vec<u8>, params: VoiceParams, script: &Vec<TransportEvent>) -> (log:
    SessionLog)
    requires
        text@.len() <= MAX_TEXT_BYTES,
    ensures
        !params@.valid() ==> {
            &&& log.result matches Err(e) && e == TtsError::InvalidParams
            &&& log.sent@.len() == 0
        },
        params@.valid() ==> {
            let run = run_model(
                SessionState::ConnectionPending,
                Seq::<u8>::empty(),
                log.session_id@,
                text@,
                params@,
                events_view(script@),
            );
            &&& views_of(log.sent@) == seq![start_connection_frame()] + run.frames
            &&& result_matches(log.result, run.outcome)
        },
{
    match SessionDriver::new(text, params) {
        Err(e) => SessionLog { result: Err(e), sent: Vec::new(), session_id: Vec::new() },
        Ok((mut driver, first)) => {
            let session_id = driver.session_id_bytes();
            let ghost sid0 = driver.session_id();
            let mut sent: Vec<Vec<u8>> = Vec::new();
            sent.push(first);
            proof {
                assert(views_of(sent@) =~= seq![start_connection_frame()]);
            }
            let ghost sent1 = sent@;
            let result = run_events(&mut driver, script, 0, &mut sent);
            proof {
                assert(events_view(script@).skip(0) =~= events_view(script@));
                let run = run_model(
                    SessionState::ConnectionPending,
                    Seq::<u8>::empty(),
                    sid0,
                    text@,
                    params@,
                    events_view(script@),
                );
                assert(views_of(sent@) =~= views_of(sent1) + run.frames);
                assert(views_of(sent@) =~= seq![start_connection_frame()] + run.frames);
            }
            SessionLog { result, sent, session_id }
        },
    }
}

} // verus!
