use doubao_tts::machine::{SessionMachine, SessionState};
use doubao_tts::reassembler::AudioReassembler;

#[test]
fn reassembler_concatenates_chunks_in_order() {
    let mut reassembler = AudioReassembler::new();
    reassembler.append(b"A");
    reassembler.append(b"");
    reassembler.append(b"BC");
    assert_eq!(reassembler.finalize(), b"ABC".to_vec());
}

#[test]
fn reassembler_with_no_chunks_is_empty() {
    let reassembler = AudioReassembler::new();
    assert!(reassembler.finalize().is_empty());
}

#[test]
fn start_session_before_connection_started_fails() {
    // From Idle: the connection was never even opened.
    let mut machine = SessionMachine::new();
    machine.record_send(100);
    assert_eq!(machine.state, SessionState::Failed);

    // From ConnectionPending: ConnectionStarted has not arrived yet.
    let mut machine = SessionMachine::new();
    machine.record_send(1);
    assert_eq!(machine.state, SessionState::ConnectionPending);
    machine.record_send(100);
    assert_eq!(machine.state, SessionState::Failed);
}

#[test]
fn machine_walks_the_happy_path() {
    let mut machine = SessionMachine::new();
    machine.record_send(1);
    machine.record_recv(50);
    assert_eq!(machine.state, SessionState::ConnectionReady);
    machine.record_send(100);
    machine.record_recv(150);
    assert_eq!(machine.state, SessionState::SessionReady);
    machine.record_send(200);
    machine.record_recv(352);
    assert_eq!(machine.state, SessionState::Streaming);
    machine.record_recv(152);
    assert_eq!(machine.state, SessionState::SessionClosing);
    machine.record_send(102);
    machine.record_send(2);
    assert_eq!(machine.state, SessionState::Closed);
}

#[test]
fn unexpected_received_event_fails_the_machine() {
    let mut machine = SessionMachine::new();
    machine.record_send(1);
    machine.record_recv(150);
    assert_eq!(machine.state, SessionState::Failed);
}
