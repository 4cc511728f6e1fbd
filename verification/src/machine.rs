//! The session state machine: the ordered protocol phases and the exact
//! transition for every (state, sent event) and (state, received event)
//! pair.  Every unexpected pair moves to `Failed`.

use vstd::prelude::*;

use crate::codec::{
    EVENT_CONNECTION_STARTED, EVENT_FINISH_CONNECTION, EVENT_FINISH_SESSION,
    EVENT_SESSION_FINISHED, EVENT_SESSION_STARTED, EVENT_START_CONNECTION, EVENT_START_SESSION,
    EVENT_TASK_REQUEST, EVENT_TTS_RESPONSE,
};

verus! {

/// The protocol phases of one session, from idle to a terminal state:
/// `Closed` on success, `Failed` on any error.
#[derive(Clone, Copy, Debug, PartialEq, Eq, Structural)]
pub enum SessionState {
    Idle,
    ConnectionPending,
    ConnectionReady,
    SessionPending,
    SessionReady,
    Streaming,
    SessionClosing,
    Closed,
    Failed,
}

/// The state reached by sending event `e` in state `s`.
pub open spec fn send_transition(s: SessionState, e: i32) -> SessionState {
    if s == SessionState::Idle && e == EVENT_START_CONNECTION {
        SessionState::ConnectionPending
    } else if s == SessionState::ConnectionReady && e == EVENT_START_SESSION {
        SessionState::SessionPending
    } else if s == SessionState::SessionReady && e == EVENT_TASK_REQUEST {
        SessionState::Streaming
    } else if s == SessionState::SessionClosing && e == EVENT_FINISH_SESSION {
        SessionState::SessionClosing
    } else if s == SessionState::SessionClosing && e == EVENT_FINISH_CONNECTION {
        SessionState::Closed
    } else {
        SessionState::Failed
    }
}

/// The state reached by receiving event `e` in state `s`.
pub open spec fn recv_transition(s: SessionState, e: i32) -> SessionState {
    if s == SessionState::ConnectionPending && e == EVENT_CONNECTION_STARTED {
        SessionState::ConnectionReady
    } else if s == SessionState::SessionPending && e == EVENT_SESSION_STARTED {
        SessionState::SessionReady
    } else if s == SessionState::Streaming && e == EVENT_TTS_RESPONSE {
        SessionState::Streaming
    } else if s == SessionState::Streaming && e == EVENT_SESSION_FINISHED {
        SessionState::SessionClosing
    } else {
        SessionState::Failed
    }
}

/// The state machine itself: the current phase, advanced by recording
/// each event sent or received.
pub struct SessionMachine {
    pub state: SessionState,
}

impl SessionMachine {
    /// A fresh machine in the initial phase.
    pub fn new() -> (m: SessionMachine)
        ensures
            m.state == SessionState::Idle,
    {
        SessionMachine { state: SessionState::Idle }
    }

    /// Records that event `e` is about to be sent and moves to the state
    /// the transition table gives.
    pub fn record_send(&mut self, e: i32)
        ensures
            final(self).state == send_transition(old(self).state, e),
    {
        self.state = if self.state == SessionState::Idle && e == EVENT_START_CONNECTION {
            SessionState::ConnectionPending
        } else if self.state == SessionState::ConnectionReady && e == EVENT_START_SESSION {
            SessionState::SessionPending
        } else if self.state == SessionState::SessionReady && e == EVENT_TASK_REQUEST {
            SessionState::Streaming
        } else if self.state == SessionState::SessionClosing && e == EVENT_FINISH_SESSION {
            SessionState::SessionClosing
        } else if self.state == SessionState::SessionClosing && e == EVENT_FINISH_CONNECTION {
            SessionState::Closed
        } else {
            SessionState::Failed
        };
    }

    /// Records an unexpected condition (a malformed frame, a transport
    /// error, a deadline exceeded): the machine moves to `Failed`.
    pub fn fail(&mut self)
        ensures
            final(self).state == SessionState::Failed,
    {
        self.state = SessionState::Failed;
    }

    /// Records that event `e` was received and moves to the state the
    /// transition table gives.
    pub fn record_recv(&mut self, e: i32)
        ensures
            final(self).state == recv_transition(old(self).state, e),
    {
        self.state = if self.state == SessionState::ConnectionPending && e
            == EVENT_CONNECTION_STARTED {
            SessionState::ConnectionReady
        } else if self.state == SessionState::SessionPending && e == EVENT_SESSION_STARTED {
            SessionState::SessionReady
        } else if self.state == SessionState::Streaming && e == EVENT_TTS_RESPONSE {
            SessionState::Streaming
        } else if self.state == SessionState::Streaming && e == EVENT_SESSION_FINISHED {
            SessionState::SessionClosing
        } else {
            SessionState::Failed
        };
    }
}

/// Ordering law of the handshake: before `ConnectionStarted` has been
/// received the machine is in `Idle` or `ConnectionPending`, and an
/// attempt to send `StartSession` from either state is rejected into the
/// `Failed` state.
pub proof fn lemma_start_session_needs_connection(s: SessionState)
    requires
        s == SessionState::Idle || s == SessionState::ConnectionPending,
    ensures
        send_transition(s, EVENT_START_SESSION) == SessionState::Failed,
{
}

/// `Failed` is absorbing: no later sent or received event leaves it, so
/// once a send is rejected no further protocol frame can come from a
/// transition of the machine.
pub proof fn lemma_failed_is_absorbing(e: i32)
    ensures
        send_transition(SessionState::Failed, e) == SessionState::Failed,
        recv_transition(SessionState::Failed, e) == SessionState::Failed,
{
}

} // verus!
