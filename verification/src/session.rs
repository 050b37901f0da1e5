//! The life of a session over the transport, and the policy that drives it.
//!
//! The driver of a session reports what happened as a [`SessionEvent`] and is
//! told what to do next as a [`SessionAction`]. A passed deadline is no failure:
//! it is how the driver gets control back while nothing arrives. Any other
//! failure ends the session at once. Closing is cooperative and bounded: after
//! the close was sent, only so many reads wait for the peer's answer.
//!
//! A read that is served with no bytes, into a buffer that has room, is taken
//! as the peer's close: while nothing arrives a read ends with a passed
//! deadline instead.
use vstd::prelude::*;
use crate::error::IoError;

verus! {

/// Where a session stands. A session only ever moves down this list.
#[derive(Debug, Clone, Copy, PartialEq, Eq)]
pub enum SessionState {
    /// The endpoint is being created.
    Connecting,
    /// The endpoint stands and the opening handshake is under way.
    HandshakeInFlight,
    /// Messages are exchanged.
    Open,
    /// The close was sent and the peer's answer is waited for.
    Closing,
    /// The session is over and the endpoint is released.
    Closed,
}

/// What the driver reports to the session.
#[derive(Debug, Clone, Copy, PartialEq, Eq)]
pub enum SessionEvent {
    /// The endpoint was created.
    Connected,
    /// The opening handshake is complete.
    HandshakeDone,
    /// The local side wants to close.
    CloseRequested,
    /// The peer's close arrived.
    PeerClosed,
    /// The close handshake is complete.
    CloseDone,
    /// A read went through and brought none of the signals above.
    Received,
    /// An operation of the transport failed.
    Failed(IoError),
}

/// What the driver is to do next.
#[derive(Debug, Clone, Copy, PartialEq, Eq)]
pub enum SessionAction {
    /// Go on with the traffic of the current state.
    Continue,
    /// Send the close to the peer, then keep reading.
    SendClose,
    /// Release the endpoint and do nothing more on it.
    Teardown,
    /// The session was over before: do nothing.
    Halt,
}

/// A session: its state, and the reads that may still wait for the peer's
/// answer to a close.
#[derive(Debug, Clone, Copy, PartialEq, Eq)]
pub struct Session {
    pub state: SessionState,
    /// The reads left to a closing session. It is renewed from
    /// `max_close_reads` when the close is sent.
    pub close_reads_left: u32,
    /// The reads that a closing session may make; a session always waits for
    /// the first read it has started, so 0 counts as 1.
    pub max_close_reads: u32,
}

impl SessionState {
    /// The place of the state in the life of a session.
    pub open spec fn rank(self) -> nat {
        match self {
            SessionState::Connecting => 0,
            SessionState::HandshakeInFlight => 1,
            SessionState::Open => 2,
            SessionState::Closing => 3,
            SessionState::Closed => 4,
        }
    }
}

impl SessionEvent {
    /// Whether the event is a read that ended without bringing a signal: bytes
    /// of no consequence, or a passed deadline.
    pub open spec fn is_idle_read(self) -> bool {
        self is Received || self == SessionEvent::Failed(IoError::Timeout)
    }

    /// Whether the event is a failure that no retry can mend.
    pub open spec fn is_fatal(self) -> bool {
        self matches SessionEvent::Failed(IoError::Other(_))
    }

    /// The event that the result of a read into a buffer of `len` bytes stands
    /// for, before the protocol has looked at the bytes: a failure is that
    /// failure, no bytes where there was room are the peer's close, and
    /// anything else is a read without a signal.
    pub open spec fn read_event(result: Result<usize, IoError>, len: usize) -> SessionEvent {
        match result {
            Err(error) => SessionEvent::Failed(error),
            Ok(n) => if n == 0 && len > 0 {
                SessionEvent::PeerClosed
            } else {
                SessionEvent::Received
            },
        }
    }

    /// Turns the result of a read into a buffer of `len` bytes into an event.
    pub fn of_read(result: Result<usize, IoError>, len: usize) -> (event: SessionEvent)
        ensures
            event == SessionEvent::read_event(result, len),
    {
        match result {
            Err(error) => SessionEvent::Failed(error),
            Ok(n) => {
                if n == 0 && len > 0 {
                    SessionEvent::PeerClosed
                } else {
                    SessionEvent::Received
                }
            },
        }
    }
}

impl Session {
    /// The session in `state`, everything else as in `self`.
    pub open spec fn at(self, state: SessionState) -> Session {
        Session { state, ..self }
    }

    /// The session after `event`, and what the driver is to do.
    pub open spec fn next(self, event: SessionEvent) -> (Session, SessionAction) {
        let ended = (self.at(SessionState::Closed), SessionAction::Teardown);
        let unchanged = (self, SessionAction::Continue);
        match self.state {
            SessionState::Closed => (self, SessionAction::Halt),
            SessionState::Connecting => match event {
                SessionEvent::Connected => (
                    self.at(SessionState::HandshakeInFlight),
                    SessionAction::Continue,
                ),
                SessionEvent::Failed(_) => ended,
                _ => unchanged,
            },
            SessionState::HandshakeInFlight => match event {
                SessionEvent::HandshakeDone => (self.at(SessionState::Open), SessionAction::Continue),
                SessionEvent::Failed(IoError::Other(_)) | SessionEvent::PeerClosed => ended,
                _ => unchanged,
            },
            SessionState::Open => match event {
                SessionEvent::CloseRequested | SessionEvent::PeerClosed => (
                    Session {
                        state: SessionState::Closing,
                        close_reads_left: self.max_close_reads,
                        ..self
                    },
                    SessionAction::SendClose,
                ),
                SessionEvent::Failed(IoError::Other(_)) => ended,
                _ => unchanged,
            },
            SessionState::Closing => if event is CloseDone || event is PeerClosed
                || event.is_fatal() {
                ended
            } else if event.is_idle_read() {
                if self.close_reads_left <= 1 {
                    ended
                } else {
                    (
                        Session { close_reads_left: (self.close_reads_left - 1) as u32, ..self },
                        SessionAction::Continue,
                    )
                }
            } else {
                unchanged
            },
        }
    }

    /// A session that is about to create its endpoint, and that will wait
    /// through `max_close_reads` reads for the answer to its close.
    pub fn new(max_close_reads: u32) -> (session: Session)
        ensures
            session == (Session {
                state: SessionState::Connecting,
                close_reads_left: max_close_reads,
                max_close_reads,
            }),
    {
        Session { state: SessionState::Connecting, close_reads_left: max_close_reads, max_close_reads }
    }

    /// Whether the session is over.
    pub fn is_closed(&self) -> (closed: bool)
        ensures
            closed == (self.state is Closed),
    {
        match self.state {
            SessionState::Closed => true,
            _ => false,
        }
    }

    /// Takes an event, moves the session on, and says what the driver is to do.
    ///
    /// The session never moves back, and it tells the driver to release the
    /// endpoint exactly when it ends.
    pub fn on_event(&mut self, event: SessionEvent) -> (action: SessionAction)
        ensures
            (*final(self), action) == old(self).next(event),
            final(self).state.rank() >= old(self).state.rank(),
            final(self).max_close_reads == old(self).max_close_reads,
            action is Teardown <==> !(old(self).state is Closed) && final(self).state is Closed,
            action is Halt <==> old(self).state is Closed,
    {
        match self.state {
            SessionState::Closed => SessionAction::Halt,
            SessionState::Connecting => match event {
                SessionEvent::Connected => {
                    self.state = SessionState::HandshakeInFlight;
                    SessionAction::Continue
                },
                SessionEvent::Failed(_) => self.end(),
                _ => SessionAction::Continue,
            },
            SessionState::HandshakeInFlight => match event {
                SessionEvent::HandshakeDone => {
                    self.state = SessionState::Open;
                    SessionAction::Continue
                },
                SessionEvent::Failed(IoError::Other(_)) | SessionEvent::PeerClosed => self.end(),
                _ => SessionAction::Continue,
            },
            SessionState::Open => match event {
                SessionEvent::CloseRequested | SessionEvent::PeerClosed => {
                    self.state = SessionState::Closing;
                    self.close_reads_left = self.max_close_reads;
                    SessionAction::SendClose
                },
                SessionEvent::Failed(IoError::Other(_)) => self.end(),
                _ => SessionAction::Continue,
            },
            SessionState::Closing => match event {
                SessionEvent::CloseDone
                | SessionEvent::PeerClosed
                | SessionEvent::Failed(IoError::Other(_)) => self.end(),
                SessionEvent::Received | SessionEvent::Failed(IoError::Timeout) => {
                    if self.close_reads_left <= 1 {
                        self.end()
                    } else {
                        self.close_reads_left = self.close_reads_left - 1;
                        SessionAction::Continue
                    }
                },
                _ => SessionAction::Continue,
            },
        }
    }

    /// Ends the session.
    fn end(&mut self) -> (action: SessionAction)
        ensures
            *final(self) == old(self).at(SessionState::Closed),
            action is Teardown,
    {
        self.state = SessionState::Closed;
        SessionAction::Teardown
    }
}

} // verus!
