use tcp_transport::error::IoError;
use tcp_transport::model::Outcome;
use tcp_transport::session::{Session, SessionAction, SessionEvent, SessionState};
use tcp_transport::sys::{Direction, SysCall, SysReturn, Timeval};
use tcp_transport::tcp::{Progress, TcpStream};

const LOCALHOST: u32 = 0x7f00_0001;

/// A stand-in for the operating system with one peer behind port 1337 of the
/// local host, which sends back whatever it is sent.
struct EchoPeer {
    next_fd: i32,
    open: Vec<i32>,
    echo: Vec<u8>,
    calls: Vec<SysCall>,
    reset: bool,
}

impl EchoPeer {
    fn new() -> EchoPeer {
        EchoPeer { next_fd: 3, open: Vec::new(), echo: Vec::new(), calls: Vec::new(), reset: false }
    }

    fn perform(&mut self, call: SysCall, out: &[u8], buf: &mut [u8]) -> SysReturn {
        self.calls.push(call);
        let good = |ret: isize| SysReturn { ret, errno: 0 };
        let bad = |errno: i32| SysReturn { ret: -1, errno };
        match call {
            SysCall::Socket => {
                let fd: i32 = self.next_fd;
                self.next_fd += 1;
                self.open.push(fd);
                good(fd as isize)
            }
            SysCall::Connect { fd, addr } => {
                if !self.open.contains(&fd) {
                    bad(libc::EBADF)
                } else if addr.addr == [127, 0, 0, 1] && addr.port == 1337u16.to_be_bytes() {
                    good(0)
                } else {
                    bad(libc::ECONNREFUSED)
                }
            }
            SysCall::SetTimeout { fd, .. } => {
                if self.open.contains(&fd) {
                    good(0)
                } else {
                    bad(libc::EBADF)
                }
            }
            SysCall::Send { fd, offset, len } => {
                if !self.open.contains(&fd) {
                    return bad(libc::EBADF);
                }
                self.echo.extend_from_slice(&out[offset..offset + len]);
                good(len as isize)
            }
            SysCall::Recv { fd, len } => {
                if !self.open.contains(&fd) {
                    return bad(libc::EBADF);
                }
                if self.reset {
                    return bad(libc::ECONNRESET);
                }
                if self.echo.is_empty() {
                    return bad(libc::EWOULDBLOCK);
                }
                let n: usize = len.min(self.echo.len());
                let bytes: Vec<u8> = self.echo.drain(..n).collect();
                buf[..n].copy_from_slice(&bytes);
                good(n as isize)
            }
            SysCall::Close { fd } => {
                if !self.open.contains(&fd) {
                    return bad(libc::EBADF);
                }
                self.open.retain(|held| *held != fd);
                good(0)
            }
        }
    }

    /// Runs an operation to its end, making each call it asks for.
    fn run(&mut self, mut progress: Progress, out: &[u8], buf: &mut [u8]) -> (TcpStream, Outcome) {
        loop {
            match progress {
                Progress::Call(flight) => {
                    let answer = self.perform(flight.call(), out, buf);
                    progress = flight.resume(answer);
                }
                Progress::Done(stream, outcome) => return (stream, outcome),
            }
        }
    }

    fn release(&mut self, stream: &mut TcpStream) {
        if let Some(call) = stream.teardown() {
            self.perform(call, &[], &mut []);
        }
    }
}

fn at(state: SessionState) -> Session {
    Session { state, close_reads_left: 3, max_close_reads: 3 }
}

#[test]
fn echo_session_from_connect_to_closed() {
    let mut os = EchoPeer::new();
    let mut session = Session::new(3);
    let mut buf = [0u8; 4000];

    let start = Progress::Call(TcpStream::connect(LOCALHOST, 1337));
    let (stream, outcome) = os.run(start, &[], &mut buf);
    assert_eq!(outcome, Outcome::Completed);
    assert_eq!(os.open, vec![3]);
    assert_eq!(session.on_event(SessionEvent::Connected), SessionAction::Continue);
    assert_eq!(session.state, SessionState::HandshakeInFlight);
    assert_eq!(session.on_event(SessionEvent::HandshakeDone), SessionAction::Continue);
    assert_eq!(session.state, SessionState::Open);

    let hello = "Hello, World!".as_bytes();
    let (stream, outcome) = os.run(stream.write_all(hello.len()), hello, &mut buf);
    assert_eq!(outcome, Outcome::Completed);
    let (stream, outcome) = os.run(stream.read(buf.len()), &[], &mut buf);
    assert_eq!(outcome, Outcome::Received(13));
    assert_eq!(&buf[..13], hello);
    assert_eq!(session.on_event(SessionEvent::Received), SessionAction::Continue);
    assert_eq!(session.state, SessionState::Open);

    assert_eq!(session.on_event(SessionEvent::CloseRequested), SessionAction::SendClose);
    assert_eq!(session.state, SessionState::Closing);
    let close: [u8; 2] = [0x88, 0x00];
    let (stream, outcome) = os.run(stream.write_all(close.len()), &close, &mut buf);
    assert_eq!(outcome, Outcome::Completed);
    let (mut stream, outcome) = os.run(stream.read(buf.len()), &[], &mut buf);
    assert_eq!(outcome, Outcome::Received(2));
    assert_eq!(&buf[..2], &close);
    assert_eq!(session.on_event(SessionEvent::CloseDone), SessionAction::Teardown);
    assert_eq!(session.state, SessionState::Closed);
    assert!(session.is_closed());

    os.release(&mut stream);
    assert!(os.open.is_empty());
    assert_eq!(os.calls.last(), Some(&SysCall::Close { fd: 3 }));
    assert!(!stream.is_open());
}

#[test]
fn echo_session_to_another_port_is_refused_and_leaks_nothing() {
    let mut os = EchoPeer::new();
    let mut session = Session::new(3);
    let start = Progress::Call(TcpStream::connect(LOCALHOST, 1338));
    let (mut stream, outcome) = os.run(start, &[], &mut []);
    assert_eq!(outcome, Outcome::Failed(IoError::Other(libc::ECONNREFUSED)));
    assert!(os.open.is_empty());
    assert_eq!(os.calls.len(), 3);
    assert_eq!(
        session.on_event(SessionEvent::Failed(IoError::Other(libc::ECONNREFUSED))),
        SessionAction::Teardown
    );
    assert!(session.is_closed());
    os.release(&mut stream);
    assert_eq!(os.calls.len(), 3);
}

#[test]
fn silent_peer_times_out_ten_reads_and_still_takes_a_write() {
    let mut os = EchoPeer::new();
    let mut session = at(SessionState::Open);
    let mut buf = [0u8; 64];
    let start = Progress::Call(TcpStream::connect(LOCALHOST, 1337));
    let (stream, _) = os.run(start, &[], &mut buf);
    let (mut stream, outcome) = os.run(stream.set_recv_timeout(50), &[], &mut buf);
    assert_eq!(outcome, Outcome::Completed);
    assert_eq!(
        os.calls.last(),
        Some(&SysCall::SetTimeout {
            fd: 3,
            direction: Direction::Receiving,
            timeout: Timeval { secs: 0, micros: 50_000 }
        })
    );
    let mut round: u32 = 0;
    while round < 10 {
        let (back, outcome) = os.run(stream.read(buf.len()), &[], &mut buf);
        assert_eq!(outcome, Outcome::Failed(IoError::Timeout));
        assert_eq!(
            session.on_event(SessionEvent::Failed(IoError::Timeout)),
            SessionAction::Continue
        );
        assert_eq!(session.state, SessionState::Open);
        stream = back;
        round += 1;
    }
    let ping = "ping".as_bytes();
    let (stream, outcome) = os.run(stream.write_all(ping.len()), ping, &mut buf);
    assert_eq!(outcome, Outcome::Completed);
    assert!(stream.is_open());
    assert_eq!(os.echo, ping);
}

#[test]
fn reset_during_read_ends_the_session_and_all_traffic() {
    let mut os = EchoPeer::new();
    let mut session = at(SessionState::Open);
    let mut buf = [0u8; 64];
    let start = Progress::Call(TcpStream::connect(LOCALHOST, 1337));
    let (stream, _) = os.run(start, &[], &mut buf);
    os.reset = true;
    let (mut stream, outcome) = os.run(stream.read(buf.len()), &[], &mut buf);
    assert_eq!(outcome, Outcome::Failed(IoError::Other(libc::ECONNRESET)));
    let error = match outcome {
        Outcome::Failed(error) => error,
        other => panic!("the read ended with {:?}", other),
    };
    assert_eq!(session.on_event(SessionEvent::Failed(error)), SessionAction::Teardown);
    assert_eq!(session.state, SessionState::Closed);
    os.release(&mut stream);
    assert!(os.open.is_empty());
    let made: usize = os.calls.len();
    assert_eq!(os.calls.last(), Some(&SysCall::Close { fd: 3 }));

    assert_eq!(session.on_event(SessionEvent::Received), SessionAction::Halt);
    assert_eq!(session.on_event(SessionEvent::CloseRequested), SessionAction::Halt);
    let (stream, outcome) = os.run(stream.read(buf.len()), &[], &mut buf);
    assert_eq!(outcome, Outcome::Failed(IoError::Other(libc::EBADF)));
    let (mut stream, outcome) = os.run(stream.write_all(2), &[0x88, 0x00], &mut buf);
    assert_eq!(outcome, Outcome::Failed(IoError::Other(libc::EBADF)));
    os.release(&mut stream);
    assert_eq!(os.calls.len(), made);
}

#[test]
fn new_session_is_connecting() {
    assert_eq!(
        Session::new(5),
        Session { state: SessionState::Connecting, close_reads_left: 5, max_close_reads: 5 }
    );
    assert!(!Session::new(5).is_closed());
}

#[test]
fn session_walks_through_its_states_in_order() {
    let mut session = Session::new(2);
    assert_eq!(session.on_event(SessionEvent::Connected), SessionAction::Continue);
    assert_eq!(session.state, SessionState::HandshakeInFlight);
    assert_eq!(session.on_event(SessionEvent::HandshakeDone), SessionAction::Continue);
    assert_eq!(session.state, SessionState::Open);
    assert_eq!(session.on_event(SessionEvent::PeerClosed), SessionAction::SendClose);
    assert_eq!(session.state, SessionState::Closing);
    assert_eq!(session.on_event(SessionEvent::CloseDone), SessionAction::Teardown);
    assert_eq!(session.state, SessionState::Closed);
    assert_eq!(session.on_event(SessionEvent::Connected), SessionAction::Halt);
    assert_eq!(session.state, SessionState::Closed);
}

#[test]
fn events_out_of_place_change_nothing() {
    let mut session = Session::new(2);
    for event in [
        SessionEvent::HandshakeDone,
        SessionEvent::CloseRequested,
        SessionEvent::PeerClosed,
        SessionEvent::CloseDone,
        SessionEvent::Received,
    ] {
        assert_eq!(session.on_event(event), SessionAction::Continue);
        assert_eq!(session, Session::new(2));
    }
    let mut session = at(SessionState::HandshakeInFlight);
    for event in [
        SessionEvent::Connected,
        SessionEvent::CloseRequested,
        SessionEvent::CloseDone,
        SessionEvent::Received,
        SessionEvent::Failed(IoError::Timeout),
    ] {
        assert_eq!(session.on_event(event), SessionAction::Continue);
        assert_eq!(session, at(SessionState::HandshakeInFlight));
    }
    let mut session = at(SessionState::Open);
    for event in [
        SessionEvent::Connected,
        SessionEvent::HandshakeDone,
        SessionEvent::CloseDone,
        SessionEvent::Received,
        SessionEvent::Failed(IoError::Timeout),
    ] {
        assert_eq!(session.on_event(event), SessionAction::Continue);
        assert_eq!(session, at(SessionState::Open));
    }
    let mut session = at(SessionState::Closing);
    for event in [
        SessionEvent::Connected,
        SessionEvent::HandshakeDone,
        SessionEvent::CloseRequested,
    ] {
        assert_eq!(session.on_event(event), SessionAction::Continue);
        assert_eq!(session, at(SessionState::Closing));
    }
}

#[test]
fn peer_close_moves_every_session_under_way_on() {
    let mut session = at(SessionState::HandshakeInFlight);
    assert_eq!(session.on_event(SessionEvent::PeerClosed), SessionAction::Teardown);
    assert_eq!(session.state, SessionState::Closed);
    let mut session = at(SessionState::Open);
    assert_eq!(session.on_event(SessionEvent::PeerClosed), SessionAction::SendClose);
    assert_eq!(session.state, SessionState::Closing);
    let mut session = at(SessionState::Closing);
    assert_eq!(session.on_event(SessionEvent::PeerClosed), SessionAction::Teardown);
    assert_eq!(session.state, SessionState::Closed);
}

#[test]
fn read_results_become_events() {
    assert_eq!(SessionEvent::of_read(Ok(13), 4000), SessionEvent::Received);
    assert_eq!(SessionEvent::of_read(Ok(4000), 4000), SessionEvent::Received);
    assert_eq!(SessionEvent::of_read(Ok(0), 4000), SessionEvent::PeerClosed);
    assert_eq!(SessionEvent::of_read(Ok(0), 1), SessionEvent::PeerClosed);
    assert_eq!(SessionEvent::of_read(Ok(0), 0), SessionEvent::Received);
    assert_eq!(
        SessionEvent::of_read(Err(IoError::Timeout), 4000),
        SessionEvent::Failed(IoError::Timeout)
    );
    assert_eq!(
        SessionEvent::of_read(Err(IoError::Other(104)), 0),
        SessionEvent::Failed(IoError::Other(104))
    );
}

#[test]
fn failure_to_connect_ends_the_session_whatever_the_error() {
    let mut session = Session::new(2);
    assert_eq!(session.on_event(SessionEvent::Failed(IoError::Timeout)), SessionAction::Teardown);
    assert!(session.is_closed());
    let mut session = Session::new(2);
    assert_eq!(
        session.on_event(SessionEvent::Failed(IoError::Other(libc::ECONNREFUSED))),
        SessionAction::Teardown
    );
    assert!(session.is_closed());
}

#[test]
fn hard_error_ends_every_live_state_without_a_close() {
    for state in [
        SessionState::Connecting,
        SessionState::HandshakeInFlight,
        SessionState::Open,
        SessionState::Closing,
    ] {
        let mut session = at(state);
        let action = session.on_event(SessionEvent::Failed(IoError::Other(libc::EPIPE)));
        assert_eq!(action, SessionAction::Teardown);
        assert_eq!(session.state, SessionState::Closed);
    }
    let mut session = at(SessionState::Closed);
    let action = session.on_event(SessionEvent::Failed(IoError::Other(libc::EPIPE)));
    assert_eq!(action, SessionAction::Halt);
}

#[test]
fn closing_waits_through_the_reads_it_was_given() {
    let mut session = at(SessionState::Open);
    assert_eq!(session.on_event(SessionEvent::CloseRequested), SessionAction::SendClose);
    assert_eq!(session.close_reads_left, 3);
    assert_eq!(session.on_event(SessionEvent::Failed(IoError::Timeout)), SessionAction::Continue);
    assert_eq!(session.close_reads_left, 2);
    assert_eq!(session.on_event(SessionEvent::Received), SessionAction::Continue);
    assert_eq!(session.close_reads_left, 1);
    assert_eq!(session.state, SessionState::Closing);
    assert_eq!(session.on_event(SessionEvent::Failed(IoError::Timeout)), SessionAction::Teardown);
    assert_eq!(session.state, SessionState::Closed);
}

#[test]
fn closing_renews_its_reads_from_the_bound() {
    let mut session =
        Session { state: SessionState::Open, close_reads_left: 0, max_close_reads: 7 };
    assert_eq!(session.on_event(SessionEvent::PeerClosed), SessionAction::SendClose);
    assert_eq!(
        session,
        Session { state: SessionState::Closing, close_reads_left: 7, max_close_reads: 7 }
    );
}

#[test]
fn closing_without_reads_to_spare_ends_after_the_first() {
    let mut session = Session::new(0);
    session.on_event(SessionEvent::Connected);
    session.on_event(SessionEvent::HandshakeDone);
    assert_eq!(session.on_event(SessionEvent::CloseRequested), SessionAction::SendClose);
    assert_eq!(session.state, SessionState::Closing);
    assert_eq!(session.on_event(SessionEvent::Received), SessionAction::Teardown);
    assert!(session.is_closed());
}

#[test]
fn session_never_moves_back() {
    let events = [
        SessionEvent::Connected,
        SessionEvent::HandshakeDone,
        SessionEvent::CloseRequested,
        SessionEvent::PeerClosed,
        SessionEvent::CloseDone,
        SessionEvent::Received,
        SessionEvent::Failed(IoError::Timeout),
        SessionEvent::Failed(IoError::Other(5)),
    ];
    let states = [
        SessionState::Connecting,
        SessionState::HandshakeInFlight,
        SessionState::Open,
        SessionState::Closing,
        SessionState::Closed,
    ];
    let rank = |state: SessionState| states.iter().position(|s| *s == state);
    for state in states {
        for event in events {
            let mut session = at(state);
            let action = session.on_event(event);
            assert!(rank(session.state) >= rank(state));
            let ended = state != SessionState::Closed && session.state == SessionState::Closed;
            assert_eq!(action == SessionAction::Teardown, ended);
            assert_eq!(action == SessionAction::Halt, state == SessionState::Closed);
        }
    }
}
