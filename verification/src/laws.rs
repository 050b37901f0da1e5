//! What holds of whole operations, whatever the operating system answers, and
//! of whole sessions, whatever happens to them.
//!
//! A run feeds a sequence of answers to an operation, one per system call, and
//! records the calls that were made. The laws on operations are about every run;
//! the laws on sessions are about every sequence of events.
use vstd::prelude::*;
use crate::error::{ErrorCodes, IoError};
use crate::model::{Endpoint, Op, Outcome, Pending, Step};
use crate::session::{Session, SessionAction, SessionEvent, SessionState};
use crate::sys::{Direction, SockAddrIn, SysCall, SysReturn, Timeval};

verus! {

/// The system calls that a run made, in order, and where it stands after them.
pub struct Run {
    pub calls: Seq<SysCall>,
    pub end: Step,
}

/// The run that starts at `step` and takes `answers` in turn, one for each
/// system call, until the operation is over or the answers run out.
pub open spec fn drive(step: Step, answers: Seq<SysReturn>) -> Run
    decreases answers.len(),
{
    match step {
        Step::Call(pending) => if answers.len() > 0 {
            let rest = drive(pending.resume(answers[0]), answers.skip(1));
            Run { calls: seq![pending.call()] + rest.calls, end: rest.end }
        } else {
            Run { calls: Seq::empty(), end: step }
        },
        Step::Done(..) => Run { calls: Seq::empty(), end: step },
    }
}

/// The calls of a connection that was established on the socket `fd`.
pub open spec fn established_calls(fd: i32, timeout_ms: u32, ip_host: u32, port: u16) -> Seq<
    SysCall,
> {
    let timeout = Timeval::of_millis(timeout_ms);
    seq![
        SysCall::Socket,
        SysCall::Connect { fd, addr: SockAddrIn::of(ip_host, port) },
        SysCall::SetTimeout { fd, direction: Direction::Sending, timeout },
        SysCall::SetTimeout { fd, direction: Direction::Receiving, timeout },
    ]
}

/// Network order loses nothing: the bytes of an address, read most
/// significant first, spell the host and the port they were made from.
pub proof fn lemma_network_order_reads_back(ip_host: u32, port: u16)
    ensures
        SockAddrIn::of(ip_host, port).host() == ip_host,
        SockAddrIn::of(ip_host, port).port_number() == port,
{
}

/// The split of a deadline is exact: seconds and microseconds add up to the
/// milliseconds given, with less than a second in the microseconds.
pub proof fn lemma_deadline_split_exact(ms: u32)
    ensures
        Timeval::of_millis(ms).total_micros() == ms * 1000,
        Timeval::of_millis(ms).micros < 1_000_000,
        Timeval::of_millis(ms).micros % 1000 == 0,
{
}

/// A step keeps an operation in flight well formed.
pub proof fn lemma_resume_keeps_wf(pending: Pending, ret: SysReturn)
    requires
        pending.wf(),
    ensures
        pending.resume(ret).wf(),
{
}

/// Every system call but the one that opens the socket is made on the socket
/// that the endpoint holds.
pub proof fn lemma_calls_use_own_socket(pending: Pending)
    requires
        pending.wf(),
    ensures
        match pending.call() {
            SysCall::Socket => !pending.endpoint.is_open(),
            SysCall::Connect { fd, .. } => fd == pending.endpoint.fd && fd >= 0,
            SysCall::SetTimeout { fd, .. } => fd == pending.endpoint.fd && fd >= 0,
            SysCall::Recv { fd, .. } => fd == pending.endpoint.fd && fd >= 0,
            SysCall::Send { fd, .. } => fd == pending.endpoint.fd && fd >= 0,
            SysCall::Close { fd } => fd == pending.endpoint.fd && fd >= 0,
        },
{
}

/// The socket of an endpoint changes only while a connection is established:
/// when the socket is opened, and when it is closed after a failure. Beyond
/// that, only a deadline that the operating system took changes the endpoint
/// at all, and it changes the deadline of its own direction alone. Reads and
/// writes leave the endpoint as it is, whether they succeed or fail.
pub proof fn lemma_endpoint_kept(pending: Pending, ret: SysReturn)
    ensures
        ({
            let before = pending.endpoint;
            let after = match pending.resume(ret) {
                Step::Call(next) => next.endpoint,
                Step::Done(endpoint, _) => endpoint,
            };
            &&& after.codes == before.codes
            &&& after.fd == before.fd || pending.op is Establish || pending.op is Release
            &&& after.send_timeout == before.send_timeout || (pending.op matches Op::Deadline {
                direction: Direction::Sending,
                ms,
                ..
            } && ret.ret == 0 && after.send_timeout == ms)
            &&& after.recv_timeout == before.recv_timeout || (pending.op matches Op::Deadline {
                direction: Direction::Receiving,
                ms,
                ..
            } && ret.ret == 0 && after.recv_timeout == ms)
        }),
{
}

/// Giving up the socket twice is giving it up once: the first time names the
/// call that closes it, the second time names none and changes nothing.
pub proof fn lemma_teardown_idempotent(endpoint: Endpoint)
    ensures
        ({
            let (once, first) = endpoint.teardown();
            let (twice, second) = once.teardown();
            &&& !once.is_open()
            &&& twice == once
            &&& second is None
            &&& first == if endpoint.is_open() {
                Some(SysCall::Close { fd: endpoint.fd })
            } else {
                None
            }
            &&& once.send_timeout == endpoint.send_timeout
            &&& once.recv_timeout == endpoint.recv_timeout
        }),
{
}

/// After the socket is given up every operation fails at once, without a
/// system call, and leaves the endpoint as it is.
pub proof fn lemma_no_operation_after_teardown(endpoint: Endpoint, op: Op, answers: Seq<SysReturn>)
    ensures
        ({
            let gone = endpoint.teardown().0;
            let run = drive(gone.begin(op), answers);
            &&& run.calls =~= Seq::empty()
            &&& run.end == Step::Done(
                gone,
                Outcome::Failed(IoError::Other(endpoint.codes.bad_descriptor)),
            )
        }),
{
}

/// A read that the operating system fails is reported as a timeout exactly
/// when the error number is one of the two that mean a passed deadline, and as
/// `Other` with the error number itself otherwise. Either way the endpoint is
/// handed back unchanged, so the read can be tried again.
pub proof fn lemma_read_failure_classified(endpoint: Endpoint, len: usize, ret: SysReturn)
    requires
        endpoint.is_open(),
        ret.ret < 0,
    ensures
        ({
            let run = drive(endpoint.begin(Op::Receive { len }), seq![ret]);
            &&& run.calls =~= seq![SysCall::Recv { fd: endpoint.fd, len }]
            &&& run.end == Step::Done(
                endpoint,
                Outcome::Failed(
                    if ret.errno == endpoint.codes.busy || ret.errno
                        == endpoint.codes.would_block {
                        IoError::Timeout
                    } else {
                        IoError::Other(ret.errno)
                    },
                ),
            )
        }),
{
    reveal_with_fuel(drive, 2);
}

/// A read that the operating system serves places no more bytes than the
/// buffer holds, and leaves the endpoint unchanged.
pub proof fn lemma_read_within_buffer(endpoint: Endpoint, len: usize, ret: SysReturn)
    requires
        endpoint.is_open(),
        ret.ret >= 0,
    ensures
        ({
            let run = drive(endpoint.begin(Op::Receive { len }), seq![ret]);
            &&& run.calls =~= seq![SysCall::Recv { fd: endpoint.fd, len }]
            &&& run.end matches Step::Done(after, Outcome::Received(n))
            &&& after == endpoint
            &&& n <= len
            &&& ret.ret <= len ==> n == ret.ret
        }),
{
    reveal_with_fuel(drive, 2);
}

/// Setting a deadline hands the operating system the very duration that was
/// asked for, and records it once the operating system has taken it; a refused
/// deadline changes nothing and is reported as `Other` with its error number,
/// also where that number would mean a timeout elsewhere.
pub proof fn lemma_deadline_recorded(
    endpoint: Endpoint,
    direction: Direction,
    ms: u32,
    ret: SysReturn,
)
    requires
        endpoint.is_open(),
    ensures
        ({
            let op = Op::Deadline { direction, ms, establishing: false };
            let run = drive(endpoint.begin(op), seq![ret]);
            &&& run.calls.len() == 1
            &&& run.calls[0] matches SysCall::SetTimeout { fd, direction: d, timeout }
            &&& fd == endpoint.fd
            &&& d == direction
            &&& timeout.total_micros() == ms * 1000
            &&& timeout.micros < 1_000_000
            &&& run.end == if ret.ret == 0 {
                Step::Done(endpoint.with_timeout(direction, ms), Outcome::Completed)
            } else {
                Step::Done(endpoint, Outcome::Failed(IoError::Other(ret.errno)))
            }
        }),
{
    reveal_with_fuel(drive, 2);
}

/// Whatever deadline for reads was set, a read that ends because nothing
/// arrived in time is reported as a timeout and as nothing else: the deadline
/// went to the operating system as it was given, it is on record, and the
/// endpoint is the same after the read as before, open and ready for the next
/// operation.
pub proof fn lemma_idle_read_times_out(
    endpoint: Endpoint,
    ms: u32,
    len: usize,
    set: SysReturn,
    idle: SysReturn,
)
    requires
        endpoint.is_open(),
        set.ret == 0,
        idle.ret < 0,
        endpoint.codes.is_timeout(idle.errno),
    ensures
        ({
            let op = Op::Deadline { direction: Direction::Receiving, ms, establishing: false };
            let setting = drive(endpoint.begin(op), seq![set]);
            let ready = endpoint.with_timeout(Direction::Receiving, ms);
            let reading = drive(ready.begin(Op::Receive { len }), seq![idle]);
            &&& setting.calls =~= seq![
                SysCall::SetTimeout {
                    fd: endpoint.fd,
                    direction: Direction::Receiving,
                    timeout: Timeval::of_millis(ms),
                },
            ]
            &&& Timeval::of_millis(ms).total_micros() == ms * 1000
            &&& setting.end == Step::Done(ready, Outcome::Completed)
            &&& ready.recv_timeout == ms
            &&& ready.send_timeout == endpoint.send_timeout
            &&& reading.calls =~= seq![SysCall::Recv { fd: endpoint.fd, len }]
            &&& reading.end == Step::Done(ready, Outcome::Failed(IoError::Timeout))
            &&& ready.is_open()
        }),
{
    reveal_with_fuel(drive, 2);
}

/// Establishing a connection ends with the socket in the endpoint or with no
/// socket open at all.
///
/// Where it succeeds, the endpoint holds the socket that was opened, both
/// deadlines are the ones asked for, and no socket was closed; it succeeds
/// exactly when the first four answers are a descriptor and three times 0.
/// Where the socket cannot be opened, that failure is reported and nothing was
/// opened. Where a later step fails, the socket is closed, once and as the
/// last call, and the error of the step that failed is reported: classified
/// where the connect failed, `Other` with the error number where a deadline
/// was refused. No run needs more than five answers.
pub proof fn lemma_establish_keeps_or_releases(
    codes: ErrorCodes,
    timeout_ms: u32,
    ip_host: u32,
    port: u16,
    answers: Seq<SysReturn>,
)
    ensures
        ({
            let run = drive(
                Step::Call(Endpoint::establish(codes, timeout_ms, ip_host, port)),
                answers,
            );
            let n = run.calls.len() as int;
            let good = {
                &&& answers.len() >= 4
                &&& answers[0].descriptor() is Some
                &&& answers[1].ret == 0
                &&& answers[2].ret == 0
                &&& answers[3].ret == 0
            };
            let completed = run.end matches Step::Done(_, Outcome::Completed);
            &&& good <==> completed
            &&& answers.len() >= 5 ==> run.end is Done
            &&& match run.end {
                Step::Call(_) => n == answers.len() && n < 5,
                Step::Done(endpoint, Outcome::Completed) => {
                    &&& n == 4
                    &&& answers[0].descriptor() matches Some(fd)
                    &&& endpoint == Endpoint {
                        fd,
                        send_timeout: timeout_ms,
                        recv_timeout: timeout_ms,
                        codes,
                    }
                    &&& endpoint.is_open()
                    &&& run.calls =~= established_calls(fd, timeout_ms, ip_host, port)
                },
                Step::Done(endpoint, Outcome::Failed(error)) => {
                    &&& !endpoint.is_open()
                    &&& match answers[0].descriptor() {
                        None => {
                            &&& run.calls =~= seq![SysCall::Socket]
                            &&& error == IoError::classify(codes, answers[0].errno)
                        },
                        Some(fd) => {
                            &&& 3 <= n <= 5
                            &&& run.calls[n - 1] == SysCall::Close { fd }
                            &&& run.calls.take(n - 1) =~= established_calls(
                                fd,
                                timeout_ms,
                                ip_host,
                                port,
                            ).take(n - 1)
                            &&& answers[n - 2].ret != 0
                            &&& error == if n == 3 {
                                IoError::classify(codes, answers[1].errno)
                            } else {
                                IoError::Other(answers[n - 2].errno)
                            }
                        },
                    }
                },
                Step::Done(_, Outcome::Received(_)) => false,
            }
        }),
{
    reveal_with_fuel(drive, 6);
}

/// The calls of a write chain up: each is made on the endpoint's socket and
/// covers the buffer from its offset to the end, and each but the first
/// starts where the bytes accepted so far end.
pub open spec fn write_chain(
    endpoint: Endpoint,
    len: usize,
    sent: usize,
    calls: Seq<SysCall>,
    answers: Seq<SysReturn>,
) -> bool {
    &&& calls.len() <= answers.len()
    &&& forall|i: int|
        0 <= i < calls.len() ==> (#[trigger] calls[i] matches SysCall::Send { fd, offset, len: l }
            && fd == endpoint.fd && sent <= offset && offset + l == len)
    &&& calls.len() > 0 ==> calls[0]->Send_offset == sent
    &&& forall|i: int|
        0 <= i < calls.len() - 1 ==> answers[i].ret >= 0 && (#[trigger] calls[i + 1])->Send_offset
            == calls[i]->Send_offset + answers[i].count(calls[i]->Send_len)
}

/// How a write that has run through `calls` may stand: done only with every
/// byte accepted or with the error of the last call, and still in flight only
/// if the answers ran out and the last of them was no failure. So an answer
/// that fails ends the write.
pub open spec fn write_end(
    endpoint: Endpoint,
    len: usize,
    calls: Seq<SysCall>,
    answers: Seq<SysReturn>,
    end: Step,
) -> bool {
    let n = calls.len() as int;
    match end {
        Step::Done(after, Outcome::Completed) => {
            &&& after == endpoint
            &&& n > 0
            &&& answers[n - 1].ret >= 0
            &&& calls[n - 1]->Send_offset + answers[n - 1].count(calls[n - 1]->Send_len) == len
        },
        Step::Done(after, Outcome::Failed(error)) => {
            &&& after == endpoint
            &&& n > 0
            &&& answers[n - 1].ret < 0
            &&& error == IoError::classify(endpoint.codes, answers[n - 1].errno)
        },
        Step::Done(_, Outcome::Received(_)) => false,
        Step::Call(pending) => {
            &&& n == answers.len()
            &&& n > 0 ==> answers[n - 1].ret >= 0
            &&& pending.endpoint == endpoint
            &&& pending.op matches Op::Transmit { len: l, sent }
            &&& l == len
            &&& sent <= len
            &&& n > 0 ==> sent < len
        },
    }
}

/// A write in flight goes on from the bytes already accepted, and ends only
/// with all of them accepted or with an error.
pub proof fn lemma_write_resumes(pending: Pending, answers: Seq<SysReturn>)
    requires
        pending.wf(),
        pending.op is Transmit,
    ensures
        ({
            let run = drive(Step::Call(pending), answers);
            let len = pending.op->Transmit_len;
            let sent = pending.op->Transmit_sent;
            &&& write_chain(pending.endpoint, len, sent, run.calls, answers)
            &&& write_end(pending.endpoint, len, run.calls, answers, run.end)
        }),
    decreases answers.len(),
{
    let endpoint = pending.endpoint;
    let len = pending.op->Transmit_len;
    let sent = pending.op->Transmit_sent;
    let run = drive(Step::Call(pending), answers);
    if answers.len() > 0 {
        let next = pending.resume(answers[0]);
        let tail = answers.skip(1);
        let rest = drive(next, tail);
        assert(run.calls =~= seq![pending.call()] + rest.calls);
        match next {
            Step::Call(later) => {
                lemma_write_resumes(later, tail);
                assert forall|i: int| 0 <= i < run.calls.len() - 1 implies answers[i].ret >= 0 && (
                #[trigger] run.calls[i + 1])->Send_offset == run.calls[i]->Send_offset
                    + answers[i].count(run.calls[i]->Send_len) by {
                    assert(run.calls[i + 1] == rest.calls[i]);
                    if i > 0 {
                        assert(run.calls[i] == rest.calls[i - 1]);
                        assert(answers[i] == tail[i - 1]);
                    }
                }
            },
            Step::Done(..) => {},
        }
    }
}

/// A write has no partial success. Every call of a write sends what is left
/// of the buffer, from where the bytes accepted so far end; the write
/// completes only when the last call's bytes reach the end of the buffer, and
/// otherwise it ends with the error of the call that failed. The endpoint is
/// the same afterwards. On an endpoint without a socket the write fails
/// without a call.
pub proof fn lemma_write_all_or_error(endpoint: Endpoint, len: usize, answers: Seq<SysReturn>)
    ensures
        ({
            let run = drive(endpoint.begin(Op::Transmit { len, sent: 0 }), answers);
            if endpoint.is_open() {
                &&& write_chain(endpoint, len, 0, run.calls, answers)
                &&& write_end(endpoint, len, run.calls, answers, run.end)
            } else {
                &&& run.calls =~= Seq::empty()
                &&& run.end == Step::Done(
                    endpoint,
                    Outcome::Failed(IoError::Other(endpoint.codes.bad_descriptor)),
                )
            }
        }),
{
    if endpoint.is_open() {
        lemma_write_resumes(Pending { endpoint, op: Op::Transmit { len, sent: 0 } }, answers);
    }
}

/// The session after it took `events` in turn.
pub open spec fn session_after(session: Session, events: Seq<SessionEvent>) -> Session
    decreases events.len(),
{
    if events.len() == 0 {
        session
    } else {
        session_after(session.next(events[0]).0, events.skip(1))
    }
}

/// The number of reads among `events` that ended without bringing a signal.
pub open spec fn idle_reads(events: Seq<SessionEvent>) -> nat
    decreases events.len(),
{
    if events.len() == 0 {
        0
    } else {
        (if events[0].is_idle_read() {
            1nat
        } else {
            0nat
        }) + idle_reads(events.skip(1))
    }
}

/// No event moves a session back, and the driver is told to release the
/// endpoint exactly when the session ends.
pub proof fn lemma_session_moves_forward(session: Session, event: SessionEvent)
    ensures
        ({
            let (after, action) = session.next(event);
            &&& after.state.rank() >= session.state.rank()
            &&& after.max_close_reads == session.max_close_reads
            &&& action is Teardown <==> !(session.state is Closed) && after.state is Closed
            &&& action is Halt <==> session.state is Closed
            &&& action is SendClose <==> session.state is Open && after.state is Closing
        }),
{
}

/// A session that is over stays over, and asks for nothing more.
pub proof fn lemma_session_closed_is_final(session: Session, events: Seq<SessionEvent>)
    requires
        session.state is Closed,
    ensures
        session_after(session, events) == session,
        events.len() > 0 ==> session.next(events[0]) == (session, SessionAction::Halt),
    decreases events.len(),
{
    if events.len() > 0 {
        lemma_session_closed_is_final(session, events.skip(1));
    }
}

/// A passed deadline is no failure: while the handshake is under way or the
/// session is open it changes nothing and the driver goes on.
pub proof fn lemma_session_survives_timeout(session: Session)
    requires
        session.state is HandshakeInFlight || session.state is Open,
    ensures
        session.next(SessionEvent::Failed(IoError::Timeout)) == (session, SessionAction::Continue),
{
}

/// Any failure but a passed deadline ends a session at once, from whatever
/// state, with the endpoint released and no close sent.
pub proof fn lemma_session_ends_on_failure(session: Session, code: i32)
    requires
        !(session.state is Closed),
    ensures
        session.next(SessionEvent::Failed(IoError::Other(code))) == (
            session.at(SessionState::Closed),
            SessionAction::Teardown,
        ),
{
}

/// A failure that is no passed deadline ends everything: the read reports the
/// error number as it came, the session ends and tells the driver to release
/// the endpoint, the release closes the socket, and from then on no operation
/// makes a system call.
pub proof fn lemma_hard_failure_ends_everything(
    endpoint: Endpoint,
    session: Session,
    len: usize,
    ret: SysReturn,
    op: Op,
    answers: Seq<SysReturn>,
)
    requires
        endpoint.is_open(),
        !(session.state is Closed),
        ret.ret < 0,
        !endpoint.codes.is_timeout(ret.errno),
    ensures
        ({
            let read = drive(endpoint.begin(Op::Receive { len }), seq![ret]);
            let error = IoError::Other(ret.errno);
            let (ended, action) = session.next(SessionEvent::read_event(Err(error), len));
            let (gone, close) = endpoint.teardown();
            &&& read.end == Step::Done(endpoint, Outcome::Failed(error))
            &&& ended.state is Closed
            &&& action is Teardown
            &&& ended.next(SessionEvent::Received).1 is Halt
            &&& close == Some(SysCall::Close { fd: endpoint.fd })
            &&& drive(gone.begin(op), answers).calls =~= Seq::empty()
        }),
{
    lemma_read_failure_classified(endpoint, len, ret);
    lemma_no_operation_after_teardown(endpoint, op, answers);
}

/// The peer's close moves every session on that is past connecting: an open
/// session starts to close, and a session in its handshake or already closing
/// ends. So a driver that reads from a peer that is gone does not read forever.
pub proof fn lemma_session_peer_close_moves_on(session: Session)
    requires
        session.state is HandshakeInFlight || session.state is Open || session.state is Closing,
    ensures
        session.next(SessionEvent::PeerClosed).0.state.rank() > session.state.rank(),
        session.state is Open <==> session.next(SessionEvent::PeerClosed).1 is SendClose,
{
}

/// Closing is bounded: once a closing session has made the reads it was
/// allowed, and at least one, it is over, whether the peer answered or not.
pub proof fn lemma_session_close_is_bounded(session: Session, events: Seq<SessionEvent>)
    requires
        session.state is Closing,
        idle_reads(events) >= 1,
        idle_reads(events) >= session.close_reads_left,
    ensures
        session_after(session, events).state is Closed,
    decreases events.len(),
{
    let after = session.next(events[0]).0;
    let rest = events.skip(1);
    if after.state is Closed {
        lemma_session_closed_is_final(after, rest);
    } else {
        lemma_session_close_is_bounded(after, rest);
    }
}

} // verus!
