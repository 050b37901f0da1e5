//! The endpoint of a TCP connection, and the operations it runs one system call
//! at a time.
//!
//! An operation takes the [`TcpStream`] by value and gives a [`Progress`]: either
//! an [`InFlight`] operation, which names the next system call and is resumed
//! with its answer, or the stream again with the [`Outcome`]. While an operation
//! is in flight nothing else can use the stream.
use vstd::prelude::*;
use crate::error::{ErrorCodes, IoError};
use crate::model::{Endpoint, Op, Outcome, Pending, Step, DEFAULT_TIMEOUT_MS};
use crate::sys::{Direction, SockAddrIn, SysCall, SysReturn, Timeval};

verus! {

/// One end of a TCP connection: the owner of its socket.
///
/// The descriptor cannot be read or copied out of the stream, so the socket is
/// closed by [`TcpStream::teardown`] or not at all.
#[derive(Debug)]
pub struct TcpStream {
    fd: i32,
    send_timeout: u32,
    recv_timeout: u32,
    codes: ErrorCodes,
}

impl View for TcpStream {
    type V = Endpoint;

    closed spec fn view(&self) -> Endpoint {
        Endpoint {
            fd: self.fd,
            send_timeout: self.send_timeout,
            recv_timeout: self.recv_timeout,
            codes: self.codes,
        }
    }
}

/// A stream with one operation in flight: it waits for the answer to
/// [`InFlight::call`].
#[derive(Debug)]
pub struct InFlight {
    stream: TcpStream,
    op: Op,
}

impl View for InFlight {
    type V = Pending;

    closed spec fn view(&self) -> Pending {
        Pending { endpoint: self.stream@, op: self.op }
    }
}

/// Where an operation stands after a step.
#[derive(Debug)]
pub enum Progress {
    /// One more system call is needed.
    Call(InFlight),
    /// The operation is over.
    Done(TcpStream, Outcome),
}

impl View for Progress {
    type V = Step;

    open spec fn view(&self) -> Step {
        match self {
            Progress::Call(flight) => Step::Call(flight@),
            Progress::Done(stream, outcome) => Step::Done(stream@, *outcome),
        }
    }
}

impl TcpStream {
    /// Starts to establish a connection to the IPv4 address `ip_host`, port
    /// `port`, both as numbers in host order, classifying failures by the
    /// platform's error numbers.
    ///
    /// The connection gets a socket, is connected, and has both deadlines set to
    /// [`DEFAULT_TIMEOUT_MS`]; if a step after the first fails, the socket is
    /// closed before the error is reported. A socket that cannot be opened or
    /// connected is reported by its error number, as a timeout or as `Other`; a
    /// deadline that cannot be set is always reported as `Other`.
    pub fn connect(ip_host: u32, port: u16) -> (flight: InFlight)
        ensures
            flight@ == Endpoint::establish(
                flight@.endpoint.codes,
                DEFAULT_TIMEOUT_MS,
                ip_host,
                port,
            ),
            flight@.wf(),
    {
        TcpStream::connect_with(ErrorCodes::platform(), DEFAULT_TIMEOUT_MS, ip_host, port)
    }

    /// As [`TcpStream::connect`], classifying failures by `codes` and setting
    /// both deadlines to `timeout_ms` milliseconds.
    pub fn connect_with(codes: ErrorCodes, timeout_ms: u32, ip_host: u32, port: u16) -> (flight:
        InFlight)
        ensures
            flight@ == Endpoint::establish(codes, timeout_ms, ip_host, port),
            flight@.wf(),
    {
        let stream = TcpStream { fd: -1, send_timeout: 0, recv_timeout: 0, codes };
        InFlight { stream, op: Op::Establish { addr: SockAddrIn::new(ip_host, port), timeout_ms } }
    }

    /// Starts `op`, or fails at once where the stream holds no socket.
    fn begin(self, op: Op) -> (progress: Progress)
        requires
            !(op is Establish),
            op matches Op::Transmit { len, sent } ==> sent <= len,
        ensures
            progress@ == self@.begin(op),
            progress@.wf(),
    {
        if self.fd >= 0 {
            Progress::Call(InFlight { stream: self, op })
        } else {
            let error = IoError::Other(self.codes.bad_descriptor);
            Progress::Done(self, Outcome::Failed(error))
        }
    }

    /// Starts to connect the stream's socket to `ip_host`, `port`, both as
    /// numbers in host order.
    ///
    /// The one call is a `Connect` to the address in network order. An answer of
    /// 0 completes the operation; any other is a failure, classified by its error
    /// number, and leaves the socket open.
    pub fn connect_internal(self, ip_host: u32, port: u16) -> (progress: Progress)
        ensures
            progress@ == self@.begin(
                Op::Link { addr: SockAddrIn::of(ip_host, port), deadlines: None },
            ),
            progress@.wf(),
    {
        let addr = SockAddrIn::new(ip_host, port);
        self.begin(Op::Link { addr, deadlines: None })
    }

    /// Starts to set the deadline for writes to `to` milliseconds; 0 lets them
    /// block without bound.
    ///
    /// The one call is a `SetTimeout` with `to` split into seconds and
    /// microseconds. An answer of 0 completes the operation and records `to`;
    /// any other is a failure, reported as `Other` with its error number
    /// whatever the number is, and the deadline on record stays. The deadline
    /// for reads is not touched.
    pub fn set_send_timeout(self, to: u32) -> (progress: Progress)
        ensures
            progress@ == self@.begin(
                Op::Deadline { direction: Direction::Sending, ms: to, establishing: false },
            ),
            progress@.wf(),
    {
        self.set_timeout(Direction::Sending, to)
    }

    /// Starts to set the deadline for reads to `to` milliseconds; 0 lets them
    /// block without bound.
    ///
    /// As [`TcpStream::set_send_timeout`], for the other direction.
    pub fn set_recv_timeout(self, to: u32) -> (progress: Progress)
        ensures
            progress@ == self@.begin(
                Op::Deadline { direction: Direction::Receiving, ms: to, establishing: false },
            ),
            progress@.wf(),
    {
        self.set_timeout(Direction::Receiving, to)
    }

    fn set_timeout(self, direction: Direction, to: u32) -> (progress: Progress)
        ensures
            progress@ == self@.begin(Op::Deadline { direction, ms: to, establishing: false }),
            progress@.wf(),
    {
        self.begin(Op::Deadline { direction, ms: to, establishing: false })
    }

    /// Starts a read into a buffer of `len` bytes, bounded by the deadline for
    /// reads.
    ///
    /// The one call is a `Recv` of up to `len` bytes. An answer that is not
    /// negative ends the read with that many bytes received, never more than
    /// `len`; it may be fewer, and it may be none. A negative answer is a
    /// failure: a timeout if the error number says that the deadline passed,
    /// and `Other` with the error number if not.
    pub fn read(self, len: usize) -> (progress: Progress)
        ensures
            progress@ == self@.begin(Op::Receive { len }),
            progress@.wf(),
    {
        self.begin(Op::Receive { len })
    }

    /// Starts to write a whole buffer of `len` bytes, each system call bounded by
    /// the deadline for writes.
    ///
    /// The first call is a `Send` of the whole buffer. After an answer that
    /// accepts only a part, the next `Send` offers what is left, and so on until
    /// every byte is accepted: only then is the write completed. A negative
    /// answer ends the write with a failure, whatever was accepted before.
    pub fn write_all(self, len: usize) -> (progress: Progress)
        ensures
            progress@ == self@.begin(Op::Transmit { len, sent: 0 }),
            progress@.wf(),
    {
        self.begin(Op::Transmit { len, sent: 0 })
    }

    /// Gives up the socket: the first time this names the call that closes it,
    /// and every time after that it does nothing.
    pub fn teardown(&mut self) -> (call: Option<SysCall>)
        ensures
            (final(self)@, call) == old(self)@.teardown(),
    {
        if self.fd >= 0 {
            let fd = self.fd;
            self.fd = -1;
            Some(SysCall::Close { fd })
        } else {
            None
        }
    }

    /// Whether the stream holds a socket.
    pub fn is_open(&self) -> (held: bool)
        ensures
            held == self@.is_open(),
    {
        self.fd >= 0
    }

    /// The deadline for writes that was set last, in milliseconds.
    pub fn send_timeout(&self) -> (ms: u32)
        ensures
            ms == self@.send_timeout,
    {
        self.send_timeout
    }

    /// The deadline for reads that was set last, in milliseconds.
    pub fn recv_timeout(&self) -> (ms: u32)
        ensures
            ms == self@.recv_timeout,
    {
        self.recv_timeout
    }
}

impl InFlight {
    #[verifier::type_invariant]
    spec fn well_formed(self) -> bool {
        self@.wf()
    }

    /// The system call to make next.
    pub fn call(&self) -> (call: SysCall)
        ensures
            call == self@.call(),
            self@.wf(),
    {
        proof {
            use_type_invariant(self);
        }
        let fd = self.stream.fd;
        match self.op {
            Op::Establish { .. } => SysCall::Socket,
            Op::Link { addr, .. } => SysCall::Connect { fd, addr },
            Op::Deadline { direction, ms, .. } => SysCall::SetTimeout {
                fd,
                direction,
                timeout: Timeval::from_millis(ms),
            },
            Op::Receive { len } => SysCall::Recv { fd, len },
            Op::Transmit { len, sent } => SysCall::Send { fd, offset: sent, len: len - sent },
            Op::Release { .. } => SysCall::Close { fd },
        }
    }

    /// Takes the answer to [`InFlight::call`] and decides what follows: the next
    /// call of the operation, or its end.
    pub fn resume(self, ret: SysReturn) -> (progress: Progress)
        ensures
            progress@ == self@.resume(ret),
            progress@.wf(),
    {
        proof {
            use_type_invariant(&self);
        }
        let InFlight { stream, op } = self;
        let error = IoError::from_code(&stream.codes, ret.errno);
        match op {
            Op::Establish { addr, timeout_ms } => match ret.as_descriptor() {
                Some(fd) => Progress::Call(
                    InFlight {
                        stream: TcpStream { fd, ..stream },
                        op: Op::Link { addr, deadlines: Some(timeout_ms) },
                    },
                ),
                None => Progress::Done(stream, Outcome::Failed(error)),
            },
            Op::Link { deadlines, .. } => {
                if ret.ret != 0 {
                    InFlight::fail(stream, deadlines.is_some(), error)
                } else {
                    match deadlines {
                        Some(ms) => Progress::Call(
                            InFlight {
                                stream,
                                op: Op::Deadline {
                                    direction: Direction::Sending,
                                    ms,
                                    establishing: true,
                                },
                            },
                        ),
                        None => Progress::Done(stream, Outcome::Completed),
                    }
                }
            },
            Op::Deadline { direction, ms, establishing } => {
                if ret.ret != 0 {
                    InFlight::fail(stream, establishing, IoError::Other(ret.errno))
                } else {
                    match direction {
                        Direction::Sending => {
                            let stream = TcpStream { send_timeout: ms, ..stream };
                            if establishing {
                                Progress::Call(
                                    InFlight {
                                        stream,
                                        op: Op::Deadline {
                                            direction: Direction::Receiving,
                                            ms,
                                            establishing: true,
                                        },
                                    },
                                )
                            } else {
                                Progress::Done(stream, Outcome::Completed)
                            }
                        },
                        Direction::Receiving => Progress::Done(
                            TcpStream { recv_timeout: ms, ..stream },
                            Outcome::Completed,
                        ),
                    }
                }
            },
            Op::Receive { len } => {
                if ret.ret < 0 {
                    Progress::Done(stream, Outcome::Failed(error))
                } else {
                    Progress::Done(stream, Outcome::Received(ret.as_count(len)))
                }
            },
            Op::Transmit { len, sent } => {
                if ret.ret < 0 {
                    Progress::Done(stream, Outcome::Failed(error))
                } else {
                    let now: usize = sent + ret.as_count(len - sent);
                    if now >= len {
                        Progress::Done(stream, Outcome::Completed)
                    } else {
                        Progress::Call(InFlight { stream, op: Op::Transmit { len, sent: now } })
                    }
                }
            },
            Op::Release { error } => Progress::Done(
                TcpStream { fd: -1, ..stream },
                Outcome::Failed(error),
            ),
        }
    }

    /// Reports `error`, after closing the socket where a connection was being
    /// established.
    fn fail(stream: TcpStream, establishing: bool, error: IoError) -> (progress: Progress)
        requires
            stream@.is_open(),
        ensures
            progress@ == stream@.fail(establishing, error),
            progress@.wf(),
    {
        if establishing {
            Progress::Call(InFlight { stream, op: Op::Release { error } })
        } else {
            Progress::Done(stream, Outcome::Failed(error))
        }
    }
}

} // verus!
