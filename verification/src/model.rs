//! The transport as a function from state and answer to next state and request.
//!
//! Everything here works on plain values, so that each step of an operation can
//! be stated exactly; [`crate::tcp`] holds the executable types that refine it.
use vstd::prelude::*;
use crate::error::{ErrorCodes, IoError};
use crate::sys::{Direction, SockAddrIn, SysCall, SysReturn, Timeval};

verus! {

/// The deadline, in milliseconds, that a new connection gets in both directions
/// unless another is asked for.
pub const DEFAULT_TIMEOUT_MS: u32 = 500;

/// An operation of the transport that waits for the answer to a system call.
#[derive(Debug, Clone, Copy, PartialEq, Eq)]
pub enum Op {
    /// Establishing a connection to `addr` with deadlines of `timeout_ms`
    /// milliseconds: the socket is being opened.
    Establish { addr: SockAddrIn, timeout_ms: u32 },
    /// Connecting the socket to `addr`; while a connection is established,
    /// `deadlines` holds the deadlines that are to follow.
    Link { addr: SockAddrIn, deadlines: Option<u32> },
    /// Setting the deadline of one direction to `ms` milliseconds; while a
    /// connection is established, the other direction follows the first.
    Deadline { direction: Direction, ms: u32, establishing: bool },
    /// Reading up to `len` bytes.
    Receive { len: usize },
    /// Writing `len` bytes, of which the first `sent` are already accepted.
    Transmit { len: usize, sent: usize },
    /// Closing the socket of a connection that could not be established,
    /// before `error` is reported.
    Release { error: IoError },
}

/// How an operation ended.
#[derive(Debug, Clone, Copy, PartialEq, Eq)]
pub enum Outcome {
    /// The operation did all it was asked to do.
    Completed,
    /// A read placed this many bytes at the start of the buffer.
    Received(usize),
    /// The operation failed.
    Failed(IoError),
}

/// What an endpoint knows: its descriptor, the deadlines it has set, and the
/// error numbers it classifies by.
pub struct Endpoint {
    /// The socket's descriptor, or a negative number when the endpoint holds none.
    pub fd: i32,
    /// The deadline for writes in milliseconds; 0 leaves them unbounded.
    pub send_timeout: u32,
    /// The deadline for reads in milliseconds; 0 leaves them unbounded.
    pub recv_timeout: u32,
    /// The error numbers by which failures are classified.
    pub codes: ErrorCodes,
}

/// An endpoint together with the operation it has in flight.
pub struct Pending {
    pub endpoint: Endpoint,
    pub op: Op,
}

/// Where an operation stands: it needs one more system call, or it is over and
/// hands the endpoint back.
pub enum Step {
    Call(Pending),
    Done(Endpoint, Outcome),
}

impl Endpoint {
    /// An endpoint that holds no socket yet.
    pub open spec fn fresh(codes: ErrorCodes) -> Endpoint {
        Endpoint { fd: -1i32, send_timeout: 0, recv_timeout: 0, codes }
    }

    /// Whether the endpoint holds a socket.
    pub open spec fn is_open(self) -> bool {
        self.fd >= 0
    }

    /// The endpoint without its socket.
    pub open spec fn released(self) -> Endpoint {
        Endpoint { fd: -1i32, ..self }
    }

    /// The endpoint with the deadline of `direction` recorded as `ms`.
    pub open spec fn with_timeout(self, direction: Direction, ms: u32) -> Endpoint {
        match direction {
            Direction::Sending => Endpoint { send_timeout: ms, ..self },
            Direction::Receiving => Endpoint { recv_timeout: ms, ..self },
        }
    }

    /// The first step of establishing a connection to `ip_host`, `port` whose
    /// deadlines are `timeout_ms` milliseconds in both directions.
    pub open spec fn establish(
        codes: ErrorCodes,
        timeout_ms: u32,
        ip_host: u32,
        port: u16,
    ) -> Pending {
        Pending {
            endpoint: Endpoint::fresh(codes),
            op: Op::Establish { addr: SockAddrIn::of(ip_host, port), timeout_ms },
        }
    }

    /// The first step of `op` on this endpoint: an endpoint without a socket
    /// fails at once, with the error number for a bad descriptor and without
    /// a system call.
    pub open spec fn begin(self, op: Op) -> Step {
        if self.is_open() {
            Step::Call(Pending { endpoint: self, op })
        } else {
            Step::Done(self, Outcome::Failed(IoError::Other(self.codes.bad_descriptor)))
        }
    }

    /// What follows a failure with `error`: while a connection is being
    /// established its socket is closed first, otherwise the error is reported
    /// and the endpoint stays as it is.
    pub open spec fn fail(self, establishing: bool, error: IoError) -> Step {
        if establishing {
            Step::Call(Pending { endpoint: self, op: Op::Release { error } })
        } else {
            Step::Done(self, Outcome::Failed(error))
        }
    }

    /// Giving up the socket: the endpoint afterwards, and the call that closes
    /// the socket if there was one.
    pub open spec fn teardown(self) -> (Endpoint, Option<SysCall>) {
        if self.is_open() {
            (self.released(), Some(SysCall::Close { fd: self.fd }))
        } else {
            (self, None)
        }
    }
}

impl Step {
    /// Whether the operation, if it is still in flight, is well formed.
    pub open spec fn wf(self) -> bool {
        self matches Step::Call(pending) ==> pending.wf()
    }
}

impl Pending {
    /// What holds of every operation in flight: only the first step of
    /// establishing works without a socket, and a write has accepted no more
    /// than it was given.
    pub open spec fn wf(self) -> bool {
        match self.op {
            Op::Establish { .. } => !self.endpoint.is_open(),
            Op::Transmit { len, sent } => self.endpoint.is_open() && sent <= len,
            _ => self.endpoint.is_open(),
        }
    }

    /// The system call that the operation waits for.
    pub open spec fn call(self) -> SysCall {
        let fd = self.endpoint.fd;
        match self.op {
            Op::Establish { .. } => SysCall::Socket,
            Op::Link { addr, .. } => SysCall::Connect { fd, addr },
            Op::Deadline { direction, ms, .. } => SysCall::SetTimeout {
                fd,
                direction,
                timeout: Timeval::of_millis(ms),
            },
            Op::Receive { len } => SysCall::Recv { fd, len },
            Op::Transmit { len, sent } => SysCall::Send {
                fd,
                offset: sent,
                len: (len - sent) as usize,
            },
            Op::Release { .. } => SysCall::Close { fd },
        }
    }

    /// The step that follows the answer `ret` to the call that was waited for.
    ///
    /// A failed call is reported by its error number: as a timeout where the
    /// number says that a deadline passed, as `Other` with the number where it
    /// does not. Setting a deadline is the exception: it waits for nothing, so
    /// its failure is `Other` with the number, whatever the number is.
    pub open spec fn resume(self, ret: SysReturn) -> Step {
        let endpoint = self.endpoint;
        let error = IoError::classify(endpoint.codes, ret.errno);
        match self.op {
            Op::Establish { addr, timeout_ms } => match ret.descriptor() {
                Some(fd) => Step::Call(
                    Pending {
                        endpoint: Endpoint { fd, ..endpoint },
                        op: Op::Link { addr, deadlines: Some(timeout_ms) },
                    },
                ),
                None => Step::Done(endpoint, Outcome::Failed(error)),
            },
            Op::Link { deadlines, .. } => if ret.ret != 0 {
                endpoint.fail(deadlines is Some, error)
            } else {
                match deadlines {
                    Some(ms) => Step::Call(
                        Pending {
                            endpoint,
                            op: Op::Deadline {
                                direction: Direction::Sending,
                                ms,
                                establishing: true,
                            },
                        },
                    ),
                    None => Step::Done(endpoint, Outcome::Completed),
                }
            },
            Op::Deadline { direction, ms, establishing } => if ret.ret != 0 {
                endpoint.fail(establishing, IoError::Other(ret.errno))
            } else if establishing && direction is Sending {
                Step::Call(
                    Pending {
                        endpoint: endpoint.with_timeout(direction, ms),
                        op: Op::Deadline {
                            direction: Direction::Receiving,
                            ms,
                            establishing: true,
                        },
                    },
                )
            } else {
                Step::Done(endpoint.with_timeout(direction, ms), Outcome::Completed)
            },
            Op::Receive { len } => if ret.ret < 0 {
                Step::Done(endpoint, Outcome::Failed(error))
            } else {
                Step::Done(endpoint, Outcome::Received(ret.count(len)))
            },
            Op::Transmit { len, sent } => if ret.ret < 0 {
                Step::Done(endpoint, Outcome::Failed(error))
            } else {
                let now = (sent + ret.count((len - sent) as usize)) as usize;
                if now >= len {
                    Step::Done(endpoint, Outcome::Completed)
                } else {
                    Step::Call(Pending { endpoint, op: Op::Transmit { len, sent: now } })
                }
            },
            Op::Release { error } => Step::Done(endpoint.released(), Outcome::Failed(error)),
        }
    }
}

} // verus!
